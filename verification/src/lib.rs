//! Summaries of pull requests: from a pull-request URL to the identifier the
//! hosting service's API is asked with, and from the API's answer to the text
//! shown to the user.
//!
//! - [`identifier`]: the identifier, how it is read from a URL's path, and the
//!   API endpoint it stands for.
//! - [`summary`]: the summary, what an answer of the API is taken for, and the
//!   text a summary is shown as.
//! - [`error`]: what can go wrong, by kind and with a message.
//! - [`decimal`]: decimal numerals, as the text shows the counts.
//! - [`url_path`]: the path segments of a URL, as the `url` crate reads them.
//!
//! The library does no input or output. A program that uses it asks the API
//! itself and hands over what came back.

pub mod decimal;
pub mod error;
pub mod identifier;
pub mod summary;
pub mod url_path;

pub use error::{ErrorKind, PullRequestError};
pub use identifier::PullRequestID;
pub use summary::{Fetched, PullRequestSummary};

//! The ways in which summarising a pull request can fail.

use vstd::prelude::*;
use vstd::string::StringExecFns;

verus! {

/// The broad class of a failure, for callers that branch on what went wrong
/// rather than on the wording of a message.
#[derive(Clone, Copy, Debug, PartialEq, Eq, Structural)]
pub enum ErrorKind {
    /// The input is not a URL at all.
    InvalidUrl,
    /// The URL's path ends before owner, repository, keyword and number were
    /// all read.
    IncompleteIdentifier,
    /// The URL's path names something other than a pull request.
    UnexpectedPathKeyword,
    /// No API client could be set up with the credential.
    AuthFailure,
    /// The request to the API did not come back with a usable response.
    TransportFailure,
    /// The API answered, but with no pull request.
    NotFound,
}

/// A failure on the way from a pull-request URL to its summary.
#[derive(Debug, PartialEq, Eq)]
pub enum PullRequestError {
    /// The text is not a URL; it is kept for the message.
    InvalidUrl { url: String },
    /// The URL is of a sort that has no path segments.
    NoPathSegments,
    /// The path has no owner.
    MissingOwner,
    /// The path has an owner but no repository.
    MissingRepository,
    /// The path ends after the repository.
    MissingKeyword,
    /// The segment after the repository is not the pull-request keyword.
    UnexpectedKeyword,
    /// The path ends after the keyword.
    MissingNumber,
    /// No API client could be set up with the credential.
    AuthFailure,
    /// The request to the API failed.
    TransportFailure,
    /// The API's answer carried no pull request.
    NotFound,
}

/// The mathematical value of a [`PullRequestError`].
pub enum PullRequestErrorView {
    InvalidUrl { url: Seq<char> },
    NoPathSegments,
    MissingOwner,
    MissingRepository,
    MissingKeyword,
    UnexpectedKeyword,
    MissingNumber,
    AuthFailure,
    TransportFailure,
    NotFound,
}

impl PullRequestErrorView {
    /// The class that the failure belongs to.
    pub open spec fn kind(self) -> ErrorKind {
        match self {
            PullRequestErrorView::InvalidUrl { .. } => ErrorKind::InvalidUrl,
            PullRequestErrorView::NoPathSegments => ErrorKind::IncompleteIdentifier,
            PullRequestErrorView::MissingOwner => ErrorKind::IncompleteIdentifier,
            PullRequestErrorView::MissingRepository => ErrorKind::IncompleteIdentifier,
            PullRequestErrorView::MissingKeyword => ErrorKind::IncompleteIdentifier,
            PullRequestErrorView::UnexpectedKeyword => ErrorKind::UnexpectedPathKeyword,
            PullRequestErrorView::MissingNumber => ErrorKind::IncompleteIdentifier,
            PullRequestErrorView::AuthFailure => ErrorKind::AuthFailure,
            PullRequestErrorView::TransportFailure => ErrorKind::TransportFailure,
            PullRequestErrorView::NotFound => ErrorKind::NotFound,
        }
    }

    /// The text shown to the user for the failure.
    pub open spec fn message(self) -> Seq<char> {
        match self {
            PullRequestErrorView::InvalidUrl { url } => "invalid url:  "@ + url,
            PullRequestErrorView::NoPathSegments => "url pull request parse error"@,
            PullRequestErrorView::MissingOwner => "non owner: pull request url"@,
            PullRequestErrorView::MissingRepository => "non repository: pull request url"@,
            PullRequestErrorView::MissingKeyword => "non pull path: pull request url"@,
            PullRequestErrorView::UnexpectedKeyword => "non pull request url"@,
            PullRequestErrorView::MissingNumber => "non pull request id: pull request url"@,
            PullRequestErrorView::AuthFailure => "not create github client"@,
            PullRequestErrorView::TransportFailure => "not get pull request"@,
            PullRequestErrorView::NotFound => "no pull request"@,
        }
    }
}

impl View for PullRequestError {
    type V = PullRequestErrorView;

    open spec fn view(&self) -> PullRequestErrorView {
        match self {
            PullRequestError::InvalidUrl { url } => PullRequestErrorView::InvalidUrl { url: url@ },
            PullRequestError::NoPathSegments => PullRequestErrorView::NoPathSegments,
            PullRequestError::MissingOwner => PullRequestErrorView::MissingOwner,
            PullRequestError::MissingRepository => PullRequestErrorView::MissingRepository,
            PullRequestError::MissingKeyword => PullRequestErrorView::MissingKeyword,
            PullRequestError::UnexpectedKeyword => PullRequestErrorView::UnexpectedKeyword,
            PullRequestError::MissingNumber => PullRequestErrorView::MissingNumber,
            PullRequestError::AuthFailure => PullRequestErrorView::AuthFailure,
            PullRequestError::TransportFailure => PullRequestErrorView::TransportFailure,
            PullRequestError::NotFound => PullRequestErrorView::NotFound,
        }
    }
}

impl Clone for PullRequestError {
    fn clone(&self) -> (copy: PullRequestError)
        ensures
            copy@ == self@,
    {
        match self {
            PullRequestError::InvalidUrl { url } => PullRequestError::InvalidUrl {
                url: url.clone(),
            },
            PullRequestError::NoPathSegments => PullRequestError::NoPathSegments,
            PullRequestError::MissingOwner => PullRequestError::MissingOwner,
            PullRequestError::MissingRepository => PullRequestError::MissingRepository,
            PullRequestError::MissingKeyword => PullRequestError::MissingKeyword,
            PullRequestError::UnexpectedKeyword => PullRequestError::UnexpectedKeyword,
            PullRequestError::MissingNumber => PullRequestError::MissingNumber,
            PullRequestError::AuthFailure => PullRequestError::AuthFailure,
            PullRequestError::TransportFailure => PullRequestError::TransportFailure,
            PullRequestError::NotFound => PullRequestError::NotFound,
        }
    }
}

impl PullRequestError {
    /// The class that the failure belongs to.
    pub fn kind(&self) -> (kind: ErrorKind)
        ensures
            kind == self@.kind(),
    {
        match self {
            PullRequestError::InvalidUrl { .. } => ErrorKind::InvalidUrl,
            PullRequestError::UnexpectedKeyword => ErrorKind::UnexpectedPathKeyword,
            PullRequestError::AuthFailure => ErrorKind::AuthFailure,
            PullRequestError::TransportFailure => ErrorKind::TransportFailure,
            PullRequestError::NotFound => ErrorKind::NotFound,
            PullRequestError::NoPathSegments
            | PullRequestError::MissingOwner
            | PullRequestError::MissingRepository
            | PullRequestError::MissingKeyword
            | PullRequestError::MissingNumber => ErrorKind::IncompleteIdentifier,
        }
    }

    /// The text shown to the user for the failure.
    pub fn message(&self) -> (message: String)
        ensures
            message@ == self@.message(),
    {
        match self {
            PullRequestError::InvalidUrl { url } => {
                let mut message = "invalid url:  ".to_owned();
                message.append(url.as_str());
                message
            },
            PullRequestError::NoPathSegments => "url pull request parse error".to_owned(),
            PullRequestError::MissingOwner => "non owner: pull request url".to_owned(),
            PullRequestError::MissingRepository => "non repository: pull request url".to_owned(),
            PullRequestError::MissingKeyword => "non pull path: pull request url".to_owned(),
            PullRequestError::UnexpectedKeyword => "non pull request url".to_owned(),
            PullRequestError::MissingNumber => "non pull request id: pull request url".to_owned(),
            PullRequestError::AuthFailure => "not create github client".to_owned(),
            PullRequestError::TransportFailure => "not get pull request".to_owned(),
            PullRequestError::NotFound => "no pull request".to_owned(),
        }
    }
}

} // verus!

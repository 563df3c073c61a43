//! The one place where this library leans on the `url` crate: reading the path
//! segments of a URL. Nothing here is proved; the rest of the library is
//! verified against what this file states.

use vstd::prelude::*;

verus! {

/// `url::ParseError`, the reason `url` gives when a text is not a URL. The
/// library only passes it on and never looks inside.
#[verifier::external_type_specification]
#[verifier::external_body]
pub struct ExParseError(url::ParseError);

/// What the `url` crate reads from a text: `None` where `Url::parse` rejects
/// the text; `Some(None)` where it accepts the text as a URL for which
/// `Url::path_segments` has nothing to give (a URL that cannot be a base, such
/// as a `mailto:` address); otherwise `Some(Some(segments))` with the segments
/// that `Url::path_segments` yields, in order.
pub uninterp spec fn url_path_segments(text: Seq<char>) -> Option<Option<Seq<Seq<char>>>>;

/// Calls `Url::parse` on `text` and, where that succeeds,
/// `Url::path_segments` on the URL, collecting the segments as owned strings.
///
/// The contract claims only that the answer is the one that
/// [`url_path_segments`] names for this text: parsing depends on the text and
/// on nothing else.
#[verifier::external_body]
pub(crate) fn parse_path_segments(text: &str) -> (parsed: Result<
    Option<Vec<String>>,
    url::ParseError,
>)
    ensures
        match parsed {
            Ok(Some(segments)) => url_path_segments(text@) == Some(Some(segments.deep_view())),
            Ok(None) => url_path_segments(text@) == Some(None::<Seq<Seq<char>>>),
            Err(_) => url_path_segments(text@) is None,
        },
{
    let url = url::Url::parse(text)?;
    Ok(url.path_segments().map(|segments| segments.map(|segment| segment.to_owned()).collect()))
}

} // verus!

//! Pull-request identifiers and how they are read from a URL.

use crate::error::{ErrorKind, PullRequestError, PullRequestErrorView};
use crate::url_path::{parse_path_segments, url_path_segments};
use vstd::prelude::*;
use vstd::string::StringExecFns;

verus! {

/// The path segment that marks a pull request.
pub const KEYWORD: &'static str = "pull";

/// The triple that addresses one pull request at the hosting service.
///
/// Every value has an owner and a repository that are not empty.
#[derive(Debug, PartialEq, Eq)]
pub struct PullRequestID {
    owner: String,
    repository: String,
    id: String,
}

/// The mathematical value of a [`PullRequestID`].
pub struct PullRequestIDView {
    pub owner: Seq<char>,
    pub repository: Seq<char>,
    pub id: Seq<char>,
}

impl PullRequestIDView {
    /// The path of the API endpoint that describes the pull request.
    pub open spec fn endpoint(self) -> Seq<char> {
        "repos/"@ + self.owner + "/"@ + self.repository + "/pulls/"@ + self.id
    }
}

impl View for PullRequestID {
    type V = PullRequestIDView;

    closed spec fn view(&self) -> PullRequestIDView {
        PullRequestIDView { owner: self.owner@, repository: self.repository@, id: self.id@ }
    }
}

/// Whether `segments` has a segment at `index` that is not empty.
pub open spec fn present(segments: Seq<Seq<char>>, index: int) -> bool {
    0 <= index < segments.len() && segments[index].len() > 0
}

/// The identifier that a URL's path segments spell, or the first thing found
/// wrong with them. `None` stands for a URL without path segments.
///
/// The segments are read in order: a non-empty owner, a non-empty repository,
/// the keyword, the number. Whatever follows the number is ignored.
pub open spec fn identify(path: Option<Seq<Seq<char>>>) -> Result<
    PullRequestIDView,
    PullRequestErrorView,
> {
    match path {
        None => Err(PullRequestErrorView::NoPathSegments),
        Some(segments) => if !present(segments, 0) {
            Err(PullRequestErrorView::MissingOwner)
        } else if !present(segments, 1) {
            Err(PullRequestErrorView::MissingRepository)
        } else if segments.len() < 3 {
            Err(PullRequestErrorView::MissingKeyword)
        } else if segments[2] != KEYWORD@ {
            Err(PullRequestErrorView::UnexpectedKeyword)
        } else if segments.len() < 4 {
            Err(PullRequestErrorView::MissingNumber)
        } else {
            Ok(PullRequestIDView { owner: segments[0], repository: segments[1], id: segments[3] })
        },
    }
}

/// The identifier that a text spells, given what URL parsing makes of the
/// text: `parsed` is `None` where the text is no URL, and otherwise holds the
/// URL's path segments, if it has any.
pub open spec fn identify_url(url: Seq<char>, parsed: Option<Option<Seq<Seq<char>>>>) -> Result<
    PullRequestIDView,
    PullRequestErrorView,
> {
    match parsed {
        None => Err(PullRequestErrorView::InvalidUrl { url }),
        Some(path) => identify(path),
    }
}

/// The mathematical value of path segments held as strings.
pub open spec fn path_view(path: Option<Vec<String>>) -> Option<Seq<Seq<char>>> {
    match path {
        None => None,
        Some(segments) => Some(segments.deep_view()),
    }
}

/// The mathematical value of an attempt to read an identifier.
pub open spec fn attempt_view(attempt: Result<PullRequestID, PullRequestError>) -> Result<
    PullRequestIDView,
    PullRequestErrorView,
> {
    match attempt {
        Ok(id) => Ok(id@),
        Err(error) => Err(error@),
    }
}

impl Clone for PullRequestID {
    fn clone(&self) -> (copy: PullRequestID)
        ensures
            copy@ == self@,
    {
        proof {
            use_type_invariant(self);
        }
        PullRequestID {
            owner: self.owner.clone(),
            repository: self.repository.clone(),
            id: self.id.clone(),
        }
    }
}

impl PullRequestID {
    #[verifier::type_invariant]
    spec fn well_formed(self) -> bool {
        self.owner@.len() > 0 && self.repository@.len() > 0
    }

    /// Reads an identifier from the path segments of a URL; `None` stands for
    /// a URL that has no path segments.
    pub fn from_path_segments(path: Option<Vec<String>>) -> (attempt: Result<
        PullRequestID,
        PullRequestError,
    >)
        ensures
            attempt_view(attempt) == identify(path_view(path)),
    {
        let segments = match path {
            None => { return Err(PullRequestError::NoPathSegments); },
            Some(segments) => segments,
        };
        if segments.len() < 1 || segments[0].as_str().is_empty() {
            return Err(PullRequestError::MissingOwner);
        }
        if segments.len() < 2 || segments[1].as_str().is_empty() {
            return Err(PullRequestError::MissingRepository);
        }
        if segments.len() < 3 {
            return Err(PullRequestError::MissingKeyword);
        }
        let keyword = KEYWORD.to_owned();
        if segments[2] != keyword {
            return Err(PullRequestError::UnexpectedKeyword);
        }
        if segments.len() < 4 {
            return Err(PullRequestError::MissingNumber);
        }
        Ok(
            PullRequestID {
                owner: segments[0].clone(),
                repository: segments[1].clone(),
                id: segments[3].clone(),
            },
        )
    }

    /// Reads an identifier from the text of a pull-request URL.
    pub fn from_str(url: &str) -> (attempt: Result<PullRequestID, PullRequestError>)
        ensures
            attempt_view(attempt) == identify_url(url@, url_path_segments(url@)),
    {
        match parse_path_segments(url) {
            Err(_) => Err(PullRequestError::InvalidUrl { url: url.to_owned() }),
            Ok(path) => PullRequestID::from_path_segments(path),
        }
    }

    /// The owner of the repository.
    pub fn owner(&self) -> (owner: &str)
        ensures
            owner@ == self@.owner,
            owner@.len() > 0,
    {
        proof {
            use_type_invariant(self);
        }
        self.owner.as_str()
    }

    /// The name of the repository.
    pub fn repository(&self) -> (repository: &str)
        ensures
            repository@ == self@.repository,
            repository@.len() > 0,
    {
        proof {
            use_type_invariant(self);
        }
        self.repository.as_str()
    }

    /// The number of the pull request, as it stands in the URL.
    pub fn id(&self) -> (id: &str)
        ensures
            id@ == self@.id,
    {
        self.id.as_str()
    }

    /// The path of the API endpoint that describes the pull request.
    pub fn endpoint(&self) -> (path: String)
        ensures
            path@ == self@.endpoint(),
    {
        let mut path = "repos/".to_owned();
        path.append(self.owner.as_str());
        path.append("/");
        path.append(self.repository.as_str());
        path.append("/pulls/");
        path.append(self.id.as_str());
        path
    }
}

/// A path that begins with an owner, a repository, the keyword and a number
/// identifies exactly that pull request, whatever follows the number; and so
/// does every URL with such a path.
pub proof fn lemma_pull_request_path_identified(
    url: Seq<char>,
    owner: Seq<char>,
    repository: Seq<char>,
    id: Seq<char>,
    rest: Seq<Seq<char>>,
)
    requires
        owner.len() > 0,
        repository.len() > 0,
    ensures
        identify(Some(seq![owner, repository, KEYWORD@, id] + rest)) == Ok::<
            PullRequestIDView,
            PullRequestErrorView,
        >(PullRequestIDView { owner, repository, id }),
        identify_url(url, Some(Some(seq![owner, repository, KEYWORD@, id] + rest))) == Ok::<
            PullRequestIDView,
            PullRequestErrorView,
        >(PullRequestIDView { owner, repository, id }),
{
}

/// Segments after the fourth are not looked at: a path of four or more
/// segments is read as it would be without whatever is appended to it.
pub proof fn lemma_trailing_segments_ignored(segments: Seq<Seq<char>>, extra: Seq<Seq<char>>)
    requires
        segments.len() >= 4,
    ensures
        identify(Some(segments + extra)) == identify(Some(segments)),
{
}

/// Of a URL nothing but its path segments bears on the outcome: two URLs with
/// the same segments, however they differ elsewhere (in scheme, host, query
/// or fragment), are read alike.
pub proof fn lemma_only_path_segments_matter(first: Seq<char>, second: Seq<char>)
    requires
        url_path_segments(first) is Some,
        url_path_segments(first) == url_path_segments(second),
    ensures
        identify_url(first, url_path_segments(first)) == identify_url(
            second,
            url_path_segments(second),
        ),
{
}

/// A text that is no URL is refused as such, with the text kept in the
/// error: there is no path to look at.
pub proof fn lemma_no_url_is_invalid(url: Seq<char>)
    requires
        url_path_segments(url) is None,
    ensures
        identify_url(url, url_path_segments(url)) == Err::<
            PullRequestIDView,
            PullRequestErrorView,
        >(PullRequestErrorView::InvalidUrl { url }),
{
}

/// A path that lacks a non-empty owner or a non-empty repository, as every
/// path of fewer than two segments does, fails for the first of the two that
/// is missing, and for nothing else.
pub proof fn lemma_path_without_repository(segments: Seq<Seq<char>>)
    requires
        segments.len() < 2 || !present(segments, 0) || !present(segments, 1),
    ensures
        identify(Some(segments)) == Err::<PullRequestIDView, PullRequestErrorView>(
            if present(segments, 0) {
                PullRequestErrorView::MissingRepository
            } else {
                PullRequestErrorView::MissingOwner
            },
        ),
{
}

/// A path of an owner and a repository and nothing more fails for want of
/// the keyword.
pub proof fn lemma_path_of_owner_and_repository(segments: Seq<Seq<char>>)
    requires
        segments.len() == 2,
        present(segments, 0),
        present(segments, 1),
    ensures
        identify(Some(segments)) == Err::<PullRequestIDView, PullRequestErrorView>(
            PullRequestErrorView::MissingKeyword,
        ),
{
}

/// A path whose third segment is anything but the keyword is refused as not
/// naming a pull request, whether or not a number follows: the number is
/// never reported missing before the keyword has been found.
pub proof fn lemma_other_keyword_refused(segments: Seq<Seq<char>>)
    requires
        present(segments, 0),
        present(segments, 1),
        segments.len() >= 3,
        segments[2] != KEYWORD@,
    ensures
        identify(Some(segments)) == Err::<PullRequestIDView, PullRequestErrorView>(
            PullRequestErrorView::UnexpectedKeyword,
        ),
{
}

/// A path of fewer than four segments identifies nothing.
pub proof fn lemma_short_path_fails(segments: Seq<Seq<char>>)
    requires
        segments.len() < 4,
    ensures
        identify(Some(segments)) is Err,
{
}

/// Reading an identifier fails only in the ways that reading can: the text is
/// no URL, the path is incomplete, or the keyword is another. And where it
/// succeeds, owner and repository are not empty.
pub proof fn lemma_reading_outcomes(url: Seq<char>, parsed: Option<Option<Seq<Seq<char>>>>)
    ensures
        match identify_url(url, parsed) {
            Ok(id) => id.owner.len() > 0 && id.repository.len() > 0,
            Err(error) => {
                ||| error.kind() == ErrorKind::InvalidUrl && parsed is None
                ||| error.kind() == ErrorKind::IncompleteIdentifier && parsed is Some
                ||| error.kind() == ErrorKind::UnexpectedPathKeyword && parsed is Some
            },
        },
{
}

} // verus!

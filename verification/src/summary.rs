//! Pull-request summaries: what the API's answer is taken for, and the text
//! that a summary is shown as.

use crate::decimal::{append_decimal, decimal};
use crate::error::{PullRequestError, PullRequestErrorView};
use vstd::prelude::*;
use vstd::string::StringExecFns;

verus! {

/// The few facts about a pull request that are shown to the user.
#[derive(Debug, PartialEq, Eq)]
pub struct PullRequestSummary {
    pub title: String,
    pub html_url: String,
    pub additions: u32,
    pub deletions: u32,
    pub changed_files: u32,
}

/// The mathematical value of a [`PullRequestSummary`].
pub struct PullRequestSummaryView {
    pub title: Seq<char>,
    pub html_url: Seq<char>,
    pub additions: nat,
    pub deletions: nat,
    pub changed_files: nat,
}

impl PullRequestSummaryView {
    /// The two lines that the summary is shown as: the title with the counts
    /// of added lines, deleted lines and changed files, then the URL. The
    /// second line is not terminated.
    pub open spec fn text(self) -> Seq<char> {
        self.title + " (+"@ + decimal(self.additions) + ",-"@ + decimal(self.deletions)
            + ") changed files "@ + decimal(self.changed_files) + "\n"@ + self.html_url
    }
}

impl View for PullRequestSummary {
    type V = PullRequestSummaryView;

    open spec fn view(&self) -> PullRequestSummaryView {
        PullRequestSummaryView {
            title: self.title@,
            html_url: self.html_url@,
            additions: self.additions as nat,
            deletions: self.deletions as nat,
            changed_files: self.changed_files as nat,
        }
    }
}

/// How asking the API for one pull request ended.
#[derive(Debug, PartialEq, Eq)]
pub enum Fetched {
    /// No API client could be set up with the credential.
    NoClient,
    /// The request did not come back with a usable response.
    NoResponse,
    /// The API answered, but the answer carried no pull request.
    NoBody,
    /// The API answered with the pull request.
    Body(PullRequestSummary),
}

/// The mathematical value of a [`Fetched`].
pub enum FetchedView {
    NoClient,
    NoResponse,
    NoBody,
    Body(PullRequestSummaryView),
}

impl FetchedView {
    /// The summary that the answer holds, or what kept it from holding one.
    pub open spec fn summary(self) -> Result<PullRequestSummaryView, PullRequestErrorView> {
        match self {
            FetchedView::NoClient => Err(PullRequestErrorView::AuthFailure),
            FetchedView::NoResponse => Err(PullRequestErrorView::TransportFailure),
            FetchedView::NoBody => Err(PullRequestErrorView::NotFound),
            FetchedView::Body(summary) => Ok(summary),
        }
    }
}

impl View for Fetched {
    type V = FetchedView;

    open spec fn view(&self) -> FetchedView {
        match self {
            Fetched::NoClient => FetchedView::NoClient,
            Fetched::NoResponse => FetchedView::NoResponse,
            Fetched::NoBody => FetchedView::NoBody,
            Fetched::Body(summary) => FetchedView::Body(summary@),
        }
    }
}

impl Clone for PullRequestSummary {
    fn clone(&self) -> (copy: PullRequestSummary)
        ensures
            copy@ == self@,
    {
        PullRequestSummary {
            title: self.title.clone(),
            html_url: self.html_url.clone(),
            additions: self.additions,
            deletions: self.deletions,
            changed_files: self.changed_files,
        }
    }
}

impl Clone for Fetched {
    fn clone(&self) -> (copy: Fetched)
        ensures
            copy@ == self@,
    {
        match self {
            Fetched::NoClient => Fetched::NoClient,
            Fetched::NoResponse => Fetched::NoResponse,
            Fetched::NoBody => Fetched::NoBody,
            Fetched::Body(summary) => Fetched::Body(summary.clone()),
        }
    }
}

/// The mathematical value of an attempt to get a summary.
pub open spec fn summary_attempt_view(
    attempt: Result<PullRequestSummary, PullRequestError>,
) -> Result<PullRequestSummaryView, PullRequestErrorView> {
    match attempt {
        Ok(summary) => Ok(summary@),
        Err(error) => Err(error@),
    }
}

impl PullRequestSummary {
    /// Takes the summary out of the API's answer, or says why there is none.
    pub fn new(fetched: Fetched) -> (attempt: Result<PullRequestSummary, PullRequestError>)
        ensures
            summary_attempt_view(attempt) == fetched@.summary(),
    {
        match fetched {
            Fetched::NoClient => Err(PullRequestError::AuthFailure),
            Fetched::NoResponse => Err(PullRequestError::TransportFailure),
            Fetched::NoBody => Err(PullRequestError::NotFound),
            Fetched::Body(summary) => Ok(summary),
        }
    }

    /// The text that the summary is shown as.
    pub fn to_string(&self) -> (text: String)
        ensures
            text@ == self@.text(),
    {
        let mut text = self.title.clone();
        text.append(" (+");
        append_decimal(&mut text, self.additions);
        text.append(",-");
        append_decimal(&mut text, self.deletions);
        text.append(") changed files ");
        append_decimal(&mut text, self.changed_files);
        text.append("\n");
        text.append(self.html_url.as_str());
        text
    }
}

} // verus!

//! The errors of the library.

use vstd::prelude::*;
use vstd::string::*;

verus! {

/// What can go wrong inside the library.
#[derive(Debug, Clone)]
pub enum RepoHealthError {
    /// The repository was not named as `owner/repo` or by its address.
    InvalidRepoFormat(String),
    /// Data was fetched but could not be used.
    AnalysisFailed(String),
}

/// An error as plain values.
pub enum RepoHealthErrorView {
    InvalidRepoFormat(Seq<char>),
    AnalysisFailed(Seq<char>),
}

impl View for RepoHealthError {
    type V = RepoHealthErrorView;

    open spec fn view(&self) -> RepoHealthErrorView {
        match self {
            RepoHealthError::InvalidRepoFormat(what) => RepoHealthErrorView::InvalidRepoFormat(
                what@,
            ),
            RepoHealthError::AnalysisFailed(what) => RepoHealthErrorView::AnalysisFailed(what@),
        }
    }
}

/// The text of an error.
pub open spec fn error_text(error: RepoHealthErrorView) -> Seq<char> {
    match error {
        RepoHealthErrorView::InvalidRepoFormat(what) => "Invalid repository format: "@ + what,
        RepoHealthErrorView::AnalysisFailed(what) => "Analysis failed: "@ + what,
    }
}

impl RepoHealthError {
    /// The error as text for a reader.
    pub fn message(&self) -> (text: String)
        ensures
            text@ == error_text(self@),
    {
        match self {
            RepoHealthError::InvalidRepoFormat(what) => String::from_str(
                "Invalid repository format: ",
            ).concat(what.as_str()),
            RepoHealthError::AnalysisFailed(what) => String::from_str("Analysis failed: ").concat(
                what.as_str(),
            ),
        }
    }
}

} // verus!

//! How a repository is named on the command line.

use vstd::prelude::*;
use vstd::string::*;
use crate::error::{RepoHealthError, RepoHealthErrorView};
use crate::text::{contains, occurs_in, split, split_at_each, trim_end_matches, without_trailing};

verus! {

/// The arguments of the command line.
#[derive(Debug, Clone)]
pub struct Cli {
    /// The repository, as `owner/repo` or as its full address.
    pub repository: String,
    /// An access token. Public repositories need none.
    pub token: Option<String>,
    /// The path of the report.
    pub output: String,
    /// Write the report only, print nothing.
    pub quiet: bool,
}

/// The path segments of a text read as an absolute URL, as `Url::parse` and
/// then `Url::path_segments` of the `url` crate give them. `None` where the
/// text is no absolute URL, or is one that cannot be a base.
pub uninterp spec fn url_path_segments(input: Seq<char>) -> Option<Seq<Seq<char>>>;

/// `Url::parse` and `Url::path_segments` of the `url` crate: the segments of
/// the path of `input`, each copied into a `String`.
#[verifier::external_body]
fn path_segments(input: &str) -> (segments: Option<Vec<String>>)
    ensures
        segments.deep_view() == url_path_segments(input@),
{
    match url::Url::parse(input) {
        Ok(parsed) => match parsed.path_segments() {
            Some(parts) => Some(parts.map(String::from).collect()),
            None => None,
        },
        Err(_) => None,
    }
}

/// The text names the host, so it is read as an address.
pub open spec fn names_host(input: Seq<char>) -> bool {
    occurs_in("github.com"@, input)
}

/// Owner and repository from the segments of an address: the first segment,
/// and the second without any trailing `.git`.
pub open spec fn repo_of_segments(segments: Option<Seq<Seq<char>>>) -> Option<
    (Seq<char>, Seq<char>),
> {
    match segments {
        Some(found) => if found.len() >= 2 {
            Some((found[0], without_trailing(found[1], ".git"@)))
        } else {
            None
        },
        None => None,
    }
}

/// Owner and repository from the short form: the two parts around the one
/// slash.
pub open spec fn repo_of_short_form(input: Seq<char>) -> Option<(Seq<char>, Seq<char>)> {
    let parts = split_at_each(input, '/');
    if parts.len() == 2 {
        Some((parts[0], parts[1]))
    } else {
        None
    }
}

/// Owner and repository that a text names, if it names them.
pub open spec fn repo_of_input(input: Seq<char>) -> Option<(Seq<char>, Seq<char>)> {
    if names_host(input) {
        repo_of_segments(url_path_segments(input))
    } else {
        repo_of_short_form(input)
    }
}

/// `outcome` gives `expected` where there is one, and else rejects the format
/// with the words `complaint`.
pub open spec fn answers(
    outcome: Result<(String, String), RepoHealthError>,
    expected: Option<(Seq<char>, Seq<char>)>,
    complaint: Seq<char>,
) -> bool {
    match outcome {
        Ok(pair) => expected == Some((pair.0@, pair.1@)),
        Err(error) => expected is None && error@ == RepoHealthErrorView::InvalidRepoFormat(
            complaint,
        ),
    }
}

/// Reads owner and repository from the path segments of an address.
pub fn repo_from_segments(input: &str, segments: Option<Vec<String>>) -> (outcome: Result<
    (String, String),
    RepoHealthError,
>)
    ensures
        answers(outcome, repo_of_segments(segments.deep_view()), input@),
{
    match segments {
        Some(found) => {
            if found.len() < 2 {
                return Err(RepoHealthError::InvalidRepoFormat(String::from_str(input)));
            }
            proof {
                reveal_strlit(".git");
            }
            let owner = found[0].clone();
            let repo = String::from_str(trim_end_matches(found[1].as_str(), ".git"));
            Ok((owner, repo))
        },
        None => Err(RepoHealthError::InvalidRepoFormat(String::from_str(input))),
    }
}

/// Reads owner and repository from the short form `owner/repo`.
pub fn repo_from_short_form(input: &str) -> (outcome: Result<(String, String), RepoHealthError>)
    ensures
        answers(outcome, repo_of_short_form(input@), "Expected format: owner/repo"@),
{
    let parts = split(input, '/');
    if parts.len() != 2 {
        return Err(
            RepoHealthError::InvalidRepoFormat(String::from_str("Expected format: owner/repo")),
        );
    }
    Ok((parts[0].clone(), parts[1].clone()))
}

/// Reads owner and repository from `owner/repo` or from the repository's
/// full address.
pub fn parse_repo_input(input: &str) -> (outcome: Result<(String, String), RepoHealthError>)
    ensures
        answers(
            outcome,
            repo_of_input(input@),
            if names_host(input@) {
                input@
            } else {
                "Expected format: owner/repo"@
            },
        ),
{
    if contains(input, "github.com") {
        repo_from_segments(input, path_segments(input))
    } else {
        repo_from_short_form(input)
    }
}

} // verus!

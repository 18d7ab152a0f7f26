//! The snapshot of a repository that the analyzers read.

use vstd::prelude::*;
use vstd::string::*;
use vstd::utf8::{decode_utf8, valid_utf8};
use base64::Engine;
use crate::error::{RepoHealthError, RepoHealthErrorView};
use crate::text::{replace, replaced};

verus! {

/// One entry of the repository's file tree.
#[derive(Debug, Clone)]
pub struct TreeEntry {
    /// The path, relative to the repository root.
    pub path: String,
    /// The kind of entry: `blob` for a file, `tree` for a directory.
    pub entry_type: String,
}

/// The author of commits.
#[derive(Debug, Clone)]
pub struct Author {
    pub login: String,
}

/// The number of commits of one contributor.
#[derive(Debug, Clone)]
pub struct ContributorStats {
    pub author: Author,
    pub total: u64,
}

/// What is known of the repository itself.
#[derive(Debug, Clone)]
pub struct RepoMetadata {
    /// Whether the repository is archived, where the host says so.
    pub archived: Option<bool>,
    pub default_branch: Option<String>,
}

/// Everything the analyzers are given about one repository.
#[derive(Debug, Clone)]
pub struct RepoData {
    pub repository: RepoMetadata,
    pub tree: Vec<TreeEntry>,
    pub contributors: Vec<ContributorStats>,
    pub readme_content: Option<String>,
    pub has_license: bool,
}

/// A tree entry as plain values.
pub struct TreeEntryView {
    pub path: Seq<char>,
    pub entry_type: Seq<char>,
}

/// A contributor as plain values.
pub struct ContributorView {
    pub login: Seq<char>,
    pub total: nat,
}

/// A snapshot as plain values.
pub struct RepoDataView {
    pub archived: Option<bool>,
    pub default_branch: Option<Seq<char>>,
    pub tree: Seq<TreeEntryView>,
    pub contributors: Seq<ContributorView>,
    pub readme_content: Option<Seq<char>>,
    pub has_license: bool,
}

impl View for TreeEntry {
    type V = TreeEntryView;

    open spec fn view(&self) -> TreeEntryView {
        TreeEntryView { path: self.path@, entry_type: self.entry_type@ }
    }
}

impl DeepView for TreeEntry {
    type V = TreeEntryView;

    open spec fn deep_view(&self) -> TreeEntryView {
        self@
    }
}

impl View for ContributorStats {
    type V = ContributorView;

    open spec fn view(&self) -> ContributorView {
        ContributorView { login: self.author.login@, total: self.total as nat }
    }
}

impl DeepView for ContributorStats {
    type V = ContributorView;

    open spec fn deep_view(&self) -> ContributorView {
        self@
    }
}

impl View for RepoData {
    type V = RepoDataView;

    open spec fn view(&self) -> RepoDataView {
        RepoDataView {
            archived: self.repository.archived,
            default_branch: self.repository.default_branch.deep_view(),
            tree: self.tree.deep_view(),
            contributors: self.contributors.deep_view(),
            readme_content: self.readme_content.deep_view(),
            has_license: self.has_license,
        }
    }
}

impl RepoMetadata {
    /// The branch whose tree is analyzed: the default branch, or `main` where
    /// the host names none.
    pub fn branch(&self) -> (name: &str)
        ensures
            name@ == match self.default_branch {
                Some(branch) => branch@,
                None => "main"@,
            },
    {
        match &self.default_branch {
            Some(branch) => branch.as_str(),
            None => "main",
        }
    }
}

/// What to do after a request for the contributors has failed.
#[derive(Debug, Clone, Copy, PartialEq, Eq, Structural)]
pub enum RetryStep {
    /// Ask again after so many seconds.
    Wait { seconds: u64 },
    /// Report the failure.
    GiveUp,
}

/// The number of requests made before a failure is reported.
pub const MAX_ATTEMPTS: u32 = 5;

/// The pause after a failed attempt: one second after the first, and twice
/// as long after each further one.
pub open spec fn backoff_seconds(attempt: nat) -> nat
    decreases attempt,
{
    if attempt == 0 {
        1
    } else {
        2 * backoff_seconds((attempt - 1) as nat)
    }
}

/// Decides what follows the failure of attempt number `attempt`, the first
/// attempt being number 0: another attempt after a pause that doubles each
/// time, until the last attempt has failed.
pub fn after_failure(attempt: u32) -> (step: RetryStep)
    ensures
        step == if attempt + 1 < MAX_ATTEMPTS {
            RetryStep::Wait { seconds: backoff_seconds(attempt as nat) as u64 }
        } else {
            RetryStep::GiveUp
        },
{
    if attempt >= MAX_ATTEMPTS - 1 {
        return RetryStep::GiveUp;
    }
    let mut seconds: u64 = 1;
    let mut i: u32 = 0;
    while i < attempt
        invariant
            i <= attempt < 4,
            seconds == backoff_seconds(i as nat),
            seconds <= 8,
        decreases attempt - i,
    {
        reveal_with_fuel(backoff_seconds, 5);
        seconds = seconds * 2;
        i = i + 1;
    }
    RetryStep::Wait { seconds }
}

/// `DecodeError` of the `base64` crate, carried through unread.
#[verifier::external_type_specification]
#[verifier::external_body]
pub struct ExDecodeError(base64::DecodeError);

/// `FromUtf8Error` of the standard library, carried through unread.
#[verifier::external_type_specification]
#[verifier::external_body]
pub struct ExFromUtf8Error(std::string::FromUtf8Error);

/// The bytes that a text stands for in base64 with the standard alphabet and
/// padding, as the `base64` crate's `STANDARD` engine decodes it. `None`
/// where the text is not in that form.
pub uninterp spec fn base64_decoded(text: Seq<char>) -> Option<Seq<u8>>;

/// `Engine::decode` of the `base64` crate on its `STANDARD` engine: the
/// decoded bytes, or the crate's error where the text cannot be decoded.
#[verifier::external_body]
fn base64_decode(text: &str) -> (decoded: Result<Vec<u8>, base64::DecodeError>)
    ensures
        match decoded {
            Ok(bytes) => base64_decoded(text@) == Some(bytes@),
            Err(_) => base64_decoded(text@) is None,
        },
{
    base64::engine::general_purpose::STANDARD.decode(text)
}

/// `String::from_utf8`: the bytes as a string where they are UTF-8, an error
/// where they are not.
#[verifier::external_body]
fn string_from_utf8(bytes: Vec<u8>) -> (text: Result<String, std::string::FromUtf8Error>)
    ensures
        match text {
            Ok(s) => valid_utf8(bytes@) && s@ == decode_utf8(bytes@),
            Err(_) => !valid_utf8(bytes@),
        },
{
    String::from_utf8(bytes)
}

/// The text of a README from its decoded bytes, if there are any and they
/// are UTF-8.
pub open spec fn readme_of_bytes(decoded: Option<Seq<u8>>) -> Option<Seq<char>> {
    match decoded {
        Some(bytes) => if valid_utf8(bytes) {
            Some(decode_utf8(bytes))
        } else {
            None
        },
        None => None,
    }
}

/// The words that say why a README could not be read.
pub open spec fn readme_complaint(decoded: Option<Seq<u8>>) -> Seq<char> {
    if decoded is Some {
        "Failed to decode README as UTF-8"@
    } else {
        "Failed to decode README"@
    }
}

/// `outcome` gives the text `expected` where there is one, and else fails
/// with the words `complaint`.
pub open spec fn yields(
    outcome: Result<String, RepoHealthError>,
    expected: Option<Seq<char>>,
    complaint: Seq<char>,
) -> bool {
    match outcome {
        Ok(text) => expected == Some(text@),
        Err(error) => expected is None && error@ == RepoHealthErrorView::AnalysisFailed(complaint),
    }
}

/// Turns the decoded bytes of a README into its text.
pub fn readme_from_bytes(decoded: Option<Vec<u8>>) -> (outcome: Result<String, RepoHealthError>)
    ensures
        yields(outcome, readme_of_bytes(decoded.deep_view()), readme_complaint(decoded.deep_view())),
{
    match decoded {
        Some(bytes) => {
            assert(bytes.deep_view() =~= bytes@);
            match string_from_utf8(bytes) {
                Ok(text) => Ok(text),
                Err(_) => Err(
                    RepoHealthError::AnalysisFailed(
                        String::from_str("Failed to decode README as UTF-8"),
                    ),
                ),
            }
        },
        None => Err(RepoHealthError::AnalysisFailed(String::from_str("Failed to decode README"))),
    }
}

/// Reads the text of a README from the form in which the host sends it:
/// base64, broken into lines.
pub fn decode_readme(content: &str) -> (outcome: Result<String, RepoHealthError>)
    ensures
        yields(
            outcome,
            readme_of_bytes(base64_decoded(replaced(content@, '\n', Seq::empty()))),
            readme_complaint(base64_decoded(replaced(content@, '\n', Seq::empty()))),
        ),
{
    proof {
        reveal_strlit("");
    }
    let unbroken = replace(content, '\n', "");
    assert(unbroken@ == replaced(content@, '\n', Seq::empty())) by {
        assert(""@ =~= Seq::<char>::empty());
    }
    let decoded = match base64_decode(unbroken.as_str()) {
        Ok(bytes) => Some(bytes),
        Err(_) => None,
    };
    assert(decoded.deep_view() == base64_decoded(unbroken@)) by {
        if let Some(bytes) = decoded {
            assert(bytes.deep_view() =~= bytes@);
        }
    }
    readme_from_bytes(decoded)
}

/// A file, as opposed to a directory.
pub open spec fn is_blob(entry: TreeEntryView) -> bool {
    entry.entry_type == "blob"@
}

} // verus!

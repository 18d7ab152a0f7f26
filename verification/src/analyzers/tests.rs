//! Tests: a test directory, the number of test files, continuous integration
//! and a coverage badge.

use vstd::prelude::*;
use vstd::string::*;
use crate::analyzers::{
    missing, positive, record, warning, AnalysisResult, AnalysisResultView, Analyzer, Finding,
    FindingView,
};
use crate::error::RepoHealthError;
use crate::github::{is_blob, RepoData, RepoDataView, TreeEntry, TreeEntryView};
use crate::text::{contains, decimal_digits, ends_with, numbered, occurs_in, starts_with, str_eq};

verus! {

/// A path that reads like a test file in one of the ecosystems known here.
pub open spec fn is_test_path(path: Seq<char>) -> bool {
    // Rust
    ||| "tests/"@.is_prefix_of(path)
    ||| occurs_in("_test.rs"@, path)
    ||| occurs_in("/test_"@, path)
    // JavaScript and TypeScript
    ||| occurs_in(".test."@, path)
    ||| occurs_in(".spec."@, path)
    ||| occurs_in("__tests__"@, path)
    // Python
    ||| "test_"@.is_prefix_of(path)
    ||| "_test.py"@.is_suffix_of(path)
    ||| occurs_in("/test/"@, path)
    // Go
    ||| "_test.go"@.is_suffix_of(path)
    // Java
    ||| (occurs_in("/test/"@, path) && ".java"@.is_suffix_of(path))
}

/// The name of a test directory at the root.
pub open spec fn is_test_directory(path: Seq<char>) -> bool {
    path == "tests"@ || path == "test"@ || path == "__tests__"@ || path == "spec"@
}

/// The tree holds a test directory at its root.
pub open spec fn test_directory_present(tree: Seq<TreeEntryView>) -> bool {
    exists|i: int| 0 <= i < tree.len() && is_test_directory((#[trigger] tree[i]).path)
}

/// The test for a file that reads like a test file.
pub open spec fn is_test_blob() -> spec_fn(TreeEntryView) -> bool {
    |entry: TreeEntryView| is_blob(entry) && is_test_path(entry.path)
}

/// The number of files that read like test files.
pub open spec fn test_file_count(tree: Seq<TreeEntryView>) -> nat {
    tree.filter(is_test_blob()).len()
}

/// A path that configures one of the integration services this analyzer
/// looks for.
pub open spec fn is_ci_path(path: Seq<char>) -> bool {
    ||| ".github/workflows/"@.is_prefix_of(path)
    ||| path == ".circleci/config.yml"@
    ||| path == ".travis.yml"@
}

/// The tree configures continuous integration.
pub open spec fn ci_present(tree: Seq<TreeEntryView>) -> bool {
    exists|i: int| 0 <= i < tree.len() && is_ci_path((#[trigger] tree[i]).path)
}

/// The README speaks of coverage next to a badge.
pub open spec fn coverage_badge_present(readme: Option<Seq<char>>) -> bool {
    match readme {
        Some(text) => occurs_in("coverage"@, text) && (occurs_in("badge"@, text) || occurs_in(
            "shields.io"@,
            text,
        )),
        None => false,
    }
}

/// The tests score: 40 for a test directory, 20 for five test files and 10
/// more for ten, 20 for continuous integration, 10 for a coverage badge.
pub open spec fn tests_score(data: RepoDataView) -> nat {
    let files = test_file_count(data.tree);
    (if test_directory_present(data.tree) {
        4_000nat
    } else {
        0
    }) + (if files >= 10 {
        3_000nat
    } else if files >= 5 {
        2_000
    } else {
        0
    }) + (if ci_present(data.tree) {
        2_000nat
    } else {
        0
    }) + (if coverage_badge_present(data.readme_content) {
        1_000nat
    } else {
        0
    })
}

/// The findings on the number of test files.
pub open spec fn test_file_findings(files: nat) -> Seq<FindingView> {
    if files >= 10 {
        seq![
            positive("Found "@ + decimal_digits(files) + " test files"@),
            positive("Extensive test coverage (10+ test files)"@),
        ]
    } else if files >= 5 {
        seq![positive("Found "@ + decimal_digits(files) + " test files"@)]
    } else if files > 0 {
        seq![warning("Only "@ + decimal_digits(files) + " test files found"@)]
    } else {
        seq![missing("No test files detected"@)]
    }
}

/// The findings of the tests analyzer, in the order of its checks.
pub open spec fn tests_findings(data: RepoDataView) -> Seq<FindingView> {
    seq![
        if test_directory_present(data.tree) {
            positive("Test directory exists"@)
        } else {
            missing("No dedicated test directory found"@)
        },
    ] + test_file_findings(test_file_count(data.tree)) + (if ci_present(data.tree) {
        seq![positive("CI configured (likely includes tests)"@)]
    } else {
        Seq::empty()
    }) + (if coverage_badge_present(data.readme_content) {
        seq![positive("Coverage badge found in README"@)]
    } else {
        Seq::empty()
    })
}

/// How the number of test files is judged.
pub open spec fn coverage_tier(files: nat) -> Seq<char> {
    if files >= 10 {
        "Excellent test coverage"@
    } else if files >= 5 {
        "Good test coverage"@
    } else if files > 0 {
        "Limited test coverage"@
    } else {
        "No tests found"@
    }
}

/// The summary of the tests analyzer.
pub open spec fn tests_details(data: RepoDataView) -> Seq<char> {
    let files = test_file_count(data.tree);
    "Detected "@ + decimal_digits(files) + " test files across the repository. "@ + coverage_tier(
        files,
    )
}

/// What the tests analyzer reports on a snapshot.
pub open spec fn tests_report(data: RepoDataView) -> AnalysisResultView {
    AnalysisResultView {
        score: tests_score(data),
        details: tests_details(data),
        findings: tests_findings(data),
    }
}

/// Scores the tests of the repository.
pub struct TestsAnalyzer;

impl TestsAnalyzer {
    /// Tells whether a path reads like a test file.
    pub fn is_test_file(&self, path: &str) -> (found: bool)
        ensures
            found == is_test_path(path@),
    {
        // Rust
        if starts_with(path, "tests/") || contains(path, "_test.rs") || contains(path, "/test_") {
            return true;
        }
        // JavaScript and TypeScript
        if contains(path, ".test.") || contains(path, ".spec.") || contains(path, "__tests__") {
            return true;
        }
        // Python
        if starts_with(path, "test_") || ends_with(path, "_test.py") || contains(path, "/test/") {
            return true;
        }
        // Go
        if ends_with(path, "_test.go") {
            return true;
        }
        // Java
        if contains(path, "/test/") && ends_with(path, ".java") {
            return true;
        }
        false
    }

    /// Looks for a test directory at the root of the tree.
    pub fn has_test_directory(&self, tree: &[TreeEntry]) -> (found: bool)
        ensures
            found == test_directory_present(tree.deep_view()),
    {
        let mut i: usize = 0;
        while i < tree.len()
            invariant
                i <= tree.len(),
                forall|j: int|
                    0 <= j < i ==> !is_test_directory((#[trigger] tree.deep_view()[j]).path),
            decreases tree.len() - i,
        {
            let path = tree[i].path.as_str();
            if str_eq(path, "tests") || str_eq(path, "test") || str_eq(path, "__tests__")
                || str_eq(path, "spec") {
                assert(is_test_directory(tree.deep_view()[i as int].path));
                return true;
            }
            i = i + 1;
        }
        false
    }

    /// Counts the files that read like test files.
    pub fn count_test_files(&self, tree: &[TreeEntry]) -> (count: usize)
        ensures
            count == test_file_count(tree.deep_view()),
    {
        let mut count: usize = 0;
        let mut i: usize = 0;
        while i < tree.len()
            invariant
                i <= tree.len(),
                count <= i,
                count == tree.deep_view().take(i as int).filter(is_test_blob()).len(),
            decreases tree.len() - i,
        {
            proof {
                let before = tree.deep_view().take(i as int);
                assert(tree.deep_view().take(i as int + 1) =~= before.push(tree[i as int]@));
                before.lemma_filter_len_push(is_test_blob(), tree[i as int]@);
            }
            if str_eq(tree[i].entry_type.as_str(), "blob") && self.is_test_file(
                tree[i].path.as_str(),
            ) {
                count = count + 1;
            }
            i = i + 1;
        }
        assert(tree.deep_view().take(tree.len() as int) =~= tree.deep_view());
        count
    }

    /// Looks for the configuration of an integration service.
    pub fn has_ci(&self, tree: &[TreeEntry]) -> (found: bool)
        ensures
            found == ci_present(tree.deep_view()),
    {
        let mut i: usize = 0;
        while i < tree.len()
            invariant
                i <= tree.len(),
                forall|j: int| 0 <= j < i ==> !is_ci_path((#[trigger] tree.deep_view()[j]).path),
            decreases tree.len() - i,
        {
            let path = tree[i].path.as_str();
            if starts_with(path, ".github/workflows/") || str_eq(path, ".circleci/config.yml")
                || str_eq(path, ".travis.yml") {
                assert(is_ci_path(tree.deep_view()[i as int].path));
                return true;
            }
            i = i + 1;
        }
        false
    }

    /// Looks in the README for a mention of coverage next to a badge.
    pub fn has_coverage_badge(&self, readme: &Option<String>) -> (found: bool)
        ensures
            found == coverage_badge_present(readme.deep_view()),
    {
        match readme {
            Some(text) => contains(text.as_str(), "coverage") && (contains(text.as_str(), "badge")
                || contains(text.as_str(), "shields.io")),
            None => false,
        }
    }
}

impl Analyzer for TestsAnalyzer {
    open spec fn label(&self) -> Seq<char> {
        "Tests"@
    }

    open spec fn share(&self) -> nat {
        2_500
    }

    open spec fn report(&self, data: RepoDataView) -> AnalysisResultView {
        tests_report(data)
    }

    fn name(&self) -> (name: &str) {
        "Tests"
    }

    fn weight(&self) -> (weight: u32) {
        2_500
    }

    fn analyze(&self, data: &RepoData) -> (outcome: Result<AnalysisResult, RepoHealthError>)
        ensures
            outcome is Ok,
    {
        let mut score: u32 = 0;
        let mut findings: Vec<Finding> = Vec::new();
        let tree = data.tree.as_slice();
        assert(tree.deep_view() =~= data@.tree);

        if self.has_test_directory(tree) {
            score = score + 4_000;
            record(&mut findings, Finding::positive("Test directory exists"));
        } else {
            record(&mut findings, Finding::missing("No dedicated test directory found"));
        }
        let ghost on_directory = findings.deep_view();
        assert(on_directory =~= tests_findings(data@).take(1));

        let files = self.count_test_files(tree);
        if files >= 5 {
            score = score + 2_000;
            let message = numbered("Found ", files as u64, " test files");
            record(&mut findings, Finding::positive(message.as_str()));
            if files >= 10 {
                score = score + 1_000;
                record(&mut findings, Finding::positive("Extensive test coverage (10+ test files)"));
            }
        } else if files > 0 {
            let message = numbered("Only ", files as u64, " test files found");
            record(&mut findings, Finding::warning(message.as_str()));
        } else {
            record(&mut findings, Finding::missing("No test files detected"));
        }
        let ghost on_files = findings.deep_view();
        assert(on_files =~= on_directory + test_file_findings(files as nat));

        if self.has_ci(tree) {
            score = score + 2_000;
            record(&mut findings, Finding::positive("CI configured (likely includes tests)"));
        }
        if self.has_coverage_badge(&data.readme_content) {
            score = score + 1_000;
            record(&mut findings, Finding::positive("Coverage badge found in README"));
        }
        assert(findings.deep_view() =~= tests_findings(data@));

        let mut details = numbered("Detected ", files as u64, " test files across the repository. ");
        details.append(
            if files >= 10 {
                "Excellent test coverage"
            } else if files >= 5 {
                "Good test coverage"
            } else if files > 0 {
                "Limited test coverage"
            } else {
                "No tests found"
            },
        );

        Ok(AnalysisResult { score, details, findings })
    }
}

} // verus!

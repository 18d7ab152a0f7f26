//! Dependencies: which manifests the repository holds, and whether it is
//! still maintained.

use vstd::prelude::*;
use vstd::string::*;
use crate::analyzers::{
    missing, positive, record, warning, AnalysisResult, AnalysisResultView, Analyzer, Finding,
    FindingView,
};
use crate::error::RepoHealthError;
use crate::github::{is_blob, RepoData, RepoDataView, TreeEntry, TreeEntryView};
use crate::text::{decimal_digits, ends_with, join, joined, numbered, str_eq};

verus! {

/// The label of the manifest that a tree entry is, with its ecosystem, if it
/// is one. Only files at the root count.
pub open spec fn manifest_label(entry: TreeEntryView) -> Option<Seq<char>> {
    if !is_blob(entry) {
        None
    } else if entry.path == "Cargo.toml"@ {
        Some("Cargo.toml (Rust)"@)
    } else if entry.path == "package.json"@ {
        Some("package.json (Node.js)"@)
    } else if entry.path == "requirements.txt"@ {
        Some("requirements.txt (Python)"@)
    } else if entry.path == "Pipfile"@ {
        Some("Pipfile (Python)"@)
    } else if entry.path == "pyproject.toml"@ {
        Some("pyproject.toml (Python)"@)
    } else if entry.path == "go.mod"@ {
        Some("go.mod (Go)"@)
    } else if entry.path == "pom.xml"@ {
        Some("pom.xml (Java/Maven)"@)
    } else if entry.path == "build.gradle"@ || entry.path == "build.gradle.kts"@ {
        Some("Gradle (Java)"@)
    } else if entry.path == "Gemfile"@ {
        Some("Gemfile (Ruby)"@)
    } else {
        None
    }
}

/// The labels of the manifests in a tree, in the order of the tree.
pub open spec fn manifest_labels(tree: Seq<TreeEntryView>) -> Seq<Seq<char>>
    decreases tree.len(),
{
    if tree.len() == 0 {
        Seq::empty()
    } else {
        match manifest_label(tree.last()) {
            Some(label) => manifest_labels(tree.drop_last()).push(label),
            None => manifest_labels(tree.drop_last()),
        }
    }
}

/// A path with the extension of a source file.
pub open spec fn is_code_path(path: Seq<char>) -> bool {
    ||| ".rs"@.is_suffix_of(path)
    ||| ".js"@.is_suffix_of(path)
    ||| ".ts"@.is_suffix_of(path)
    ||| ".py"@.is_suffix_of(path)
    ||| ".go"@.is_suffix_of(path)
    ||| ".java"@.is_suffix_of(path)
}

/// The test for a source file.
pub open spec fn is_code_file() -> spec_fn(TreeEntryView) -> bool {
    |entry: TreeEntryView| is_blob(entry) && is_code_path(entry.path)
}

/// The number of source files in a tree.
pub open spec fn code_file_count(tree: Seq<TreeEntryView>) -> nat {
    tree.filter(is_code_file()).len()
}

/// A rough number of dependencies, from the size of the project: none
/// without a manifest, else 5 below 50 source files, 15 below 200, and 30.
pub open spec fn dependency_estimate(tree: Seq<TreeEntryView>) -> nat {
    if manifest_labels(tree).len() == 0 {
        0
    } else if code_file_count(tree) < 50 {
        5
    } else if code_file_count(tree) < 200 {
        15
    } else {
        30
    }
}

/// The repository is flagged as archived.
pub open spec fn is_archived(data: RepoDataView) -> bool {
    data.archived == Some(true)
}

/// The dependencies score: nothing without a manifest; else 20, 20 more for
/// an estimate above zero, and 40 for a repository that is not archived.
pub open spec fn dependencies_score(data: RepoDataView) -> nat {
    if manifest_labels(data.tree).len() == 0 {
        0
    } else {
        2_000 + (if dependency_estimate(data.tree) > 0 {
            2_000nat
        } else {
            0
        }) + (if is_archived(data) {
            0nat
        } else {
            4_000
        })
    }
}

/// The findings of the dependencies analyzer.
pub open spec fn dependencies_findings(data: RepoDataView) -> Seq<FindingView> {
    let labels = manifest_labels(data.tree);
    let estimate = dependency_estimate(data.tree);
    if labels.len() == 0 {
        seq![missing("No dependency files detected"@)]
    } else {
        seq![positive("Dependency management: "@ + joined(labels, ", "@))] + (if estimate > 0 {
            seq![positive("Estimated ~"@ + decimal_digits(estimate) + " dependencies"@)]
        } else {
            Seq::empty()
        }) + seq![
            if is_archived(data) {
                warning("Repository is archived - dependencies may be outdated"@)
            } else {
                positive("Repository is actively maintained"@)
            },
        ]
    }
}

/// The summary of the dependencies analyzer.
pub open spec fn dependencies_details(data: RepoDataView) -> Seq<char> {
    let labels = manifest_labels(data.tree);
    if labels.len() == 0 {
        "No dependency management detected"@
    } else {
        "Found "@ + decimal_digits(labels.len()) + " dependency file(s)"@
    }
}

/// What the dependencies analyzer reports on a snapshot.
pub open spec fn dependencies_report(data: RepoDataView) -> AnalysisResultView {
    AnalysisResultView {
        score: dependencies_score(data),
        details: dependencies_details(data),
        findings: dependencies_findings(data),
    }
}

/// Scores the management of dependencies.
pub struct DependenciesAnalyzer;

impl DependenciesAnalyzer {
    /// Lists the manifests at the root of the tree, each with its ecosystem.
    pub fn find_dependency_files(&self, tree: &[TreeEntry]) -> (files: Vec<String>)
        ensures
            files.deep_view() == manifest_labels(tree.deep_view()),
    {
        let mut files: Vec<String> = Vec::new();
        let mut i: usize = 0;
        assert(files.deep_view() =~= manifest_labels(tree.deep_view().take(0)));
        while i < tree.len()
            invariant
                i <= tree.len(),
                files.deep_view() == manifest_labels(tree.deep_view().take(i as int)),
            decreases tree.len() - i,
        {
            let ghost before = files.deep_view();
            let ghost seen = tree.deep_view().take(i as int + 1);
            assert(seen.drop_last() =~= tree.deep_view().take(i as int));
            assert(seen.last() == tree[i as int]@);
            let entry = &tree[i];
            i = i + 1;
            if !str_eq(entry.entry_type.as_str(), "blob") {
                continue ;
            }
            let path = entry.path.as_str();
            if str_eq(path, "Cargo.toml") {
                files.push(String::from_str("Cargo.toml (Rust)"));
            } else if str_eq(path, "package.json") {
                files.push(String::from_str("package.json (Node.js)"));
            } else if str_eq(path, "requirements.txt") {
                files.push(String::from_str("requirements.txt (Python)"));
            } else if str_eq(path, "Pipfile") {
                files.push(String::from_str("Pipfile (Python)"));
            } else if str_eq(path, "pyproject.toml") {
                files.push(String::from_str("pyproject.toml (Python)"));
            } else if str_eq(path, "go.mod") {
                files.push(String::from_str("go.mod (Go)"));
            } else if str_eq(path, "pom.xml") {
                files.push(String::from_str("pom.xml (Java/Maven)"));
            } else if str_eq(path, "build.gradle") || str_eq(path, "build.gradle.kts") {
                files.push(String::from_str("Gradle (Java)"));
            } else if str_eq(path, "Gemfile") {
                files.push(String::from_str("Gemfile (Ruby)"));
            } else {
                continue ;
            }
            assert(files.deep_view() =~= before.push(manifest_label(seen.last())->0));
        }
        assert(tree.deep_view().take(tree.len() as int) =~= tree.deep_view());
        files
    }

    /// Counts the source files in the tree.
    pub fn count_code_files(&self, tree: &[TreeEntry]) -> (count: usize)
        ensures
            count == code_file_count(tree.deep_view()),
    {
        let mut count: usize = 0;
        let mut i: usize = 0;
        while i < tree.len()
            invariant
                i <= tree.len(),
                count <= i,
                count == tree.deep_view().take(i as int).filter(is_code_file()).len(),
            decreases tree.len() - i,
        {
            proof {
                let before = tree.deep_view().take(i as int);
                assert(tree.deep_view().take(i as int + 1) =~= before.push(tree[i as int]@));
                before.lemma_filter_len_push(is_code_file(), tree[i as int]@);
            }
            let path = tree[i].path.as_str();
            if str_eq(tree[i].entry_type.as_str(), "blob") && (ends_with(path, ".rs") || ends_with(
                path,
                ".js",
            ) || ends_with(path, ".ts") || ends_with(path, ".py") || ends_with(path, ".go")
                || ends_with(path, ".java")) {
                count = count + 1;
            }
            i = i + 1;
        }
        assert(tree.deep_view().take(tree.len() as int) =~= tree.deep_view());
        count
    }

    /// Estimates the number of dependencies from the size of the project.
    pub fn estimate_dependency_count(&self, tree: &[TreeEntry]) -> (estimate: usize)
        ensures
            estimate == dependency_estimate(tree.deep_view()),
    {
        let files = self.find_dependency_files(tree);
        if files.len() == 0 {
            return 0;
        }
        let code_files = self.count_code_files(tree);
        if code_files < 50 {
            5
        } else if code_files < 200 {
            15
        } else {
            30
        }
    }
}

impl Analyzer for DependenciesAnalyzer {
    open spec fn label(&self) -> Seq<char> {
        "Dependencies"@
    }

    open spec fn share(&self) -> nat {
        2_000
    }

    open spec fn report(&self, data: RepoDataView) -> AnalysisResultView {
        dependencies_report(data)
    }

    fn name(&self) -> (name: &str) {
        "Dependencies"
    }

    fn weight(&self) -> (weight: u32) {
        2_000
    }

    fn analyze(&self, data: &RepoData) -> (outcome: Result<AnalysisResult, RepoHealthError>)
        ensures
            outcome is Ok,
    {
        let mut score: u32 = 0;
        let mut findings: Vec<Finding> = Vec::new();

        let tree = data.tree.as_slice();
        assert(tree.deep_view() =~= data@.tree);
        let files = self.find_dependency_files(tree);

        if files.len() == 0 {
            record(&mut findings, Finding::missing("No dependency files detected"));
            assert(findings.deep_view() =~= dependencies_findings(data@));
            return Ok(
                AnalysisResult {
                    score,
                    details: String::from_str("No dependency management detected"),
                    findings,
                },
            );
        }
        score = score + 2_000;
        let listing = String::from_str("Dependency management: ").concat(
            join(&files, ", ").as_str(),
        );
        record(&mut findings, Finding::positive(listing.as_str()));

        let estimate = self.estimate_dependency_count(tree);
        if estimate > 0 {
            score = score + 2_000;
            let message = numbered("Estimated ~", estimate as u64, " dependencies");
            record(&mut findings, Finding::positive(message.as_str()));
        }

        let archived = match data.repository.archived {
            Some(flag) => flag,
            None => false,
        };
        if !archived {
            score = score + 4_000;
            record(&mut findings, Finding::positive("Repository is actively maintained"));
        } else {
            record(
                &mut findings,
                Finding::warning("Repository is archived - dependencies may be outdated"),
            );
        }
        assert(findings.deep_view() =~= dependencies_findings(data@));

        let details = numbered("Found ", files.len() as u64, " dependency file(s)");
        Ok(AnalysisResult { score, details, findings })
    }
}

} // verus!

//! Documentation: a README and its quality, a documentation directory, a
//! license and a contributing guide.

use vstd::prelude::*;
use vstd::string::*;
use crate::analyzers::{
    count_positive, missing, positive, positive_count, record, warning, AnalysisResult,
    AnalysisResultView, Analyzer, Finding, FindingView,
};
use crate::error::RepoHealthError;
use crate::github::{RepoData, RepoDataView, TreeEntry, TreeEntryView};
use crate::text::{
    contains, decimal, decimal_digits, eq_ignore_ascii_case, occurs_in, same_ignoring_ascii_case,
    starts_with,
};

verus! {

/// A path that lies in a documentation directory, at any depth: below a
/// directory named `docs` or `documentation` at the root or further down.
pub open spec fn is_docs_path(path: Seq<char>) -> bool {
    ||| "docs/"@.is_prefix_of(path)
    ||| "documentation/"@.is_prefix_of(path)
    ||| occurs_in("/docs/"@, path)
    ||| occurs_in("/documentation/"@, path)
}

/// The tree holds something that lies in a documentation directory.
pub open spec fn docs_directory_present(tree: Seq<TreeEntryView>) -> bool {
    exists|i: int| 0 <= i < tree.len() && is_docs_path((#[trigger] tree[i]).path)
}

/// The path of a contributing guide, in any case of its letters.
pub open spec fn is_contributing_guide(path: Seq<char>) -> bool {
    same_ignoring_ascii_case(path, "CONTRIBUTING.md"@)
}

/// The tree holds a contributing guide.
pub open spec fn contributing_guide_present(tree: Seq<TreeEntryView>) -> bool {
    exists|i: int| 0 <= i < tree.len() && is_contributing_guide((#[trigger] tree[i]).path)
}

/// A README of more than 500 characters.
pub open spec fn readme_is_substantial(readme: Seq<char>) -> bool {
    readme.len() > 500
}

/// A README with a markdown sub-heading.
pub open spec fn readme_has_sections(readme: Seq<char>) -> bool {
    occurs_in("##"@, readme)
}

/// The points for the README: 40 for its presence, 10 for its length and 10
/// for its sections.
pub open spec fn readme_score(readme: Option<Seq<char>>) -> nat {
    match readme {
        Some(text) => 4_000 + (if readme_is_substantial(text) {
            1_000nat
        } else {
            0
        }) + (if readme_has_sections(text) {
            1_000nat
        } else {
            0
        }),
        None => 0,
    }
}

/// The documentation score: the README's points, 20 for a documentation
/// directory, 10 for a license and 10 for a contributing guide.
pub open spec fn documentation_score(data: RepoDataView) -> nat {
    readme_score(data.readme_content) + (if docs_directory_present(data.tree) {
        2_000nat
    } else {
        0
    }) + (if data.has_license {
        1_000nat
    } else {
        0
    }) + (if contributing_guide_present(data.tree) {
        1_000nat
    } else {
        0
    })
}

/// The findings on the README.
pub open spec fn readme_findings(readme: Option<Seq<char>>) -> Seq<FindingView> {
    match readme {
        Some(text) => seq![
            positive("README.md exists"@),
            if readme_is_substantial(text) {
                positive("README has substantial content (>500 chars)"@)
            } else {
                warning("README is quite short (<500 chars)"@)
            },
            if readme_has_sections(text) {
                positive("README has sections"@)
            } else {
                warning("README lacks structured sections"@)
            },
        ],
        None => seq![missing("README.md not found"@)],
    }
}

/// The findings of the documentation analyzer, one for each check, in the
/// order of the checks.
pub open spec fn documentation_findings(data: RepoDataView) -> Seq<FindingView> {
    readme_findings(data.readme_content).push(
        if docs_directory_present(data.tree) {
            positive("Documentation directory exists"@)
        } else {
            missing("No dedicated documentation directory"@)
        },
    ).push(
        if data.has_license {
            positive("LICENSE file exists"@)
        } else {
            missing("LICENSE file not found"@)
        },
    ).push(
        if contributing_guide_present(data.tree) {
            positive("CONTRIBUTING.md exists"@)
        } else {
            missing("CONTRIBUTING.md not found"@)
        },
    )
}

/// The summary of the documentation analyzer.
pub open spec fn documentation_details(data: RepoDataView) -> Seq<char> {
    "Found "@ + decimal_digits(positive_count(documentation_findings(data)))
        + " documentation elements. README quality: "@ + (if data.readme_content is Some {
        "Present"@
    } else {
        "Missing"@
    }) + "."@
}

/// What the documentation analyzer reports on a snapshot.
pub open spec fn documentation_report(data: RepoDataView) -> AnalysisResultView {
    AnalysisResultView {
        score: documentation_score(data),
        details: documentation_details(data),
        findings: documentation_findings(data),
    }
}

/// Scores the documentation of the repository.
pub struct DocumentationAnalyzer;

impl DocumentationAnalyzer {
    /// Looks for an entry that lies in a documentation directory, at any
    /// depth of the tree.
    pub fn has_docs_directory(&self, tree: &[TreeEntry]) -> (found: bool)
        ensures
            found == docs_directory_present(tree.deep_view()),
    {
        let mut i: usize = 0;
        while i < tree.len()
            invariant
                i <= tree.len(),
                forall|j: int| 0 <= j < i ==> !is_docs_path((#[trigger] tree.deep_view()[j]).path),
            decreases tree.len() - i,
        {
            let path = tree[i].path.as_str();
            if starts_with(path, "docs/") || starts_with(path, "documentation/") || contains(
                path,
                "/docs/",
            ) || contains(path, "/documentation/") {
                assert(is_docs_path(tree.deep_view()[i as int].path));
                return true;
            }
            i = i + 1;
        }
        false
    }

    /// Looks for a contributing guide.
    pub fn has_contributing_guide(&self, tree: &[TreeEntry]) -> (found: bool)
        ensures
            found == contributing_guide_present(tree.deep_view()),
    {
        let mut i: usize = 0;
        while i < tree.len()
            invariant
                i <= tree.len(),
                forall|j: int|
                    0 <= j < i ==> !is_contributing_guide((#[trigger] tree.deep_view()[j]).path),
            decreases tree.len() - i,
        {
            if eq_ignore_ascii_case(tree[i].path.as_str(), "CONTRIBUTING.md") {
                assert(is_contributing_guide(tree.deep_view()[i as int].path));
                return true;
            }
            i = i + 1;
        }
        false
    }
}

impl Analyzer for DocumentationAnalyzer {
    open spec fn label(&self) -> Seq<char> {
        "Documentation"@
    }

    open spec fn share(&self) -> nat {
        2_000
    }

    open spec fn report(&self, data: RepoDataView) -> AnalysisResultView {
        documentation_report(data)
    }

    fn name(&self) -> (name: &str) {
        "Documentation"
    }

    fn weight(&self) -> (weight: u32) {
        2_000
    }

    fn analyze(&self, data: &RepoData) -> (outcome: Result<AnalysisResult, RepoHealthError>)
        ensures
            outcome is Ok,
    {
        let mut score: u32 = 0;
        let mut findings: Vec<Finding> = Vec::new();
        let tree = data.tree.as_slice();
        assert(tree.deep_view() =~= data@.tree);
        assert(findings.deep_view() =~= Seq::empty());

        match &data.readme_content {
            Some(readme) => {
                score = score + 4_000;
                record(&mut findings, Finding::positive("README.md exists"));
                if readme.as_str().unicode_len() > 500 {
                    score = score + 1_000;
                    record(
                        &mut findings,
                        Finding::positive("README has substantial content (>500 chars)"),
                    );
                } else {
                    record(&mut findings, Finding::warning("README is quite short (<500 chars)"));
                }
                if contains(readme.as_str(), "##") {
                    score = score + 1_000;
                    record(&mut findings, Finding::positive("README has sections"));
                } else {
                    record(&mut findings, Finding::warning("README lacks structured sections"));
                }
            },
            None => {
                record(&mut findings, Finding::missing("README.md not found"));
            },
        }
        assert(findings.deep_view() =~= readme_findings(data@.readme_content));
        assert(score == readme_score(data@.readme_content));

        if self.has_docs_directory(tree) {
            score = score + 2_000;
            record(&mut findings, Finding::positive("Documentation directory exists"));
        } else {
            record(&mut findings, Finding::missing("No dedicated documentation directory"));
        }

        if data.has_license {
            score = score + 1_000;
            record(&mut findings, Finding::positive("LICENSE file exists"));
        } else {
            record(&mut findings, Finding::missing("LICENSE file not found"));
        }

        if self.has_contributing_guide(tree) {
            score = score + 1_000;
            record(&mut findings, Finding::positive("CONTRIBUTING.md exists"));
        } else {
            record(&mut findings, Finding::missing("CONTRIBUTING.md not found"));
        }
        assert(findings.deep_view() == documentation_findings(data@));

        let elements = count_positive(&findings);
        let mut details = String::from_str("Found ");
        details.append(decimal(elements as u64).as_str());
        details.append(" documentation elements. README quality: ");
        details.append(
            if data.readme_content.is_some() {
                "Present"
            } else {
                "Missing"
            },
        );
        details.append(".");
        assert(details@ =~= documentation_details(data@));

        Ok(AnalysisResult { score, details, findings })
    }
}

} // verus!

//! Continuous integration: which services the repository configures.

use vstd::prelude::*;
use vstd::string::*;
use crate::analyzers::{
    missing, positive, record, AnalysisResult, AnalysisResultView, Analyzer, Finding, FindingView,
};
use crate::error::RepoHealthError;
use crate::github::{is_blob, RepoData, RepoDataView, TreeEntry, TreeEntryView};
use crate::text::{
    contains, decimal_digits, ends_with, numbered, occurs_at, occurs_in, starts_with, str_eq,
};

verus! {

/// The path of a GitHub Actions workflow.
pub open spec fn is_workflow_path(path: Seq<char>) -> bool {
    ".github/workflows/"@.is_prefix_of(path) && ".yml"@.is_suffix_of(path)
}

/// The label of the integration service that a tree entry configures, if
/// it configures one. Only files count.
pub open spec fn ci_label(entry: TreeEntryView) -> Option<Seq<char>> {
    if !is_blob(entry) {
        None
    } else if is_workflow_path(entry.path) {
        Some("GitHub Actions: "@ + entry.path)
    } else if entry.path == ".circleci/config.yml"@ {
        Some("CircleCI"@)
    } else if entry.path == ".travis.yml"@ {
        Some("Travis CI"@)
    } else if entry.path == "Jenkinsfile"@ {
        Some("Jenkins"@)
    } else if entry.path == ".gitlab-ci.yml"@ {
        Some("GitLab CI"@)
    } else if entry.path == "azure-pipelines.yml"@ {
        Some("Azure Pipelines"@)
    } else {
        None
    }
}

/// The labels of the configurations in a tree, in the order of the tree.
pub open spec fn ci_labels(tree: Seq<TreeEntryView>) -> Seq<Seq<char>>
    decreases tree.len(),
{
    if tree.len() == 0 {
        Seq::empty()
    } else {
        match ci_label(tree.last()) {
            Some(label) => ci_labels(tree.drop_last()).push(label),
            None => ci_labels(tree.drop_last()),
        }
    }
}

/// The test for a label that names GitHub Actions.
pub open spec fn names_actions() -> spec_fn(Seq<char>) -> bool {
    |label: Seq<char>| occurs_in("GitHub Actions"@, label)
}

/// The test for a label of another service.
pub open spec fn names_other() -> spec_fn(Seq<char>) -> bool {
    |label: Seq<char>| !occurs_in("GitHub Actions"@, label)
}

/// The finding on a configuration where GitHub Actions is not in use.
pub open spec fn configured() -> spec_fn(Seq<char>) -> FindingView {
    |label: Seq<char>| positive("CI configured: "@ + label)
}

/// The finding on a configuration beside GitHub Actions.
pub open spec fn additional() -> spec_fn(Seq<char>) -> FindingView {
    |label: Seq<char>| positive("Additional CI: "@ + label)
}

/// The score for a list of configurations: nothing for none; else 20, and 50
/// for GitHub Actions with 15 more for several workflows, or 40 where only
/// other services are in use.
pub open spec fn ci_score(labels: Seq<Seq<char>>) -> nat {
    let workflows = labels.filter(names_actions()).len();
    let others = labels.filter(names_other()).len();
    if labels.len() == 0 {
        0
    } else {
        (if workflows > 1 {
            6_500nat
        } else if workflows > 0 {
            5_000
        } else if others > 0 {
            4_000
        } else {
            0
        }) + 2_000
    }
}

/// The findings for a list of configurations.
pub open spec fn ci_findings(labels: Seq<Seq<char>>) -> Seq<FindingView> {
    let workflows = labels.filter(names_actions()).len();
    let others = labels.filter(names_other());
    if labels.len() == 0 {
        seq![missing("No CI/CD configuration detected"@)]
    } else {
        (if workflows > 1 {
            seq![
                positive("GitHub Actions configured"@),
                positive("Multiple workflows configured ("@ + decimal_digits(workflows) + ")"@),
            ]
        } else if workflows > 0 {
            seq![positive("GitHub Actions configured"@)]
        } else {
            Seq::empty()
        }) + (if others.len() > 0 && workflows == 0 {
            labels.map_values(configured())
        } else {
            others.map_values(additional())
        }) + seq![positive("CI/CD pipeline established"@)]
    }
}

/// The summary for a list of configurations.
pub open spec fn ci_details(labels: Seq<Seq<char>>) -> Seq<char> {
    if labels.len() == 0 {
        "No CI/CD pipelines detected"@
    } else {
        "Found "@ + decimal_digits(labels.len()) + " CI/CD configuration(s)"@
    }
}

/// What the integration analyzer reports on a snapshot.
pub open spec fn ci_report(data: RepoDataView) -> AnalysisResultView {
    let labels = ci_labels(data.tree);
    AnalysisResultView {
        score: ci_score(labels),
        details: ci_details(labels),
        findings: ci_findings(labels),
    }
}

/// The test for a file that is a GitHub Actions workflow.
pub open spec fn is_workflow() -> spec_fn(TreeEntryView) -> bool {
    |entry: TreeEntryView| is_blob(entry) && is_workflow_path(entry.path)
}

/// A label without the letter that `GitHub Actions` begins with, wherever the
/// name would fit into it, does not name GitHub Actions.
proof fn lemma_names_other(label: Seq<char>)
    requires
        forall|at: int| 0 <= at && at + 14 <= label.len() ==> label[at] != 'G',
    ensures
        names_other()(label),
{
    reveal_strlit("GitHub Actions");
    let name = "GitHub Actions"@;
    assert forall|at: int| !occurs_at(name, label, at) by {
        if occurs_at(name, label, at) {
            assert(label.subrange(at, at + 14)[0] == name[0]);
        }
    }
}

/// The label of a configuration names GitHub Actions exactly when the
/// configuration is a workflow file.
pub proof fn lemma_label_names_actions_of_workflows(entry: TreeEntryView)
    requires
        ci_label(entry) is Some,
    ensures
        names_actions()(ci_label(entry)->0) == is_workflow()(entry),
        names_other()(ci_label(entry)->0) == !is_workflow()(entry),
{
    let label = ci_label(entry)->0;
    if is_workflow_path(entry.path) {
        reveal_strlit("GitHub Actions");
        reveal_strlit("GitHub Actions: ");
        assert(label.subrange(0, 14) =~= "GitHub Actions"@);
        assert(occurs_at("GitHub Actions"@, label, 0));
    } else {
        reveal_strlit("CircleCI");
        reveal_strlit("Travis CI");
        reveal_strlit("Jenkins");
        reveal_strlit("GitLab CI");
        reveal_strlit("Azure Pipelines");
        lemma_names_other(label);
    }
}

/// Among the labels of a tree, those that name GitHub Actions are as many as
/// the tree has workflow files, and the others are the rest.
pub proof fn lemma_actions_labels_count_workflows(tree: Seq<TreeEntryView>)
    ensures
        ci_labels(tree).filter(names_actions()).len() == tree.filter(is_workflow()).len(),
        ci_labels(tree).filter(names_other()).len() + tree.filter(is_workflow()).len()
            == ci_labels(tree).len(),
    decreases tree.len(),
{
    if tree.len() == 0 {
        ci_labels(tree).lemma_filter_len(names_actions());
        ci_labels(tree).lemma_filter_len(names_other());
        tree.lemma_filter_len(is_workflow());
    } else {
        let rest = tree.drop_last();
        let entry = tree.last();
        lemma_actions_labels_count_workflows(rest);
        assert(tree =~= rest.push(entry));
        rest.lemma_filter_len_push(is_workflow(), entry);
        if ci_label(entry) is Some {
            let label = ci_label(entry)->0;
            lemma_label_names_actions_of_workflows(entry);
            ci_labels(rest).lemma_filter_len_push(names_actions(), label);
            ci_labels(rest).lemma_filter_len_push(names_other(), label);
        }
    }
}

/// Scores the configuration of continuous integration.
pub struct CiCdAnalyzer;

impl CiCdAnalyzer {
    /// Lists the integration services that the tree configures, one label
    /// for each configuration file.
    pub fn detect_ci_configs(&self, tree: &[TreeEntry]) -> (configs: Vec<String>)
        ensures
            configs.deep_view() == ci_labels(tree.deep_view()),
    {
        let mut configs: Vec<String> = Vec::new();
        let mut i: usize = 0;
        assert(configs.deep_view() =~= ci_labels(tree.deep_view().take(0)));
        while i < tree.len()
            invariant
                i <= tree.len(),
                configs.deep_view() == ci_labels(tree.deep_view().take(i as int)),
            decreases tree.len() - i,
        {
            let ghost before = configs.deep_view();
            let ghost seen = tree.deep_view().take(i as int + 1);
            assert(seen.drop_last() =~= tree.deep_view().take(i as int));
            assert(seen.last() == tree[i as int]@);
            let entry = &tree[i];
            i = i + 1;
            if !str_eq(entry.entry_type.as_str(), "blob") {
                continue ;
            }
            let path = entry.path.as_str();
            if starts_with(path, ".github/workflows/") && ends_with(path, ".yml") {
                configs.push(String::from_str("GitHub Actions: ").concat(path));
            } else if str_eq(path, ".circleci/config.yml") {
                configs.push(String::from_str("CircleCI"));
            } else if str_eq(path, ".travis.yml") {
                configs.push(String::from_str("Travis CI"));
            } else if str_eq(path, "Jenkinsfile") {
                configs.push(String::from_str("Jenkins"));
            } else if str_eq(path, ".gitlab-ci.yml") {
                configs.push(String::from_str("GitLab CI"));
            } else if str_eq(path, "azure-pipelines.yml") {
                configs.push(String::from_str("Azure Pipelines"));
            } else {
                continue ;
            }
            assert(configs.deep_view() =~= before.push(ci_label(seen.last())->0));
        }
        assert(tree.deep_view().take(tree.len() as int) =~= tree.deep_view());
        configs
    }

    /// Counts the labels that name GitHub Actions, and the others.
    pub fn count_services(&self, configs: &Vec<String>) -> (counts: (usize, usize))
        ensures
            counts.0 == configs.deep_view().filter(names_actions()).len(),
            counts.1 == configs.deep_view().filter(names_other()).len(),
    {
        let mut workflows: usize = 0;
        let mut others: usize = 0;
        let mut i: usize = 0;
        while i < configs.len()
            invariant
                i <= configs.len(),
                workflows + others == i,
                workflows == configs.deep_view().take(i as int).filter(names_actions()).len(),
                others == configs.deep_view().take(i as int).filter(names_other()).len(),
            decreases configs.len() - i,
        {
            proof {
                let before = configs.deep_view().take(i as int);
                assert(configs.deep_view().take(i as int + 1) =~= before.push(configs[i as int]@));
                before.lemma_filter_len_push(names_actions(), configs[i as int]@);
                before.lemma_filter_len_push(names_other(), configs[i as int]@);
            }
            if contains(configs[i].as_str(), "GitHub Actions") {
                workflows = workflows + 1;
            } else {
                others = others + 1;
            }
            i = i + 1;
        }
        assert(configs.deep_view().take(configs.len() as int) =~= configs.deep_view());
        (workflows, others)
    }
}

impl Analyzer for CiCdAnalyzer {
    open spec fn label(&self) -> Seq<char> {
        "CI/CD"@
    }

    open spec fn share(&self) -> nat {
        2_000
    }

    open spec fn report(&self, data: RepoDataView) -> AnalysisResultView {
        ci_report(data)
    }

    fn name(&self) -> (name: &str) {
        "CI/CD"
    }

    fn weight(&self) -> (weight: u32) {
        2_000
    }

    fn analyze(&self, data: &RepoData) -> (outcome: Result<AnalysisResult, RepoHealthError>)
        ensures
            outcome is Ok,
    {
        let mut score: u32 = 0;
        let mut findings: Vec<Finding> = Vec::new();

        let tree = data.tree.as_slice();
        assert(tree.deep_view() =~= data@.tree);
        let configs = self.detect_ci_configs(tree);
        let ghost labels = configs.deep_view();

        if configs.len() == 0 {
            record(&mut findings, Finding::missing("No CI/CD configuration detected"));
            assert(findings.deep_view() =~= ci_findings(labels));
            return Ok(
                AnalysisResult {
                    score,
                    details: String::from_str("No CI/CD pipelines detected"),
                    findings,
                },
            );
        }
        let (workflows, others) = self.count_services(&configs);
        let has_actions = workflows > 0;
        let other_ci = others > 0;
        if has_actions {
            score = score + 5_000;
            record(&mut findings, Finding::positive("GitHub Actions configured"));
            if workflows > 1 {
                score = score + 1_500;
                let message = numbered("Multiple workflows configured (", workflows as u64, ")");
                record(&mut findings, Finding::positive(message.as_str()));
            }
        }
        let ghost base = findings.deep_view();

        if other_ci && !has_actions {
            score = score + 4_000;
            let mut i: usize = 0;
            while i < configs.len()
                invariant
                    i <= configs.len(),
                    labels == configs.deep_view(),
                    findings.deep_view() == base + labels.take(i as int).map_values(configured()),
                decreases configs.len() - i,
            {
                let message = String::from_str("CI configured: ").concat(configs[i].as_str());
                record(&mut findings, Finding::positive(message.as_str()));
                assert(findings.deep_view() =~= base + labels.take(i as int + 1).map_values(
                    configured(),
                ));
                i = i + 1;
            }
            assert(labels.take(configs.len() as int) =~= labels);
        } else {
            let mut i: usize = 0;
            assert(labels.take(0).filter(names_other()) =~= Seq::empty()) by {
                labels.take(0).lemma_filter_len(names_other());
            }
            while i < configs.len()
                invariant
                    i <= configs.len(),
                    labels == configs.deep_view(),
                    findings.deep_view() == base + labels.take(i as int).filter(
                        names_other(),
                    ).map_values(additional()),
                decreases configs.len() - i,
            {
                let ghost before = labels.take(i as int);
                proof {
                    assert(labels.take(i as int + 1) =~= before.push(labels[i as int]));
                    before.lemma_filter_push(labels[i as int], names_other());
                }
                if !contains(configs[i].as_str(), "GitHub Actions") {
                    let message = String::from_str("Additional CI: ").concat(configs[i].as_str());
                    record(&mut findings, Finding::positive(message.as_str()));
                    assert(findings.deep_view() =~= base + labels.take(i as int + 1).filter(
                        names_other(),
                    ).map_values(additional()));
                }
                i = i + 1;
            }
            assert(labels.take(configs.len() as int) =~= labels);
        }

        score = score + 2_000;
        record(&mut findings, Finding::positive("CI/CD pipeline established"));
        assert(findings.deep_view() =~= ci_findings(labels));

        let details = numbered("Found ", configs.len() as u64, " CI/CD configuration(s)");
        Ok(AnalysisResult { score, details, findings })
    }
}

} // verus!

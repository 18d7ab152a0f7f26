use repo_health::analyzers::{
    AnalysisResult, Analyzer, CiCdAnalyzer, DependenciesAnalyzer, DocumentationAnalyzer, Finding,
    FindingStatus, TestsAnalyzer,
};
use repo_health::github::{RepoData, RepoMetadata, TreeEntry};

fn blob(path: &str) -> TreeEntry {
    TreeEntry { path: path.to_string(), entry_type: "blob".to_string() }
}

fn dir(path: &str) -> TreeEntry {
    TreeEntry { path: path.to_string(), entry_type: "tree".to_string() }
}

fn blobs(paths: &[&str]) -> Vec<TreeEntry> {
    paths.iter().map(|p| blob(p)).collect()
}

fn numbered_blobs(count: usize, prefix: &str, suffix: &str) -> Vec<TreeEntry> {
    (0..count).map(|i| blob(&format!("{}{}{}", prefix, i, suffix))).collect()
}

fn snapshot(tree: Vec<TreeEntry>) -> RepoData {
    RepoData {
        repository: RepoMetadata { archived: None, default_branch: None },
        tree,
        contributors: vec![],
        readme_content: None,
        has_license: false,
    }
}

fn findings(result: &AnalysisResult) -> Vec<(FindingStatus, &str)> {
    result.findings.iter().map(|f| (f.status, f.message.as_str())).collect()
}

// Findings

#[test]
fn findings_carry_their_status_and_message() {
    let finding = Finding::positive("good");
    assert_eq!((finding.status, finding.message.as_str()), (FindingStatus::Positive, "good"));
    let finding = Finding::warning("careful");
    assert_eq!((finding.status, finding.message.as_str()), (FindingStatus::Warning, "careful"));
    let finding = Finding::missing("absent");
    assert_eq!((finding.status, finding.message.as_str()), (FindingStatus::Missing, "absent"));
}

// Documentation

#[test]
fn documentation_of_an_empty_snapshot_scores_nothing() {
    let result = DocumentationAnalyzer.analyze(&snapshot(vec![])).unwrap();
    assert_eq!(result.score, 0);
    assert_eq!(result.details, "Found 0 documentation elements. README quality: Missing.");
    assert_eq!(
        findings(&result),
        vec![
            (FindingStatus::Missing, "README.md not found"),
            (FindingStatus::Missing, "No dedicated documentation directory"),
            (FindingStatus::Missing, "LICENSE file not found"),
            (FindingStatus::Missing, "CONTRIBUTING.md not found"),
        ]
    );
}

#[test]
fn documentation_with_everything_scores_in_full() {
    let mut data = snapshot(blobs(&["docs/guide.md", "contributing.MD", "src/lib.rs"]));
    data.readme_content = Some(format!("## Usage\n{}", "x".repeat(500)));
    data.has_license = true;
    let result = DocumentationAnalyzer.analyze(&data).unwrap();
    assert_eq!(result.score, 10_000);
    assert_eq!(result.details, "Found 6 documentation elements. README quality: Present.");
    assert_eq!(
        findings(&result),
        vec![
            (FindingStatus::Positive, "README.md exists"),
            (FindingStatus::Positive, "README has substantial content (>500 chars)"),
            (FindingStatus::Positive, "README has sections"),
            (FindingStatus::Positive, "Documentation directory exists"),
            (FindingStatus::Positive, "LICENSE file exists"),
            (FindingStatus::Positive, "CONTRIBUTING.md exists"),
        ]
    );
}

#[test]
fn documentation_of_a_bare_readme_scores_forty() {
    let mut data = snapshot(vec![]);
    data.readme_content = Some("# Title only".to_string());
    let result = DocumentationAnalyzer.analyze(&data).unwrap();
    assert_eq!(result.score, 4_000);
    assert_eq!(result.details, "Found 1 documentation elements. README quality: Present.");
    assert_eq!(
        findings(&result)[..3],
        [
            (FindingStatus::Positive, "README.md exists"),
            (FindingStatus::Warning, "README is quite short (<500 chars)"),
            (FindingStatus::Warning, "README lacks structured sections"),
        ]
    );
}

#[test]
fn readme_is_substantial_above_five_hundred_characters() {
    let score = |readme: String| {
        let mut data = snapshot(vec![]);
        data.readme_content = Some(readme);
        DocumentationAnalyzer.analyze(&data).unwrap().score
    };
    assert_eq!(score("x".repeat(500)), 4_000);
    assert_eq!(score("x".repeat(501)), 5_000);
    // 300 characters in 600 bytes: length is counted in characters
    assert_eq!(score("\u{e9}".repeat(300)), 4_000);
    assert_eq!(score("\u{e9}".repeat(501)), 5_000);
}

#[test]
fn readme_sections_are_marked_by_two_hashes() {
    let score = |readme: &str| {
        let mut data = snapshot(vec![]);
        data.readme_content = Some(readme.to_string());
        DocumentationAnalyzer.analyze(&data).unwrap().score
    };
    assert_eq!(score("# a # b"), 4_000);
    assert_eq!(score("intro\n## a"), 5_000);
    assert_eq!(score("##"), 5_000);
}

#[test]
fn docs_directory_is_found_at_any_depth() {
    let found = |paths: &[&str]| DocumentationAnalyzer.has_docs_directory(&blobs(paths));
    assert!(found(&["docs/index.md"]));
    assert!(found(&["src/main.rs", "documentation/api.md"]));
    assert!(found(&["src/docs/index.md"]));
    assert!(found(&["crates/core/documentation/api.md"]));
    assert!(found(&["a/b/c/docs/d/e.md"]));
    assert!(!found(&["docs"]));
    assert!(!found(&["src/docs"]));
    assert!(!found(&["mydocs/index.md"]));
    assert!(!found(&["src/mydocs/index.md"]));
    assert!(!found(&["src/docs.md"]));
    assert!(!found(&["Docs/index.md"]));
    assert!(!found(&[]));
}

#[test]
fn documentation_directory_below_the_root_scores_twenty() {
    let result = DocumentationAnalyzer.analyze(&snapshot(blobs(&["src/docs/guide.md"]))).unwrap();
    assert_eq!(result.score, 2_000);
    assert_eq!(result.details, "Found 1 documentation elements. README quality: Missing.");
    assert_eq!(
        findings(&result),
        vec![
            (FindingStatus::Missing, "README.md not found"),
            (FindingStatus::Positive, "Documentation directory exists"),
            (FindingStatus::Missing, "LICENSE file not found"),
            (FindingStatus::Missing, "CONTRIBUTING.md not found"),
        ]
    );
}

#[test]
fn contributing_guide_is_found_in_any_case() {
    let found = |paths: &[&str]| DocumentationAnalyzer.has_contributing_guide(&blobs(paths));
    assert!(found(&["CONTRIBUTING.md"]));
    assert!(found(&["README.md", "Contributing.MD"]));
    assert!(!found(&["docs/CONTRIBUTING.md"]));
    assert!(!found(&["CONTRIBUTING"]));
    assert!(!found(&["CONTRIBUTING.md2"]));
}

// Tests

#[test]
fn test_files_are_known_by_their_paths() {
    let is_test = |path: &str| TestsAnalyzer.is_test_file(path);
    assert!(is_test("tests/integration.rs"));
    assert!(is_test("src/parser_test.rs"));
    assert!(is_test("pkg/test_utils.py"));
    assert!(is_test("src/app.test.js"));
    assert!(is_test("src/app.spec.ts"));
    assert!(is_test("src/__tests__/app.js"));
    assert!(is_test("test_models.py"));
    assert!(is_test("models_test.py"));
    assert!(is_test("src/test/java/AppTest.java"));
    assert!(is_test("pkg/server_test.go"));

    assert!(!is_test("src/main.rs"));
    assert!(!is_test("README.md"));
    assert!(!is_test("src/tests.rs"));
    assert!(!is_test("latest/report.txt"));
    assert!(!is_test("contest.py"));
    assert!(!is_test(""));
}

#[test]
fn test_directory_stands_at_the_root() {
    let found = |entries: Vec<TreeEntry>| TestsAnalyzer.has_test_directory(&entries);
    assert!(found(vec![dir("tests")]));
    assert!(found(vec![dir("src"), dir("test")]));
    assert!(found(vec![dir("__tests__")]));
    assert!(found(vec![dir("spec")]));
    assert!(!found(vec![dir("src/tests")]));
    assert!(!found(vec![blob("tests/a.rs")]));
    assert!(!found(vec![]));
}

#[test]
fn test_files_are_counted_among_files_only() {
    let mut tree = numbered_blobs(3, "tests/case", ".rs");
    tree.push(dir("tests"));
    tree.push(dir("src/__tests__"));
    tree.push(blob("src/lib.rs"));
    assert_eq!(TestsAnalyzer.count_test_files(&tree), 3);
    assert_eq!(TestsAnalyzer.count_test_files(&[]), 0);
}

#[test]
fn tests_of_an_empty_snapshot_score_nothing() {
    let result = TestsAnalyzer.analyze(&snapshot(vec![])).unwrap();
    assert_eq!(result.score, 0);
    assert_eq!(result.details, "Detected 0 test files across the repository. No tests found");
    assert_eq!(
        findings(&result),
        vec![
            (FindingStatus::Missing, "No dedicated test directory found"),
            (FindingStatus::Missing, "No test files detected"),
        ]
    );
}

#[test]
fn tests_with_everything_score_in_full() {
    let mut tree = numbered_blobs(10, "tests/case", ".rs");
    tree.push(dir("tests"));
    tree.push(blob(".github/workflows/ci.yml"));
    let mut data = snapshot(tree);
    data.readme_content = Some("![coverage](https://img.shields.io/x)".to_string());
    let result = TestsAnalyzer.analyze(&data).unwrap();
    assert_eq!(result.score, 10_000);
    assert_eq!(
        result.details,
        "Detected 10 test files across the repository. Excellent test coverage"
    );
    assert_eq!(
        findings(&result),
        vec![
            (FindingStatus::Positive, "Test directory exists"),
            (FindingStatus::Positive, "Found 10 test files"),
            (FindingStatus::Positive, "Extensive test coverage (10+ test files)"),
            (FindingStatus::Positive, "CI configured (likely includes tests)"),
            (FindingStatus::Positive, "Coverage badge found in README"),
        ]
    );
}

#[test]
fn tests_score_climbs_with_the_number_of_test_files() {
    let analyze = |count: usize| {
        let result = TestsAnalyzer.analyze(&snapshot(numbered_blobs(count, "a/m", "_test.go"))).unwrap();
        (result.score, result.details, result.findings[1].status, result.findings[1].message.clone())
    };
    assert_eq!(
        analyze(1),
        (
            0,
            "Detected 1 test files across the repository. Limited test coverage".to_string(),
            FindingStatus::Warning,
            "Only 1 test files found".to_string()
        )
    );
    assert_eq!(analyze(4).0, 0);
    assert_eq!(
        analyze(5),
        (
            2_000,
            "Detected 5 test files across the repository. Good test coverage".to_string(),
            FindingStatus::Positive,
            "Found 5 test files".to_string()
        )
    );
    assert_eq!(analyze(9).0, 2_000);
    assert_eq!(analyze(10).0, 3_000);
    assert_eq!(analyze(11).1, "Detected 11 test files across the repository. Excellent test coverage");
}

#[test]
fn tests_see_three_integration_services() {
    let found = |paths: &[&str]| TestsAnalyzer.has_ci(&blobs(paths));
    assert!(found(&[".github/workflows/anything"]));
    assert!(found(&[".circleci/config.yml"]));
    assert!(found(&["src/a.rs", ".travis.yml"]));
    assert!(!found(&["Jenkinsfile"]));
    assert!(!found(&[".github/dependabot.yml"]));
    assert!(!found(&[]));
}

#[test]
fn coverage_badge_needs_coverage_and_a_badge() {
    let found = |readme: &str| TestsAnalyzer.has_coverage_badge(&Some(readme.to_string()));
    assert!(found("coverage badge"));
    assert!(found("shields.io/coverage"));
    assert!(!found("coverage: 80%"));
    assert!(!found("a badge"));
    assert!(!found("Coverage badge"));
    assert!(!TestsAnalyzer.has_coverage_badge(&None));
}

// CI/CD

#[test]
fn ci_configurations_are_labelled_in_the_order_of_the_tree() {
    let tree = vec![
        blob(".travis.yml"),
        blob(".github/workflows/ci.yml"),
        dir(".github/workflows"),
        blob(".github/workflows/notes.yaml"),
        blob("Jenkinsfile"),
        blob("ci/Jenkinsfile"),
        blob(".circleci/config.yml"),
        blob(".gitlab-ci.yml"),
        blob("azure-pipelines.yml"),
        dir(".travis.yml"),
    ];
    assert_eq!(
        CiCdAnalyzer.detect_ci_configs(&tree),
        vec![
            "Travis CI",
            "GitHub Actions: .github/workflows/ci.yml",
            "Jenkins",
            "CircleCI",
            "GitLab CI",
            "Azure Pipelines",
        ]
    );
    assert!(CiCdAnalyzer.detect_ci_configs(&[]).is_empty());
}

#[test]
fn ci_services_are_counted_by_their_labels() {
    let labels = vec![
        "GitHub Actions: .github/workflows/a.yml".to_string(),
        "CircleCI".to_string(),
        "GitHub Actions: .github/workflows/b.yml".to_string(),
    ];
    assert_eq!(CiCdAnalyzer.count_services(&labels), (2, 1));
    assert_eq!(CiCdAnalyzer.count_services(&vec![]), (0, 0));
}

#[test]
fn ci_without_configuration_scores_nothing() {
    let result = CiCdAnalyzer.analyze(&snapshot(blobs(&["src/main.rs"]))).unwrap();
    assert_eq!(result.score, 0);
    assert_eq!(result.details, "No CI/CD pipelines detected");
    assert_eq!(findings(&result), vec![(FindingStatus::Missing, "No CI/CD configuration detected")]);
}

#[test]
fn ci_with_one_workflow_scores_seventy() {
    let result = CiCdAnalyzer.analyze(&snapshot(blobs(&[".github/workflows/ci.yml"]))).unwrap();
    assert_eq!(result.score, 7_000);
    assert_eq!(result.details, "Found 1 CI/CD configuration(s)");
    assert_eq!(
        findings(&result),
        vec![
            (FindingStatus::Positive, "GitHub Actions configured"),
            (FindingStatus::Positive, "CI/CD pipeline established"),
        ]
    );
}

#[test]
fn ci_with_several_workflows_and_more_scores_eighty_five() {
    let tree = blobs(&[
        ".github/workflows/ci.yml",
        ".circleci/config.yml",
        ".github/workflows/release.yml",
        "Jenkinsfile",
    ]);
    let result = CiCdAnalyzer.analyze(&snapshot(tree)).unwrap();
    assert_eq!(result.score, 8_500);
    assert_eq!(result.details, "Found 4 CI/CD configuration(s)");
    assert_eq!(
        findings(&result),
        vec![
            (FindingStatus::Positive, "GitHub Actions configured"),
            (FindingStatus::Positive, "Multiple workflows configured (2)"),
            (FindingStatus::Positive, "Additional CI: CircleCI"),
            (FindingStatus::Positive, "Additional CI: Jenkins"),
            (FindingStatus::Positive, "CI/CD pipeline established"),
        ]
    );
}

#[test]
fn ci_with_other_services_only_scores_sixty() {
    let result =
        CiCdAnalyzer.analyze(&snapshot(blobs(&[".travis.yml", "azure-pipelines.yml"]))).unwrap();
    assert_eq!(result.score, 6_000);
    assert_eq!(
        findings(&result),
        vec![
            (FindingStatus::Positive, "CI configured: Travis CI"),
            (FindingStatus::Positive, "CI configured: Azure Pipelines"),
            (FindingStatus::Positive, "CI/CD pipeline established"),
        ]
    );
}

// Dependencies

#[test]
fn manifests_are_labelled_with_their_ecosystems() {
    let tree = blobs(&[
        "Cargo.toml",
        "package.json",
        "requirements.txt",
        "Pipfile",
        "pyproject.toml",
        "go.mod",
        "pom.xml",
        "build.gradle",
        "build.gradle.kts",
        "Gemfile",
    ]);
    assert_eq!(
        DependenciesAnalyzer.find_dependency_files(&tree),
        vec![
            "Cargo.toml (Rust)",
            "package.json (Node.js)",
            "requirements.txt (Python)",
            "Pipfile (Python)",
            "pyproject.toml (Python)",
            "go.mod (Go)",
            "pom.xml (Java/Maven)",
            "Gradle (Java)",
            "Gradle (Java)",
            "Gemfile (Ruby)",
        ]
    );
}

#[test]
fn manifests_are_files_at_the_root() {
    let tree = vec![blob("crates/core/Cargo.toml"), dir("Cargo.toml"), blob("cargo.toml"), blob("go.mod")];
    assert_eq!(DependenciesAnalyzer.find_dependency_files(&tree), vec!["go.mod (Go)"]);
}

#[test]
fn code_files_are_known_by_their_extensions() {
    let tree = vec![
        blob("a.rs"),
        blob("b.js"),
        blob("c.ts"),
        blob("d.py"),
        blob("e.go"),
        blob("f.java"),
        blob("g.c"),
        blob("rs"),
        dir("h.rs"),
        blob("i.RS"),
    ];
    assert_eq!(DependenciesAnalyzer.count_code_files(&tree), 6);
}

#[test]
fn dependency_estimate_grows_with_the_project() {
    let estimate = |code_files: usize, manifest: bool| {
        let mut tree = numbered_blobs(code_files, "src/m", ".rs");
        if manifest {
            tree.push(blob("Cargo.toml"));
        }
        DependenciesAnalyzer.estimate_dependency_count(&tree)
    };
    assert_eq!(estimate(0, false), 0);
    assert_eq!(estimate(300, false), 0);
    assert_eq!(estimate(0, true), 5);
    assert_eq!(estimate(49, true), 5);
    assert_eq!(estimate(50, true), 15);
    assert_eq!(estimate(199, true), 15);
    assert_eq!(estimate(200, true), 30);
}

#[test]
fn dependencies_without_manifest_score_nothing() {
    let result = DependenciesAnalyzer.analyze(&snapshot(blobs(&["src/main.rs"]))).unwrap();
    assert_eq!(result.score, 0);
    assert_eq!(result.details, "No dependency management detected");
    assert_eq!(findings(&result), vec![(FindingStatus::Missing, "No dependency files detected")]);
}

#[test]
fn dependencies_of_a_maintained_repository_score_eighty() {
    let result =
        DependenciesAnalyzer.analyze(&snapshot(blobs(&["Cargo.toml", "package.json"]))).unwrap();
    assert_eq!(result.score, 8_000);
    assert_eq!(result.details, "Found 2 dependency file(s)");
    assert_eq!(
        findings(&result),
        vec![
            (
                FindingStatus::Positive,
                "Dependency management: Cargo.toml (Rust), package.json (Node.js)"
            ),
            (FindingStatus::Positive, "Estimated ~5 dependencies"),
            (FindingStatus::Positive, "Repository is actively maintained"),
        ]
    );
}

#[test]
fn dependencies_of_an_archived_repository_score_forty() {
    let mut data = snapshot(blobs(&["Gemfile"]));
    data.repository.archived = Some(true);
    let result = DependenciesAnalyzer.analyze(&data).unwrap();
    assert_eq!(result.score, 4_000);
    assert_eq!(
        findings(&result),
        vec![
            (FindingStatus::Positive, "Dependency management: Gemfile (Ruby)"),
            (FindingStatus::Positive, "Estimated ~5 dependencies"),
            (FindingStatus::Warning, "Repository is archived - dependencies may be outdated"),
        ]
    );

    data.repository.archived = Some(false);
    assert_eq!(DependenciesAnalyzer.analyze(&data).unwrap().score, 8_000);
}

#[test]
fn analyzers_name_themselves() {
    assert_eq!((DocumentationAnalyzer.name(), DocumentationAnalyzer.weight()), ("Documentation", 2_000));
    assert_eq!((TestsAnalyzer.name(), TestsAnalyzer.weight()), ("Tests", 2_500));
    assert_eq!((CiCdAnalyzer.name(), CiCdAnalyzer.weight()), ("CI/CD", 2_000));
    assert_eq!((DependenciesAnalyzer.name(), DependenciesAnalyzer.weight()), ("Dependencies", 2_000));
}

#[test]
fn labels_that_name_actions_are_the_workflow_files() {
    let tree = vec![
        blob(".github/workflows/a.yml"),
        blob("azure-pipelines.yml"),
        blob(".github/workflows/GitHub Actions.yml"),
        blob(".gitlab-ci.yml"),
        blob(".circleci/config.yml"),
        blob("Jenkinsfile"),
        blob(".travis.yml"),
    ];
    let labels = CiCdAnalyzer.detect_ci_configs(&tree);
    assert_eq!(labels.len(), 7);
    assert_eq!(CiCdAnalyzer.count_services(&labels), (2, 5));
}

//! The analyzers and the vocabulary they share: a bounded score, a summary and
//! a list of findings.

use vstd::prelude::*;
use vstd::string::*;
use crate::error::RepoHealthError;
use crate::github::{RepoData, RepoDataView};
use crate::scoring::{MAX_SCORE, UNIT_WEIGHT};

pub mod bus_factor;
pub mod ci_cd;
pub mod dependencies;
pub mod documentation;
pub mod tests;

pub use bus_factor::BusFactorAnalyzer;
pub use ci_cd::CiCdAnalyzer;
pub use dependencies::DependenciesAnalyzer;
pub use documentation::DocumentationAnalyzer;
pub use tests::TestsAnalyzer;

verus! {

/// How a finding bears on the score.
#[derive(Debug, Clone, Copy, PartialEq, Eq, Structural)]
pub enum FindingStatus {
    Positive,
    Warning,
    Missing,
}

/// One observation that backs an analyzer's score.
#[derive(Debug, Clone)]
pub struct Finding {
    pub status: FindingStatus,
    pub message: String,
}

/// The outcome of one analyzer.
#[derive(Debug, Clone)]
pub struct AnalysisResult {
    /// Hundredths of a point, at most `MAX_SCORE`.
    pub score: u32,
    pub details: String,
    pub findings: Vec<Finding>,
}

/// A finding as plain values.
pub struct FindingView {
    pub status: FindingStatus,
    pub message: Seq<char>,
}

/// An analyzer's outcome as plain values.
pub struct AnalysisResultView {
    pub score: nat,
    pub details: Seq<char>,
    pub findings: Seq<FindingView>,
}

impl View for Finding {
    type V = FindingView;

    open spec fn view(&self) -> FindingView {
        FindingView { status: self.status, message: self.message@ }
    }
}

impl DeepView for Finding {
    type V = FindingView;

    open spec fn deep_view(&self) -> FindingView {
        self@
    }
}

impl View for AnalysisResult {
    type V = AnalysisResultView;

    open spec fn view(&self) -> AnalysisResultView {
        AnalysisResultView {
            score: self.score as nat,
            details: self.details@,
            findings: self.findings.deep_view(),
        }
    }
}

impl DeepView for AnalysisResult {
    type V = AnalysisResultView;

    open spec fn deep_view(&self) -> AnalysisResultView {
        self@
    }
}

/// A finding in favour of the repository.
pub open spec fn positive(message: Seq<char>) -> FindingView {
    FindingView { status: FindingStatus::Positive, message }
}

/// A finding that calls for attention.
pub open spec fn warning(message: Seq<char>) -> FindingView {
    FindingView { status: FindingStatus::Warning, message }
}

/// A finding of something absent.
pub open spec fn missing(message: Seq<char>) -> FindingView {
    FindingView { status: FindingStatus::Missing, message }
}

/// The test for a finding in favour of the repository.
pub open spec fn is_positive() -> spec_fn(FindingView) -> bool {
    |f: FindingView| f.status == FindingStatus::Positive
}

/// The number of findings in favour of the repository.
pub open spec fn positive_count(findings: Seq<FindingView>) -> nat {
    findings.filter(is_positive()).len()
}

impl Finding {
    /// A finding in favour of the repository.
    pub fn positive(message: &str) -> (finding: Finding)
        ensures
            finding@ == positive(message@),
    {
        Finding { status: FindingStatus::Positive, message: String::from_str(message) }
    }

    /// A finding that calls for attention.
    pub fn warning(message: &str) -> (finding: Finding)
        ensures
            finding@ == warning(message@),
    {
        Finding { status: FindingStatus::Warning, message: String::from_str(message) }
    }

    /// A finding of something absent.
    pub fn missing(message: &str) -> (finding: Finding)
        ensures
            finding@ == missing(message@),
    {
        Finding { status: FindingStatus::Missing, message: String::from_str(message) }
    }
}

/// One dimension of repository health.
///
/// An analyzer reads a snapshot and nothing else: what it reports is a
/// function of the snapshot, and its score never leaves the scale.
pub trait Analyzer {
    /// The analyzer's name.
    spec fn label(&self) -> Seq<char>;

    /// The analyzer's share of the overall score.
    spec fn share(&self) -> nat;

    /// What the analyzer reports on a snapshot.
    spec fn report(&self, data: RepoDataView) -> AnalysisResultView;

    /// The name under which the analyzer's results are listed.
    fn name(&self) -> (name: &str)
        ensures
            name@ == self.label(),
    ;

    /// The weight, in ten-thousandths of the whole.
    fn weight(&self) -> (weight: u32)
        ensures
            weight == self.share(),
            weight <= UNIT_WEIGHT,
    ;

    /// Scores a snapshot. Data that is absent lowers the score and is named
    /// in a finding; it is no error.
    fn analyze(&self, data: &RepoData) -> (outcome: Result<AnalysisResult, RepoHealthError>)
        ensures
            outcome matches Ok(result) ==> result@ == self.report(data@) && result.score
                <= MAX_SCORE,
    ;
}

/// Analysis repeats: two runs of an analyzer on snapshots that hold the same
/// give results that hold the same, character for character.
pub proof fn lemma_analysis_repeats<A: Analyzer>(
    analyzer: A,
    first: RepoData,
    second: RepoData,
    once: AnalysisResult,
    again: AnalysisResult,
)
    requires
        first@ == second@,
        once@ == analyzer.report(first@),
        again@ == analyzer.report(second@),
    ensures
        once@ == again@,
        once.score == again.score,
        once.details@ == again.details@,
        once.findings.deep_view() == again.findings.deep_view(),
{
}

/// Counts the findings in favour of the repository.
pub(crate) fn count_positive(findings: &Vec<Finding>) -> (count: usize)
    ensures
        count == positive_count(findings.deep_view()),
{
    let mut count: usize = 0;
    let mut i: usize = 0;
    while i < findings.len()
        invariant
            i <= findings.len(),
            count <= i,
            count == findings.deep_view().take(i as int).filter(is_positive()).len(),
        decreases findings.len() - i,
    {
        proof {
            let before = findings.deep_view().take(i as int);
            assert(findings.deep_view().take(i as int + 1) =~= before.push(findings[i as int]@));
            before.lemma_filter_len_push(is_positive(), findings[i as int]@);
        }
        match findings[i].status {
            FindingStatus::Positive => {
                count = count + 1;
            },
            _ => {},
        }
        i = i + 1;
    }
    assert(findings.deep_view().take(findings.len() as int) =~= findings.deep_view());
    count
}

/// Appends a finding to a list.
pub(crate) fn record(findings: &mut Vec<Finding>, finding: Finding)
    ensures
        final(findings).deep_view() == old(findings).deep_view().push(finding@),
{
    findings.push(finding);
    assert(findings.deep_view() =~= old(findings).deep_view().push(finding@));
}

} // verus!

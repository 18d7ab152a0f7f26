//! Weighted aggregation of analyzer scores and the grade ladder.

use vstd::prelude::*;
use vstd::string::*;
use crate::analyzers::bus_factor::bus_factor_report;
use crate::analyzers::ci_cd::ci_report;
use crate::analyzers::dependencies::dependencies_report;
use crate::analyzers::documentation::documentation_report;
use crate::analyzers::tests::tests_report;
use crate::analyzers::{
    AnalysisResult, AnalysisResultView, Analyzer, BusFactorAnalyzer, CiCdAnalyzer,
    DependenciesAnalyzer, DocumentationAnalyzer, TestsAnalyzer,
};
use crate::error::RepoHealthError;
use crate::github::{RepoData, RepoDataView};

verus! {

/// A full score: 100 points, in hundredths of a point.
pub const MAX_SCORE: u32 = 10_000;

/// A weight of one, the whole: weights are ten-thousandths.
pub const UNIT_WEIGHT: u32 = 10_000;

/// An analyzer's name, its weight and what it reported, as plain values.
pub type WeightedView = (Seq<char>, u32, AnalysisResultView);

/// The sum of each score times its weight.
pub open spec fn weighted_sum(results: Seq<WeightedView>) -> nat
    decreases results.len(),
{
    if results.len() == 0 {
        0
    } else {
        weighted_sum(results.drop_last()) + (results.last().1 * results.last().2.score) as nat
    }
}

/// The overall score: the weighted sum of the scores, as a score again and
/// rounded down, and no more than a full score.
pub open spec fn overall_score(results: Seq<WeightedView>) -> nat {
    let sum = weighted_sum(results) / 10_000;
    if sum > 10_000 {
        10_000
    } else {
        sum
    }
}

/// The label of the grade that a score earns.
pub open spec fn grade_label(score: u32) -> Seq<char> {
    if score >= 9_000 {
        "A+ Excellent"@
    } else if score >= 8_000 {
        "A Good"@
    } else if score >= 7_000 {
        "B Fair"@
    } else if score >= 6_000 {
        "C Needs Improvement"@
    } else {
        "D Poor"@
    }
}

/// The letter of the grade that a score earns.
pub open spec fn grade_letter(score: u32) -> Seq<char> {
    if score >= 9_000 {
        "A+"@
    } else if score >= 8_000 {
        "A"@
    } else if score >= 7_000 {
        "B"@
    } else if score >= 6_000 {
        "C"@
    } else {
        "D"@
    }
}

/// What the five analyzers report on a snapshot, each with its name and
/// weight.
pub open spec fn all_reports(data: RepoDataView) -> Seq<WeightedView> {
    seq![
        ("Documentation"@, 2_000u32, documentation_report(data)),
        ("Tests"@, 2_500u32, tests_report(data)),
        ("CI/CD"@, 2_000u32, ci_report(data)),
        ("Dependencies"@, 2_000u32, dependencies_report(data)),
        ("Bus Factor"@, 1_500u32, bus_factor_report(data)),
    ]
}

/// Every analyzer's score lies on the scale, whatever the snapshot holds.
pub proof fn lemma_scores_within_scale(data: RepoDataView)
    ensures
        documentation_report(data).score <= MAX_SCORE,
        tests_report(data).score <= MAX_SCORE,
        ci_report(data).score <= MAX_SCORE,
        dependencies_report(data).score <= MAX_SCORE,
        bus_factor_report(data).score <= MAX_SCORE,
        forall|i: int|
            0 <= i < all_reports(data).len() ==> (#[trigger] all_reports(data)[i]).2.score
                <= MAX_SCORE,
{
}

/// The overall score never leaves the scale, whatever the weights add up to.
pub proof fn lemma_overall_within_scale(results: Seq<WeightedView>)
    ensures
        overall_score(results) <= MAX_SCORE,
{
}

/// Aggregation is linear: where every weight is doubled and every score
/// halved, the weighted sum and with it the overall score stay as they were.
pub proof fn lemma_overall_is_linear(results: Seq<WeightedView>, rebalanced: Seq<WeightedView>)
    requires
        results.len() == rebalanced.len(),
        forall|i: int|
            0 <= i < results.len() ==> (#[trigger] rebalanced[i]).1 == 2 * results[i].1
                && results[i].2.score == 2 * rebalanced[i].2.score,
    ensures
        weighted_sum(rebalanced) == weighted_sum(results),
        overall_score(rebalanced) == overall_score(results),
    decreases results.len(),
{
    if results.len() > 0 {
        let last = results.len() - 1;
        assert(rebalanced[last].1 == 2 * results[last].1);
        assert forall|i: int| 0 <= i < results.drop_last().len() implies (
        #[trigger] rebalanced.drop_last()[i]).1 == 2 * results.drop_last()[i].1
            && results.drop_last()[i].2.score == 2 * rebalanced.drop_last()[i].2.score by {
            assert(rebalanced[i].1 == 2 * results[i].1);
        }
        lemma_overall_is_linear(results.drop_last(), rebalanced.drop_last());
        let weight = results[last].1 as int;
        let score = rebalanced[last].2.score as int;
        assert((2 * weight) * score == weight * (2 * score)) by (nonlinear_arith);
    }
}

/// A snapshot decides the overall score: the same snapshot gives the same
/// reports, and so the same overall score.
pub proof fn lemma_same_snapshot_same_reports(first: RepoData, second: RepoData)
    requires
        first@ == second@,
    ensures
        all_reports(first@) == all_reports(second@),
        overall_score(all_reports(first@)) == overall_score(all_reports(second@)),
{
}

/// Combines the analyzers' scores and grades the outcome.
pub struct ScoreCalculator;

impl ScoreCalculator {
    /// The overall score of a list of results, each with its analyzer's name
    /// and weight.
    pub fn calculate_overall(results: &[(String, u32, AnalysisResult)]) -> (overall: u32)
        ensures
            overall == overall_score(results.deep_view()),
            overall <= MAX_SCORE,
    {
        let mut sum: u64 = 0;
        let mut i: usize = 0;
        while i < results.len()
            invariant
                i <= results.len(),
                sum == if weighted_sum(results.deep_view().take(i as int)) > u64::MAX {
                    u64::MAX as nat
                } else {
                    weighted_sum(results.deep_view().take(i as int))
                },
            decreases results.len() - i,
        {
            assert(results.deep_view().take(i as int + 1).drop_last()
                =~= results.deep_view().take(i as int));
            assert(results.deep_view().take(i as int + 1).last() == results[i as int].deep_view());
            let weight = results[i].1 as u64;
            let score = results[i].2.score as u64;
            assert(weight * score <= u32::MAX * u32::MAX) by (nonlinear_arith)
                requires
                    weight <= u32::MAX,
                    score <= u32::MAX,
            ;
            sum = sum.saturating_add(weight * score);
            i = i + 1;
        }
        assert(results.deep_view().take(results.len() as int) =~= results.deep_view());
        let scaled = sum / 10_000;
        if scaled > 10_000 {
            10_000
        } else {
            scaled as u32
        }
    }

    /// The grade of a score, with its description.
    pub fn grade(score: u32) -> (label: &'static str)
        ensures
            label@ == grade_label(score),
    {
        if score >= 9_000 {
            "A+ Excellent"
        } else if score >= 8_000 {
            "A Good"
        } else if score >= 7_000 {
            "B Fair"
        } else if score >= 6_000 {
            "C Needs Improvement"
        } else {
            "D Poor"
        }
    }

    /// The grade of a score, as a letter.
    pub fn grade_short(score: u32) -> (letter: &'static str)
        ensures
            letter@ == grade_letter(score),
    {
        if score >= 9_000 {
            "A+"
        } else if score >= 8_000 {
            "A"
        } else if score >= 7_000 {
            "B"
        } else if score >= 6_000 {
            "C"
        } else {
            "D"
        }
    }
}

/// Runs the five analyzers on a snapshot, in their fixed order.
pub fn run_analyzers(data: &RepoData) -> (outcome: Result<
    Vec<(String, u32, AnalysisResult)>,
    RepoHealthError,
>)
    ensures
        outcome matches Ok(results) && results.deep_view() == all_reports(data@),
{
    let mut results: Vec<(String, u32, AnalysisResult)> = Vec::new();
    assert(results.deep_view() =~= Seq::empty());
    match DocumentationAnalyzer.analyze(data) {
        Ok(result) => results.push((String::from_str("Documentation"), 2_000, result)),
        Err(e) => {
            return Err(e);
        },
    }
    match TestsAnalyzer.analyze(data) {
        Ok(result) => results.push((String::from_str("Tests"), 2_500, result)),
        Err(e) => {
            return Err(e);
        },
    }
    match CiCdAnalyzer.analyze(data) {
        Ok(result) => results.push((String::from_str("CI/CD"), 2_000, result)),
        Err(e) => {
            return Err(e);
        },
    }
    match DependenciesAnalyzer.analyze(data) {
        Ok(result) => results.push((String::from_str("Dependencies"), 2_000, result)),
        Err(e) => {
            return Err(e);
        },
    }
    match BusFactorAnalyzer.analyze(data) {
        Ok(result) => results.push((String::from_str("Bus Factor"), 1_500, result)),
        Err(e) => {
            return Err(e);
        },
    }
    assert(results.deep_view() =~= all_reports(data@));
    Ok(results)
}

} // verus!

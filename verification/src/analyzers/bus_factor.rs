//! Bus factor: how few contributors account for half of all commits.

use vstd::prelude::*;
use vstd::string::*;
use crate::analyzers::{
    positive, record, warning, AnalysisResult, AnalysisResultView, Analyzer, Finding, FindingView,
};
use crate::error::RepoHealthError;
use crate::github::{Author, ContributorStats, ContributorView, RepoData, RepoDataView};
use crate::text::{decimal, decimal_digits, numbered, one_decimal, one_decimal_place};

verus! {

/// One of the leading contributors, with the share of all commits that is
/// theirs.
#[derive(Debug, Clone)]
pub struct TopContributor {
    pub login: String,
    pub commits: u64,
    /// Hundredths of a percent of all commits, rounded down.
    pub share: u32,
}

/// What the commit history says about the concentration of work.
#[derive(Debug, Clone)]
pub struct BusFactorResult {
    pub bus_factor: usize,
    pub total_commits: u128,
    pub top_contributors: Vec<TopContributor>,
}

/// A leading contributor as plain values.
pub struct TopContributorView {
    pub login: Seq<char>,
    pub commits: nat,
    pub share: nat,
}

/// A bus-factor result as plain values.
pub struct BusFactorView {
    pub bus_factor: nat,
    pub total_commits: nat,
    pub top_contributors: Seq<TopContributorView>,
}

impl View for TopContributor {
    type V = TopContributorView;

    open spec fn view(&self) -> TopContributorView {
        TopContributorView {
            login: self.login@,
            commits: self.commits as nat,
            share: self.share as nat,
        }
    }
}

impl DeepView for TopContributor {
    type V = TopContributorView;

    open spec fn deep_view(&self) -> TopContributorView {
        self@
    }
}

impl View for BusFactorResult {
    type V = BusFactorView;

    open spec fn view(&self) -> BusFactorView {
        BusFactorView {
            bus_factor: self.bus_factor as nat,
            total_commits: self.total_commits as nat,
            top_contributors: self.top_contributors.deep_view(),
        }
    }
}

/// The commits of all contributors together.
pub open spec fn total_commits(contributors: Seq<ContributorView>) -> nat
    decreases contributors.len(),
{
    if contributors.len() == 0 {
        0
    } else {
        total_commits(contributors.drop_last()) + contributors.last().total
    }
}

/// The number of entries with at least `commits` commits.
pub open spec fn ahead(ranking: Seq<ContributorView>, commits: nat) -> nat
    decreases ranking.len(),
{
    if ranking.len() == 0 {
        0
    } else {
        ahead(ranking.drop_last(), commits) + (if ranking.last().total >= commits {
            1nat
        } else {
            0
        })
    }
}

/// The contributors by falling number of commits. Among contributors with the
/// same number, the one listed first stays first: each contributor enters the
/// ranking of those listed before, behind everyone with at least as many
/// commits.
pub open spec fn ranked(contributors: Seq<ContributorView>) -> Seq<ContributorView>
    decreases contributors.len(),
{
    if contributors.len() == 0 {
        Seq::empty()
    } else {
        let before = ranked(contributors.drop_last());
        let entrant = contributors.last();
        before.insert(ahead(before, entrant.total) as int, entrant)
    }
}

/// The number of leading entries of a ranking that are taken until their
/// commits together reach `target`: at least one, and all of them where the
/// target is never reached.
pub open spec fn covering_count(ranking: Seq<ContributorView>, target: int) -> nat
    decreases ranking.len(),
{
    if ranking.len() == 0 {
        0
    } else if ranking.first().total >= target {
        1
    } else {
        1 + covering_count(ranking.drop_first(), target - ranking.first().total)
    }
}

/// The bus factor: the least number of leading contributors whose commits
/// reach half of all commits, rounded down. Without commits it is 0.
pub open spec fn bus_factor(contributors: Seq<ContributorView>) -> nat {
    let total = total_commits(contributors);
    if total == 0 {
        0
    } else {
        covering_count(ranked(contributors), total as int / 2)
    }
}

/// A number of commits as a share of all commits, in hundredths of a percent,
/// rounded down.
pub open spec fn share_of(commits: nat, total: nat) -> nat {
    commits * 10_000 / total
}

/// A contributor together with their share of `total` commits.
pub open spec fn with_share(total: nat) -> spec_fn(ContributorView) -> TopContributorView {
    |c: ContributorView|
        TopContributorView { login: c.login, commits: c.total, share: share_of(c.total, total) }
}

/// How many leading contributors are listed: five, or all where there are
/// fewer.
pub open spec fn top_len(contributors: Seq<ContributorView>) -> int {
    if contributors.len() < 5 {
        contributors.len() as int
    } else {
        5
    }
}

/// The leading contributors with their shares. Without commits there are
/// none.
pub open spec fn top_contributors(contributors: Seq<ContributorView>) -> Seq<TopContributorView> {
    let total = total_commits(contributors);
    if total == 0 {
        Seq::empty()
    } else {
        ranked(contributors).take(top_len(contributors)).map_values(with_share(total))
    }
}

/// What the commit history says about the concentration of work.
pub open spec fn bus_factor_view(contributors: Seq<ContributorView>) -> BusFactorView {
    BusFactorView {
        bus_factor: bus_factor(contributors),
        total_commits: total_commits(contributors),
        top_contributors: top_contributors(contributors),
    }
}

/// The score of a bus factor: 0 for none, 10 for one, 40 for two, 70 for
/// three or four, 100 from five on.
pub open spec fn bus_factor_score(bus_factor: nat) -> nat {
    if bus_factor == 0 {
        0
    } else if bus_factor == 1 {
        1_000
    } else if bus_factor == 2 {
        4_000
    } else if bus_factor <= 4 {
        7_000
    } else {
        10_000
    }
}

/// The summary for a bus factor.
pub open spec fn bus_factor_details(bus_factor: nat) -> Seq<char> {
    if bus_factor == 0 {
        "No commit data available"@
    } else if bus_factor == 1 {
        "Critical: Single person controls >50% of commits"@
    } else if bus_factor == 2 {
        "Low: Two people control >50% of commits"@
    } else if bus_factor <= 4 {
        "Moderate: Small team of 3-4 core contributors"@
    } else {
        "Healthy: Well-distributed contributions"@
    }
}

/// More than 70% of all commits.
pub open spec fn holds_most(commits: nat, total: nat) -> bool {
    commits * 10 > total * 7
}

/// A share in tenths of a percent, rounded to the nearest tenth.
pub open spec fn share_tenths(share: nat) -> nat {
    (share + 5) / 10
}

/// The line that presents a leading contributor.
pub open spec fn contributor_line(c: TopContributorView) -> Seq<char> {
    c.login + ": "@ + decimal_digits(c.commits) + " commits ("@ + one_decimal(
        share_tenths(c.share),
    ) + "%)"@
}

/// The finding on a leading contributor: a warning where the first of them
/// holds more than 70% of all commits.
pub open spec fn contributor_finding(c: TopContributorView, first: bool, total: nat) -> FindingView {
    if first && holds_most(c.commits, total) {
        warning(contributor_line(c) + " - High concentration of ownership"@)
    } else {
        positive(contributor_line(c))
    }
}

/// The findings on the leading contributors, in their order.
pub open spec fn contributor_findings(top: Seq<TopContributorView>, total: nat) -> Seq<
    FindingView,
> {
    Seq::new(top.len(), |i: int| contributor_finding(top[i], i == 0, total))
}

/// The findings of the bus-factor analyzer where there are contributors.
pub open spec fn bus_factor_findings(contributors: Seq<ContributorView>) -> Seq<FindingView> {
    let top = top_contributors(contributors);
    seq![
        positive(
            "Bus factor: "@ + decimal_digits(bus_factor(contributors))
                + " (minimum contributors accounting for 50% of commits)"@,
        ),
    ] + (if top.len() > 0 {
        seq![positive("Total contributors: "@ + decimal_digits(contributors.len()))]
            + contributor_findings(top, total_commits(contributors))
    } else {
        Seq::empty()
    })
}

/// What the bus-factor analyzer reports on a snapshot. Without any
/// contributor data the score is a neutral 50.
pub open spec fn bus_factor_report(data: RepoDataView) -> AnalysisResultView {
    if data.contributors.len() == 0 {
        AnalysisResultView {
            score: 5_000,
            details: "Unable to calculate bus factor - no contributor data"@,
            findings: seq![warning("No contributor data available"@)],
        }
    } else {
        AnalysisResultView {
            score: bus_factor_score(bus_factor(data.contributors)),
            details: bus_factor_details(bus_factor(data.contributors)),
            findings: bus_factor_findings(data.contributors),
        }
    }
}

/// The commits of the leading `k` entries of a ranking.
pub open spec fn head_commits(ranking: Seq<ContributorView>, k: int) -> nat {
    total_commits(ranking.take(k))
}

/// A ranking falls: no entry has more commits than one before it.
pub open spec fn falls(ranking: Seq<ContributorView>) -> bool {
    forall|i: int, j: int| 0 <= i <= j < ranking.len() ==> ranking[i].total >= ranking[j].total
}

/// The test for a contributor with exactly `commits` commits.
pub open spec fn has_commits(commits: nat) -> spec_fn(ContributorView) -> bool {
    |c: ContributorView| c.total == commits
}

/// `at` parts a ranking for `commits`: whoever stands before it has at least
/// as many, whoever stands at or behind it has fewer.
pub open spec fn parts_at(ranking: Seq<ContributorView>, commits: nat, at: int) -> bool {
    &&& 0 <= at <= ranking.len()
    &&& forall|j: int| 0 <= j < at ==> (#[trigger] ranking[j]).total >= commits
    &&& forall|j: int| at <= j < ranking.len() ==> (#[trigger] ranking[j]).total < commits
}

/// The place that parts a ranking for `commits` is the number of entries with
/// at least that many.
proof fn lemma_parting_place_is_ahead(ranking: Seq<ContributorView>, commits: nat, at: int)
    requires
        parts_at(ranking, commits, at),
    ensures
        ahead(ranking, commits) == at,
    decreases ranking.len(),
{
    if ranking.len() > 0 {
        let rest = ranking.drop_last();
        if at == ranking.len() {
            assert(ranking[at - 1].total >= commits);
            lemma_parting_place_is_ahead(rest, commits, at - 1);
        } else {
            assert(ranking[ranking.len() - 1].total < commits);
            lemma_parting_place_is_ahead(rest, commits, at);
        }
    }
}

/// In a falling ranking, the number of entries with at least `commits`
/// commits parts the ranking for `commits`.
proof fn lemma_ahead_parts_falling(ranking: Seq<ContributorView>, commits: nat)
    requires
        falls(ranking),
    ensures
        parts_at(ranking, commits, ahead(ranking, commits) as int),
    decreases ranking.len(),
{
    if ranking.len() > 0 {
        let rest = ranking.drop_last();
        assert(falls(rest));
        lemma_ahead_parts_falling(rest, commits);
        let at = ahead(rest, commits) as int;
        if ranking.last().total >= commits {
            if at < rest.len() {
                assert(rest[at].total < commits);
                assert(ranking[at].total >= ranking[ranking.len() - 1].total);
            }
            assert(at == rest.len());
            assert forall|j: int| 0 <= j < at + 1 implies (#[trigger] ranking[j]).total
                >= commits by {
                if j < at {
                    assert(rest[j].total >= commits);
                }
            }
        } else {
            assert forall|j: int| 0 <= j < at implies (#[trigger] ranking[j]).total >= commits by {
                assert(rest[j].total >= commits);
            }
            assert forall|j: int| at <= j < ranking.len() implies (#[trigger] ranking[j]).total
                < commits by {
                if j < rest.len() {
                    assert(rest[j].total < commits);
                }
            }
        }
    }
}

/// A ranking holds every contributor once, and falls.
pub proof fn lemma_ranked_falls(contributors: Seq<ContributorView>)
    ensures
        ranked(contributors).len() == contributors.len(),
        falls(ranked(contributors)),
    decreases contributors.len(),
{
    if contributors.len() > 0 {
        let before = ranked(contributors.drop_last());
        let entrant = contributors.last();
        lemma_ranked_falls(contributors.drop_last());
        lemma_ahead_parts_falling(before, entrant.total);
        let at = ahead(before, entrant.total) as int;
        let after = before.insert(at, entrant);
        assert forall|i: int, j: int| 0 <= i <= j < after.len() implies after[i].total
            >= after[j].total by {
            if j < at {
                assert(after[i] == before[i] && after[j] == before[j]);
            } else if j == at {
                if i < at {
                    assert(after[i] == before[i]);
                }
            } else {
                assert(after[j] == before[j - 1]);
                if i < at {
                    assert(after[i] == before[i]);
                    assert(before[i].total >= entrant.total);
                } else if i > at {
                    assert(after[i] == before[i - 1]);
                }
            }
        }
    }
}

/// An entrant adds their commits to the commits of a list, wherever they
/// enter.
proof fn lemma_total_commits_insert(list: Seq<ContributorView>, at: int, c: ContributorView)
    requires
        0 <= at <= list.len(),
    ensures
        total_commits(list.insert(at, c)) == total_commits(list) + c.total,
    decreases list.len(),
{
    let after = list.insert(at, c);
    if at == list.len() {
        assert(after.drop_last() =~= list);
    } else {
        assert(after.drop_last() =~= list.drop_last().insert(at, c));
        lemma_total_commits_insert(list.drop_last(), at, c);
    }
}

/// Ranking keeps the number of commits.
pub proof fn lemma_ranked_keeps_total(contributors: Seq<ContributorView>)
    ensures
        total_commits(ranked(contributors)) == total_commits(contributors),
    decreases contributors.len(),
{
    if contributors.len() > 0 {
        let before = ranked(contributors.drop_last());
        let entrant = contributors.last();
        lemma_ranked_keeps_total(contributors.drop_last());
        lemma_ranked_falls(contributors.drop_last());
        lemma_ahead_parts_falling(before, entrant.total);
        lemma_total_commits_insert(before, ahead(before, entrant.total) as int, entrant);
    }
}

/// The commits of a list are the commits of its leading entries and of the
/// rest.
proof fn lemma_total_commits_split(list: Seq<ContributorView>, k: int)
    requires
        0 <= k <= list.len(),
    ensures
        total_commits(list) == total_commits(list.take(k)) + total_commits(list.skip(k)),
    decreases list.len(),
{
    if k == list.len() {
        assert(list.take(k) =~= list);
        assert(list.skip(k) =~= Seq::empty());
    } else {
        assert(list.drop_last().take(k) =~= list.take(k));
        assert(list.drop_last().skip(k) =~= list.skip(k).drop_last());
        lemma_total_commits_split(list.drop_last(), k);
    }
}

/// Nobody has more commits than all contributors together.
proof fn lemma_total_bounds_each(list: Seq<ContributorView>, i: int)
    requires
        0 <= i < list.len(),
    ensures
        list[i].total <= total_commits(list),
    decreases list.len(),
{
    if i < list.len() - 1 {
        lemma_total_bounds_each(list.drop_last(), i);
    }
}

/// The commits of a list are those of its first entry and of the rest.
proof fn lemma_total_commits_front(list: Seq<ContributorView>)
    requires
        list.len() > 0,
    ensures
        total_commits(list) == list.first().total + total_commits(list.drop_first()),
{
    lemma_total_commits_split(list, 1);
    assert(list.take(1).drop_last() =~= Seq::empty());
    assert(total_commits(list.take(1).drop_last()) == 0);
    assert(list.take(1).last() == list.first());
    assert(list.skip(1) =~= list.drop_first());
}

/// The commits of the leading entries of a ranking, taken from its front.
proof fn lemma_head_commits_front(ranking: Seq<ContributorView>, k: int)
    requires
        1 <= k <= ranking.len(),
    ensures
        head_commits(ranking, k) == ranking.first().total + head_commits(
            ranking.drop_first(),
            k - 1,
        ),
{
    lemma_total_commits_front(ranking.take(k));
    assert(ranking.take(k).drop_first() =~= ranking.drop_first().take(k - 1));
}

/// The walk takes at least one entry of a ranking that has any, and never
/// more than there are.
pub proof fn lemma_covering_count_bounds(ranking: Seq<ContributorView>, target: int)
    ensures
        covering_count(ranking, target) <= ranking.len(),
        ranking.len() > 0 ==> covering_count(ranking, target) >= 1,
    decreases ranking.len(),
{
    if ranking.len() > 0 && ranking.first().total < target {
        lemma_covering_count_bounds(ranking.drop_first(), target - ranking.first().total);
    }
}

/// The walk stops as soon as the target is reached: it takes no more entries
/// than any number of leading entries whose commits reach the target.
pub proof fn lemma_covering_count_is_least(ranking: Seq<ContributorView>, target: int, k: int)
    requires
        1 <= k <= ranking.len(),
        head_commits(ranking, k) >= target,
    ensures
        covering_count(ranking, target) <= k,
    decreases ranking.len(),
{
    lemma_head_commits_front(ranking, k);
    if ranking.first().total < target {
        if k == 1 {
            assert(ranking.drop_first().take(0) =~= Seq::empty());
        } else {
            lemma_covering_count_is_least(
                ranking.drop_first(),
                target - ranking.first().total,
                k - 1,
            );
        }
    }
}

/// Where all commits together reach the target, the entries that the walk
/// takes reach it.
pub proof fn lemma_covering_count_reaches(ranking: Seq<ContributorView>, target: int)
    requires
        ranking.len() > 0,
        total_commits(ranking) >= target,
    ensures
        head_commits(ranking, covering_count(ranking, target) as int) >= target,
    decreases ranking.len(),
{
    lemma_covering_count_bounds(ranking, target);
    let count = covering_count(ranking, target) as int;
    lemma_head_commits_front(ranking, count);
    if ranking.first().total >= target {
        assert(ranking.drop_first().take(0) =~= Seq::empty());
    } else {
        lemma_total_commits_front(ranking);
        let rest = ranking.drop_first();
        if rest.len() == 0 {
            assert(total_commits(rest) == 0);
        } else {
            lemma_covering_count_reaches(rest, target - ranking.first().total);
        }
    }
}

/// Fewer entries than the walk takes do not reach the target.
pub proof fn lemma_covering_count_is_first(ranking: Seq<ContributorView>, target: int, k: int)
    requires
        1 <= k < covering_count(ranking, target),
    ensures
        head_commits(ranking, k) < target,
    decreases ranking.len(),
{
    lemma_covering_count_bounds(ranking, target);
    lemma_head_commits_front(ranking, k);
    if k == 1 {
        assert(ranking.drop_first().take(0) =~= Seq::empty());
    } else {
        lemma_covering_count_is_first(ranking.drop_first(), target - ranking.first().total, k - 1);
    }
}

/// The bus factor is the least number of leading contributors, at least one,
/// whose commits reach half of all commits: that many reach it, and no
/// smaller number does.
pub proof fn lemma_bus_factor_is_least_cover(contributors: Seq<ContributorView>)
    requires
        total_commits(contributors) > 0,
    ensures
        1 <= bus_factor(contributors) <= contributors.len(),
        head_commits(ranked(contributors), bus_factor(contributors) as int) >= total_commits(
            contributors,
        ) / 2,
        forall|k: int|
            1 <= k < bus_factor(contributors) ==> #[trigger] head_commits(ranked(contributors), k)
                < total_commits(contributors) / 2,
{
    let ranking = ranked(contributors);
    let target = total_commits(contributors) as int / 2;
    lemma_ranked_falls(contributors);
    lemma_ranked_keeps_total(contributors);
    lemma_covering_count_bounds(ranking, target);
    lemma_covering_count_reaches(ranking, target);
    assert forall|k: int| 1 <= k < bus_factor(contributors) implies #[trigger] head_commits(
        ranking,
        k,
    ) < target by {
        lemma_covering_count_is_first(ranking, target, k);
    }
}

/// The commits of the `k` contributors with the most commits, and of all
/// contributors where there are no more than `k`.
pub open spec fn top_commits(contributors: Seq<ContributorView>, k: nat) -> nat {
    let ranking = ranked(contributors);
    if k < ranking.len() {
        head_commits(ranking, k as int)
    } else {
        total_commits(ranking)
    }
}

/// The bus factor does not fall when commits are spread more evenly. Of two
/// lists with the same number of commits, let the leading contributors of the
/// first hold at least as much as equally many leading contributors of the
/// second, whatever their number. Then the bus factor of the first is at most
/// that of the second.
pub proof fn lemma_bus_factor_grows_with_spread(
    concentrated: Seq<ContributorView>,
    spread: Seq<ContributorView>,
)
    requires
        total_commits(concentrated) == total_commits(spread),
        forall|k: nat| #[trigger] top_commits(concentrated, k) >= top_commits(spread, k),
    ensures
        bus_factor(concentrated) <= bus_factor(spread),
{
    let total = total_commits(spread);
    if total > 0 {
        let target = total as int / 2;
        let narrow = ranked(concentrated);
        let wide = ranked(spread);
        lemma_ranked_falls(concentrated);
        lemma_ranked_falls(spread);
        lemma_ranked_keeps_total(concentrated);
        lemma_ranked_keeps_total(spread);
        lemma_covering_count_bounds(narrow, target);
        lemma_covering_count_bounds(wide, target);
        lemma_covering_count_reaches(wide, target);
        let count = covering_count(wide, target);
        assert(wide.take(wide.len() as int) =~= wide);
        assert(top_commits(spread, count) >= target);
        assert(top_commits(concentrated, count) >= top_commits(spread, count));
        if count < narrow.len() {
            lemma_covering_count_is_least(narrow, target, count as int);
        }
    }
}

/// A choice of contributors by their places in a list: each place lies in
/// the list, and none is chosen twice.
pub open spec fn is_choice(picked: Seq<int>, len: nat) -> bool {
    &&& forall|i: int| 0 <= i < picked.len() ==> 0 <= #[trigger] picked[i] < len
    &&& forall|i: int, j: int|
        0 <= i < picked.len() && 0 <= j < picked.len() && i != j ==> picked[i] != picked[j]
}

/// The commits of the contributors chosen from a list.
pub open spec fn picked_commits(contributors: Seq<ContributorView>, picked: Seq<int>) -> nat
    decreases picked.len(),
{
    if picked.len() == 0 {
        0
    } else {
        picked_commits(contributors, picked.drop_last()) + contributors[picked.last()].total
    }
}

/// The commits of the leading entries after an entrant has joined: the
/// entrant counts among them where the entrant's place does.
proof fn lemma_head_commits_insert(
    ranking: Seq<ContributorView>,
    at: int,
    entrant: ContributorView,
    k: int,
)
    requires
        0 <= at <= ranking.len(),
        0 <= k <= ranking.len() + 1,
    ensures
        head_commits(ranking.insert(at, entrant), k) == if k <= at {
            head_commits(ranking, k)
        } else {
            head_commits(ranking, k - 1) + entrant.total
        },
{
    let after = ranking.insert(at, entrant);
    if k <= at {
        assert(after.take(k) =~= ranking.take(k));
    } else {
        assert(after.take(k) =~= ranking.take(k - 1).insert(at, entrant));
        lemma_total_commits_insert(ranking.take(k - 1), at, entrant);
    }
}

/// One more leading entry never holds less.
proof fn lemma_head_commits_grow(ranking: Seq<ContributorView>, k: int)
    requires
        0 <= k < ranking.len(),
    ensures
        head_commits(ranking, k + 1) == head_commits(ranking, k) + ranking[k].total,
{
    assert(ranking.take(k + 1).drop_last() =~= ranking.take(k));
}

/// A choice made before the last contributor was listed holds the same
/// commits in the longer list.
proof fn lemma_picked_commits_of_earlier(contributors: Seq<ContributorView>, picked: Seq<int>)
    requires
        contributors.len() > 0,
        forall|i: int| 0 <= i < picked.len() ==> 0 <= #[trigger] picked[i] < contributors.len() - 1,
    ensures
        picked_commits(contributors, picked) == picked_commits(contributors.drop_last(), picked),
    decreases picked.len(),
{
    if picked.len() > 0 {
        assert(0 <= picked[picked.len() - 1] < contributors.len() - 1);
        assert forall|i: int| 0 <= i < picked.drop_last().len() implies 0 <= #[trigger] picked.drop_last()[i]
            < contributors.len() - 1 by {
            assert(picked.drop_last()[i] == picked[i]);
        }
        lemma_picked_commits_of_earlier(contributors, picked.drop_last());
    }
}

/// The commits of a choice are those of one chosen contributor and of the
/// others chosen.
proof fn lemma_picked_commits_remove(
    contributors: Seq<ContributorView>,
    picked: Seq<int>,
    j: int,
)
    requires
        0 <= j < picked.len(),
    ensures
        picked_commits(contributors, picked) == contributors[picked[j]].total + picked_commits(
            contributors,
            picked.remove(j),
        ),
    decreases picked.len(),
{
    if j == picked.len() - 1 {
        assert(picked.remove(j) =~= picked.drop_last());
    } else {
        assert(picked.remove(j).drop_last() =~= picked.drop_last().remove(j));
        assert(picked.remove(j).last() == picked.last());
        lemma_picked_commits_remove(contributors, picked.drop_last(), j);
    }
}

/// The last contributor listed never lowers what the leading contributors
/// hold, and holds no more than the place among them is worth.
proof fn lemma_top_commits_with_last(contributors: Seq<ContributorView>, k: nat)
    requires
        contributors.len() > 0,
    ensures
        top_commits(contributors, k) >= top_commits(contributors.drop_last(), k),
        k >= 1 ==> top_commits(contributors, k) >= contributors.last().total + top_commits(
            contributors.drop_last(),
            (k - 1) as nat,
        ),
{
    let n = contributors.len() as int;
    let listed = contributors.drop_last();
    let entrant = contributors.last();
    let before = ranked(listed);
    let at = ahead(before, entrant.total) as int;
    lemma_ranked_falls(listed);
    lemma_ranked_falls(contributors);
    lemma_ranked_keeps_total(listed);
    lemma_ranked_keeps_total(contributors);
    lemma_ahead_parts_falling(before, entrant.total);
    assert(before.take(n - 1) =~= before);
    if k < n {
        lemma_head_commits_insert(before, at, entrant, k as int);
        if k >= 1 {
            lemma_head_commits_grow(before, k - 1);
            if k <= at {
                assert(before[k - 1].total >= entrant.total);
            } else {
                assert(before[k - 1].total < entrant.total);
            }
        }
    }
}

/// A choice that leaves out the last place is a choice among the places
/// before it.
proof fn lemma_choice_of_earlier(picked: Seq<int>, len: nat)
    requires
        len > 0,
        is_choice(picked, len),
        forall|i: int| 0 <= i < picked.len() ==> #[trigger] picked[i] != len - 1,
    ensures
        is_choice(picked, (len - 1) as nat),
{
}

/// A choice without one of its places is a choice that leaves that place
/// out.
proof fn lemma_choice_without(picked: Seq<int>, len: nat, j: int)
    requires
        is_choice(picked, len),
        0 <= j < picked.len(),
    ensures
        is_choice(picked.remove(j), len),
        forall|i: int| 0 <= i < picked.remove(j).len() ==> #[trigger] picked.remove(j)[i] != picked[j],
{
    let others = picked.remove(j);
    assert forall|i: int| 0 <= i < others.len() implies 0 <= #[trigger] others[i] < len
        && others[i] != picked[j] by {
        if i < j {
            assert(others[i] == picked[i]);
        } else {
            assert(others[i] == picked[i + 1]);
        }
    }
    assert forall|a: int, b: int|
        0 <= a < others.len() && 0 <= b < others.len() && a != b implies others[a]
        != others[b] by {
        let a0 = if a < j {
            a
        } else {
            a + 1
        };
        let b0 = if b < j {
            b
        } else {
            b + 1
        };
        assert(others[a] == picked[a0] && others[b] == picked[b0]);
    }
}

/// No choice of contributors holds more commits than equally many leading
/// contributors of the ranking.
pub proof fn lemma_leaders_hold_most(contributors: Seq<ContributorView>, picked: Seq<int>)
    requires
        is_choice(picked, contributors.len()),
    ensures
        picked_commits(contributors, picked) <= top_commits(contributors, picked.len()),
    decreases contributors.len(),
{
    let n = contributors.len() as int;
    let k = picked.len();
    if n == 0 {
        if k > 0 {
            let first = picked[0];
            assert(0 <= first < contributors.len());
        }
    } else {
        let listed = contributors.drop_last();
        lemma_top_commits_with_last(contributors, k);
        if exists|j: int| 0 <= j < k && picked[j] == n - 1 {
            let j = choose|j: int| 0 <= j < k && picked[j] == n - 1;
            let others = picked.remove(j);
            lemma_picked_commits_remove(contributors, picked, j);
            lemma_choice_without(picked, contributors.len(), j);
            lemma_choice_of_earlier(others, contributors.len());
            lemma_picked_commits_of_earlier(contributors, others);
            lemma_leaders_hold_most(listed, others);
        } else {
            lemma_choice_of_earlier(picked, contributors.len());
            lemma_picked_commits_of_earlier(contributors, picked);
            lemma_leaders_hold_most(listed, picked);
        }
    }
}

/// The bus factor is the least number of contributors, at least one, whose
/// commits reach half of all commits, whichever contributors are chosen.
pub proof fn lemma_bus_factor_is_least_choice(contributors: Seq<ContributorView>, picked: Seq<int>)
    requires
        is_choice(picked, contributors.len()),
        picked.len() >= 1,
        picked_commits(contributors, picked) >= total_commits(contributors) / 2,
    ensures
        bus_factor(contributors) <= picked.len(),
{
    let total = total_commits(contributors);
    if total > 0 {
        let ranking = ranked(contributors);
        let target = total as int / 2;
        lemma_ranked_falls(contributors);
        lemma_covering_count_bounds(ranking, target);
        lemma_leaders_hold_most(contributors, picked);
        if picked.len() < ranking.len() {
            lemma_covering_count_is_least(ranking, target, picked.len() as int);
        }
    }
}

/// The shares of a list of leading contributors together.
pub open spec fn share_sum(top: Seq<TopContributorView>) -> nat
    decreases top.len(),
{
    if top.len() == 0 {
        0
    } else {
        share_sum(top.drop_last()) + top.last().share
    }
}

/// The shares of some contributors in `total` commits are together no more
/// than their commits are of `total`.
proof fn lemma_share_sum_bound(list: Seq<ContributorView>, total: nat)
    requires
        total > 0,
    ensures
        share_sum(list.map_values(with_share(total))) * total <= 10_000 * total_commits(list),
    decreases list.len(),
{
    let shares = list.map_values(with_share(total));
    if list.len() > 0 {
        lemma_share_sum_bound(list.drop_last(), total);
        assert(shares.drop_last() =~= list.drop_last().map_values(with_share(total)));
        let commits = list.last().total as int;
        let share = shares.last().share as int;
        let before = share_sum(shares.drop_last()) as int;
        let part = total_commits(list.drop_last()) as int;
        let whole = total as int;
        assert(share == commits * 10_000 / whole);
        assert(share_sum(shares) == before + share);
        assert(total_commits(list) == part + commits);
        assert(share * whole <= commits * 10_000) by (nonlinear_arith)
            requires
                whole > 0,
                share == commits * 10_000 / whole,
        ;
        let sum = share_sum(shares) as int;
        assert(sum * whole <= 10_000 * (part + commits)) by (nonlinear_arith)
            requires
                sum == before + share,
                before * whole <= 10_000 * part,
                share * whole <= commits * 10_000,
        ;
    } else {
        assert(share_sum(shares) == 0);
        assert(0 * total == 0) by (nonlinear_arith);
    }
}

/// Each listed share is the contributor's commits as a part of all commits,
/// in hundredths of a percent and rounded down, and the listed shares
/// together are no more than the whole.
pub proof fn lemma_shares_within_whole(contributors: Seq<ContributorView>)
    ensures
        forall|i: int|
            0 <= i < top_contributors(contributors).len() ==> (#[trigger] top_contributors(
                contributors,
            )[i]).share == top_contributors(contributors)[i].commits * 10_000 / total_commits(
                contributors,
            ),
        share_sum(top_contributors(contributors)) <= 10_000,
{
    let total = total_commits(contributors);
    if total > 0 {
        let ranking = ranked(contributors);
        let listed = ranking.take(top_len(contributors));
        lemma_ranked_falls(contributors);
        lemma_ranked_keeps_total(contributors);
        lemma_total_commits_split(ranking, top_len(contributors));
        lemma_share_sum_bound(listed, total);
        let sum = share_sum(top_contributors(contributors));
        let part = total_commits(listed);
        assert(sum <= 10_000) by (nonlinear_arith)
            requires
                sum * total <= 10_000 * part,
                part <= total,
                total > 0,
        ;
    }
}

/// No entry of a list passes a test that none of them meets.
proof fn lemma_filter_without_match(list: Seq<ContributorView>, commits: nat)
    requires
        forall|i: int| 0 <= i < list.len() ==> (#[trigger] list[i]).total != commits,
    ensures
        list.filter(has_commits(commits)) == Seq::<ContributorView>::empty(),
    decreases list.len(),
{
    reveal(Seq::filter);
    if list.len() > 0 {
        assert(list[list.len() - 1].total != commits);
        assert forall|i: int| 0 <= i < list.drop_last().len() implies (#[trigger] list.drop_last()[i]).total
            != commits by {
            assert(list[i].total != commits);
        }
        lemma_filter_without_match(list.drop_last(), commits);
    }
}

/// Ranking is stable: contributors with the same number of commits stand in
/// the ranking in the order in which they were listed.
pub proof fn lemma_ranked_is_stable(contributors: Seq<ContributorView>, commits: nat)
    ensures
        ranked(contributors).filter(has_commits(commits)) == contributors.filter(
            has_commits(commits),
        ),
    decreases contributors.len(),
{
    let same = has_commits(commits);
    if contributors.len() == 0 {
        assert(ranked(contributors) =~= contributors);
    } else {
        let listed = contributors.drop_last();
        let entrant = contributors.last();
        let before = ranked(listed);
        let at = ahead(before, entrant.total) as int;
        lemma_ranked_is_stable(listed, commits);
        lemma_ranked_falls(listed);
        lemma_ahead_parts_falling(before, entrant.total);
        let front = before.subrange(0, at);
        let back = before.subrange(at, before.len() as int);
        assert(before =~= front + back);
        Seq::filter_distributes_over_add(front, back, same);
        Seq::filter_distributes_over_add(front.push(entrant), back, same);
        front.lemma_filter_push(entrant, same);
        assert(contributors =~= listed.push(entrant));
        listed.lemma_filter_push(entrant, same);
        if entrant.total == commits {
            assert forall|i: int| 0 <= i < back.len() implies (#[trigger] back[i]).total
                != commits by {
                assert(before[at + i].total < entrant.total);
            }
            lemma_filter_without_match(back, commits);
            assert(front.filter(same) + Seq::<ContributorView>::empty() =~= front.filter(same));
            assert(front.filter(same).push(entrant) + Seq::<ContributorView>::empty()
                =~= front.filter(same).push(entrant));
        }
    }
}

/// Scores how widely the work on the repository is spread.
pub struct BusFactorAnalyzer;

impl BusFactorAnalyzer {
    /// Adds up the commits of all contributors.
    pub fn sum_commits(&self, contributors: &[ContributorStats]) -> (total: u128)
        ensures
            total == total_commits(contributors.deep_view()),
    {
        let mut total: u128 = 0;
        let mut i: usize = 0;
        while i < contributors.len()
            invariant
                i <= contributors.len(),
                total == total_commits(contributors.deep_view().take(i as int)),
                total <= i * u64::MAX,
            decreases contributors.len() - i,
        {
            assert(contributors.deep_view().take(i as int + 1).drop_last()
                =~= contributors.deep_view().take(i as int));
            total = total + contributors[i].total as u128;
            i = i + 1;
        }
        assert(contributors.deep_view().take(contributors.len() as int)
            =~= contributors.deep_view());
        total
    }

    /// Ranks the contributors by falling number of commits. Contributors with
    /// the same number keep their order.
    pub fn rank_contributors(&self, contributors: &[ContributorStats]) -> (ranking: Vec<
        ContributorStats,
    >)
        ensures
            ranking.deep_view() == ranked(contributors.deep_view()),
    {
        let mut ranking: Vec<ContributorStats> = Vec::new();
        let mut i: usize = 0;
        assert(ranking.deep_view() =~= ranked(contributors.deep_view().take(0)));
        while i < contributors.len()
            invariant
                i <= contributors.len(),
                ranking.len() == i,
                ranking.deep_view() == ranked(contributors.deep_view().take(i as int)),
            decreases contributors.len() - i,
        {
            let ghost before = ranking.deep_view();
            let commits = contributors[i].total;
            let mut at: usize = ranking.len();
            while at > 0 && ranking[at - 1].total < commits
                invariant
                    at <= ranking.len(),
                    ranking.deep_view() == before,
                    forall|j: int| at <= j < ranking.len() ==> (#[trigger] before[j]).total < commits,
                decreases at,
            {
                at = at - 1;
            }
            let entrant = ContributorStats {
                author: Author { login: contributors[i].author.login.clone() },
                total: commits,
            };
            proof {
                lemma_ranked_falls(contributors.deep_view().take(i as int));
                if at > 0 {
                    assert(before[at - 1].total >= commits);
                    assert forall|j: int| 0 <= j < at implies (#[trigger] before[j]).total
                        >= commits by {
                        assert(before[j].total >= before[at - 1].total);
                    }
                }
                lemma_parting_place_is_ahead(before, commits as nat, at as int);
                assert(contributors.deep_view().take(i as int + 1).drop_last()
                    =~= contributors.deep_view().take(i as int));
                assert(entrant@ == contributors.deep_view().take(i as int + 1).last());
            }
            ranking.insert(at, entrant);
            assert(ranking.deep_view() =~= before.insert(at as int, entrant@));
            i = i + 1;
        }
        assert(contributors.deep_view().take(contributors.len() as int)
            =~= contributors.deep_view());
        ranking
    }

    /// Walks a ranking until the commits met reach `target`, and counts the
    /// entries taken.
    pub fn count_covering(&self, ranking: &[ContributorStats], target: u128) -> (count: usize)
        ensures
            count == covering_count(ranking.deep_view(), target as int),
    {
        let mut reached: u128 = 0;
        let mut count: usize = 0;
        let mut done = false;
        assert(ranking.deep_view().skip(0) =~= ranking.deep_view());
        while count < ranking.len() && !done
            invariant
                count <= ranking.len(),
                reached <= count * u64::MAX,
                !done ==> reached <= target,
                !done ==> covering_count(ranking.deep_view(), target as int) == count
                    + covering_count(ranking.deep_view().skip(count as int), target - reached),
                done ==> covering_count(ranking.deep_view(), target as int) == count,
            decreases ranking.len() - count,
        {
            let ghost rest = ranking.deep_view().skip(count as int);
            assert(rest.first() == ranking[count as int]@);
            assert(rest.drop_first() =~= ranking.deep_view().skip(count as int + 1));
            reached = reached + ranking[count].total as u128;
            count = count + 1;
            if reached >= target {
                done = true;
            }
        }
        count
    }

    /// The bus factor of a list of contributors, and the leading five with
    /// their shares of all commits.
    pub fn calculate_bus_factor(&self, contributors: &[ContributorStats]) -> (result:
        BusFactorResult)
        ensures
            result@ == bus_factor_view(contributors.deep_view()),
    {
        let total = self.sum_commits(contributors);
        if total == 0 {
            let top_contributors: Vec<TopContributor> = Vec::new();
            assert(top_contributors.deep_view() =~= Seq::empty());
            return BusFactorResult { bus_factor: 0, total_commits: 0, top_contributors };
        }
        let ranking = self.rank_contributors(contributors);
        let slice = ranking.as_slice();
        assert(slice.deep_view() =~= ranking.deep_view());
        let bus_factor = self.count_covering(slice, total / 2);

        proof {
            lemma_ranked_falls(contributors.deep_view());
            lemma_ranked_keeps_total(contributors.deep_view());
        }
        let listed: usize = if ranking.len() < 5 {
            ranking.len()
        } else {
            5
        };
        let mut top: Vec<TopContributor> = Vec::new();
        let mut i: usize = 0;
        while i < listed
            invariant
                i <= listed <= ranking.len(),
                total > 0,
                total == total_commits(ranking.deep_view()),
                top.len() == i,
                forall|j: int|
                    0 <= j < i ==> (#[trigger] top[j])@ == with_share(total as nat)(
                        ranking.deep_view()[j],
                    ),
            decreases listed - i,
        {
            let commits = ranking[i].total;
            proof {
                lemma_total_bounds_each(ranking.deep_view(), i as int);
                assert(commits as nat * 10_000 / (total as nat) <= 10_000) by (nonlinear_arith)
                    requires
                        commits as nat <= total as nat,
                        total > 0,
                ;
            }
            let share = (commits as u128 * 10_000 / total) as u32;
            top.push(
                TopContributor { login: ranking[i].author.login.clone(), commits, share },
            );
            i = i + 1;
        }
        assert(top.deep_view() =~= top_contributors(contributors.deep_view()));
        BusFactorResult { bus_factor, total_commits: total, top_contributors: top }
    }

    /// The score that a bus factor earns.
    pub fn score_bus_factor(&self, bus_factor: usize) -> (score: u32)
        ensures
            score == bus_factor_score(bus_factor as nat),
    {
        if bus_factor == 0 {
            0
        } else if bus_factor == 1 {
            1_000
        } else if bus_factor == 2 {
            4_000
        } else if bus_factor <= 4 {
            7_000
        } else {
            10_000
        }
    }

    /// Writes the finding on a leading contributor.
    pub fn describe_contributor(&self, c: &TopContributor, first: bool, total: u128) -> (finding:
        Finding)
        ensures
            finding@ == contributor_finding(c@, first, total as nat),
    {
        let mut line = String::from_str(c.login.as_str());
        line.append(": ");
        line.append(decimal(c.commits).as_str());
        line.append(" commits (");
        line.append(one_decimal_place((c.share as u64 + 5) / 10).as_str());
        line.append("%)");
        assert(line@ =~= contributor_line(c@));
        let most = total <= 0xFFFF_FFFF_FFFF_FFFF_FFFF && c.commits as u128 * 10 > total * 7;
        if first && most {
            line.append(" - High concentration of ownership");
            Finding::warning(line.as_str())
        } else {
            Finding::positive(line.as_str())
        }
    }
}

impl Analyzer for BusFactorAnalyzer {
    open spec fn label(&self) -> Seq<char> {
        "Bus Factor"@
    }

    open spec fn share(&self) -> nat {
        1_500
    }

    open spec fn report(&self, data: RepoDataView) -> AnalysisResultView {
        bus_factor_report(data)
    }

    fn name(&self) -> (name: &str) {
        "Bus Factor"
    }

    fn weight(&self) -> (weight: u32) {
        1_500
    }

    fn analyze(&self, data: &RepoData) -> (outcome: Result<AnalysisResult, RepoHealthError>)
        ensures
            outcome is Ok,
    {
        let mut findings: Vec<Finding> = Vec::new();
        if data.contributors.len() == 0 {
            record(&mut findings, Finding::warning("No contributor data available"));
            assert(findings.deep_view() =~= seq![warning("No contributor data available"@)]);
            return Ok(
                AnalysisResult {
                    score: 5_000,
                    details: String::from_str(
                        "Unable to calculate bus factor - no contributor data",
                    ),
                    findings,
                },
            );
        }
        let contributors = data.contributors.as_slice();
        assert(contributors.deep_view() =~= data@.contributors);
        let result = self.calculate_bus_factor(contributors);
        let score = self.score_bus_factor(result.bus_factor);

        let headline = numbered(
            "Bus factor: ",
            result.bus_factor as u64,
            " (minimum contributors accounting for 50% of commits)",
        );
        record(&mut findings, Finding::positive(headline.as_str()));

        let ghost top = top_contributors(data@.contributors);
        let ghost total = total_commits(data@.contributors);
        if result.top_contributors.len() > 0 {
            let mut size = String::from_str("Total contributors: ");
            size.append(decimal(data.contributors.len() as u64).as_str());
            record(&mut findings, Finding::positive(size.as_str()));
            let ghost base = findings.deep_view();
            let mut i: usize = 0;
            while i < result.top_contributors.len()
                invariant
                    i <= result.top_contributors.len(),
                    result@ == bus_factor_view(data@.contributors),
                    top == top_contributors(data@.contributors),
                    total == total_commits(data@.contributors),
                    total > 0,
                    findings.deep_view() == base + contributor_findings(top, total).take(i as int),
                decreases result.top_contributors.len() - i,
            {
                let finding = self.describe_contributor(
                    &result.top_contributors[i],
                    i == 0,
                    result.total_commits,
                );
                record(&mut findings, finding);
                assert(findings.deep_view() =~= base + contributor_findings(top, total).take(
                    i as int + 1,
                ));
                i = i + 1;
            }
            assert(contributor_findings(top, total).take(top.len() as int)
                =~= contributor_findings(top, total));
        }
        assert(findings.deep_view() =~= bus_factor_findings(data@.contributors));

        let details = if result.bus_factor == 0 {
            "No commit data available"
        } else if result.bus_factor == 1 {
            "Critical: Single person controls >50% of commits"
        } else if result.bus_factor == 2 {
            "Low: Two people control >50% of commits"
        } else if result.bus_factor <= 4 {
            "Moderate: Small team of 3-4 core contributors"
        } else {
            "Healthy: Well-distributed contributions"
        };
        Ok(AnalysisResult { score, details: String::from_str(details), findings })
    }
}

} // verus!

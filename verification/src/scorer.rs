//! Grades and the integer parts of the DASE score: severity totals, failure
//! counts and the runs whose score is fixed at 1000.

use vstd::prelude::*;

use crate::text::{decimal, push_decimal, push_str};
use crate::{all_categories, category_index, category_weight_tenths, TrapCategory, TrapResult};

verus! {

/// Weights (in thousandths, by category index; a category without one weighs
/// 1), the exponent of the failure ratio (in thousandths), and the score
/// thresholds of the S and A tiers.
#[derive(Debug, Clone, Copy)]
pub struct ScoringConfig {
    pub weights_permille: [Option<u32>; 6],
    pub exponent_permille: u32,
    pub s_tier: u16,
    pub a_tier: u16,
}

impl ScoringConfig {
    /// The weight of a category, in thousandths: its configured weight, or 1000
    /// where it has none.
    pub fn weight_permille(&self, c: TrapCategory) -> (w: u32)
        ensures
            w == match self.weights_permille@[category_index(c)] {
                Some(v) => v,
                None => 1000,
            },
    {
        match self.weights_permille[c.index()] {
            Some(v) => v,
            None => 1000,
        }
    }
}

impl Default for ScoringConfig {
    /// Each category weighted by its own weight, exponent 0.85, S from 900, A from 850.
    fn default() -> (c: ScoringConfig)
        ensures
            forall|i: int|
                0 <= i < 6 ==> c.weights_permille@[i] == Some(
                    (category_weight_tenths(all_categories()[i]) * 100) as u32,
                ),
            c.exponent_permille == 850,
            c.s_tier == 900,
            c.a_tier == 850,
    {
        let weights_permille = [
            Some(TrapCategory::SqlLogic.weight_tenths() * 100),
            Some(TrapCategory::NullHandling.weight_tenths() * 100),
            Some(TrapCategory::TypeCoercion.weight_tenths() * 100),
            Some(TrapCategory::JoinComplexity.weight_tenths() * 100),
            Some(TrapCategory::RecursionDepth.weight_tenths() * 100),
            Some(TrapCategory::ArithmeticEdge.weight_tenths() * 100),
        ];
        ScoringConfig { weights_permille, exponent_permille: 850, s_tier: 900, a_tier: 850 }
    }
}

/// Sum of the severities of the traps in `results`.
pub open spec fn severity_sum(results: Seq<TrapResult>) -> int
    decreases results.len(),
{
    if results.len() == 0 {
        0
    } else {
        severity_sum(results.drop_last()) + results.last().trap.severity
    }
}

/// Number of results that did not pass.
pub open spec fn failures(results: Seq<TrapResult>) -> int
    decreases results.len(),
{
    if results.len() == 0 {
        0
    } else {
        failures(results.drop_last()) + if results.last().passed { 0int } else { 1int }
    }
}

proof fn lemma_severity_sum_bound(results: Seq<TrapResult>)
    ensures
        0 <= severity_sum(results) <= 255 * results.len(),
    decreases results.len(),
{
    if results.len() > 0 {
        lemma_severity_sum_bound(results.drop_last());
    }
}

/// Adding a result adds its severity to the total: the total is the plain sum
/// of the severities, with nothing wrapped or capped.
pub proof fn lemma_severity_sum_push(results: Seq<TrapResult>, r: TrapResult)
    ensures
        severity_sum(results.push(r)) == severity_sum(results) + r.trap.severity,
{
    assert(results.push(r).drop_last() =~= results);
}

/// The total of two runs put together is the sum of their totals; so adding
/// results never lowers the total.
pub proof fn lemma_severity_sum_append(a: Seq<TrapResult>, b: Seq<TrapResult>)
    ensures
        severity_sum(a + b) == severity_sum(a) + severity_sum(b),
        severity_sum(a) <= severity_sum(a + b),
    decreases b.len(),
{
    if b.len() == 0 {
        assert(a + b =~= a);
    } else {
        lemma_severity_sum_append(a, b.drop_last());
        assert((a + b).drop_last() =~= a + b.drop_last());
        assert((a + b).last() == b.last());
        lemma_severity_sum_bound(b);
    }
}

/// The total is at least the severity of each result in the run.
pub proof fn lemma_severity_sum_covers_each(results: Seq<TrapResult>, i: int)
    requires
        0 <= i < results.len(),
    ensures
        results[i].trap.severity <= severity_sum(results),
{
    let a = results.take(i);
    let b = results.skip(i);
    assert(a + b =~= results);
    lemma_severity_sum_append(a, b);
    assert(b =~= seq![results[i]] + b.skip(1));
    lemma_severity_sum_append(seq![results[i]], b.skip(1));
    lemma_severity_sum_bound(b.skip(1));
    let one = seq![results[i]];
    assert(one.drop_last() =~= Seq::<TrapResult>::empty());
    assert(severity_sum(one.drop_last()) == 0);
    assert(severity_sum(one) == results[i].trap.severity);
    lemma_severity_sum_bound(a);
}

/// Adding a result adds one failure exactly when it did not pass.
pub proof fn lemma_failures_push(results: Seq<TrapResult>, r: TrapResult)
    ensures
        failures(results.push(r)) == failures(results) + if r.passed { 0int } else { 1int },
{
    assert(results.push(r).drop_last() =~= results);
}

/// A run scores a fixed 1000 exactly when it is empty or every trap in it has
/// severity 0; a run with any trap of positive severity is weighed.
pub proof fn lemma_fixed_score_runs(results: Seq<TrapResult>, i: int)
    requires
        0 <= i < results.len(),
        results[i].trap.severity > 0,
    ensures
        severity_sum(results) > 0,
{
    lemma_severity_sum_covers_each(results, i);
}

/// At most every result fails.
pub proof fn lemma_failures_bound(results: Seq<TrapResult>)
    ensures
        0 <= failures(results) <= results.len(),
    decreases results.len(),
{
    if results.len() > 0 {
        lemma_failures_bound(results.drop_last());
    }
}

/// Total severity of the traps in `results`.
pub fn severity_total(results: &[TrapResult]) -> (t: u128)
    ensures
        t == severity_sum(results@),
{
    let mut t: u128 = 0;
    let mut i: usize = 0;
    let len: usize = results.len();
    while i < len
        invariant
            len == results@.len(),
            i <= results@.len(),
            t == severity_sum(results@.take(i as int)),
        decreases results@.len() - i,
    {
        proof {
            assert(results@.take(i + 1).drop_last() =~= results@.take(i as int));
            lemma_severity_sum_bound(results@.take(i as int));
        }
        t = t + results[i].trap.severity as u128;
        i = i + 1;
    }
    assert(results@.take(results@.len() as int) =~= results@);
    t
}

/// Number of results that did not pass.
pub fn failed_count(results: &[TrapResult]) -> (n: usize)
    ensures
        n == failures(results@),
{
    let mut n: usize = 0;
    let mut i: usize = 0;
    while i < results.len()
        invariant
            i <= results@.len(),
            n == failures(results@.take(i as int)),
        decreases results@.len() - i,
    {
        proof {
            assert(results@.take(i + 1).drop_last() =~= results@.take(i as int));
            lemma_failures_bound(results@.take(i as int));
        }
        if !results[i].passed {
            n = n + 1;
        }
        i = i + 1;
    }
    assert(results@.take(results@.len() as int) =~= results@);
    n
}

/// The score of a run that needs no weighing: an empty run, or one whose traps
/// all have severity 0, scores 1000; any other run is weighed by its failures.
pub fn fixed_score(results: &[TrapResult]) -> (s: Option<u16>)
    ensures
        s == (if results@.len() == 0 || severity_sum(results@) == 0 {
            Some(1000u16)
        } else {
            None
        }),
{
    if results.len() == 0 {
        return Some(1000);
    }
    let total: u128 = severity_total(results);
    if total == 0 {
        return Some(1000);
    }
    None
}

/// The tier name for `score` with thresholds `s_tier` and `a_tier`.
pub open spec fn tier_label(score: u16, s_tier: u16, a_tier: u16) -> Seq<char> {
    if score >= s_tier {
        "S-Tier (Production Ready)"@
    } else if score >= a_tier {
        "A-Tier (Certifiable)"@
    } else if score >= 700 {
        "B-Tier (Needs Hardening)"@
    } else if score >= 500 {
        "C-Tier (Risky)"@
    } else {
        "F-Tier (Catastrophic)"@
    }
}

/// The rank of the tier for `score`: 4 for S down to 0 for F.
pub open spec fn tier_rank(score: u16, s_tier: u16, a_tier: u16) -> int {
    if score >= s_tier {
        4
    } else if score >= a_tier {
        3
    } else if score >= 700 {
        2
    } else if score >= 500 {
        1
    } else {
        0
    }
}

/// The grade text: tier name, then the score out of 1000 in brackets.
pub open spec fn grade_text(score: u16, s_tier: u16, a_tier: u16) -> Seq<char> {
    tier_label(score, s_tier, a_tier) + " ["@ + decimal(score as nat) + "/1000]"@
}

/// Grades a score against the thresholds of `config`.
pub fn grade_with_config(score: u16, config: &ScoringConfig) -> (g: String)
    ensures
        g@ == grade_text(score, config.s_tier, config.a_tier),
{
    let mut g = String::new();
    if score >= config.s_tier {
        push_str(&mut g, "S-Tier (Production Ready)");
    } else if score >= config.a_tier {
        push_str(&mut g, "A-Tier (Certifiable)");
    } else if score >= 700 {
        push_str(&mut g, "B-Tier (Needs Hardening)");
    } else if score >= 500 {
        push_str(&mut g, "C-Tier (Risky)");
    } else {
        push_str(&mut g, "F-Tier (Catastrophic)");
    }
    push_str(&mut g, " [");
    push_decimal(&mut g, score as u64);
    push_str(&mut g, "/1000]");
    assert(g@ =~= grade_text(score, config.s_tier, config.a_tier));
    g
}

/// Grades a score with the default thresholds (S from 900, A from 850).
pub fn grade_from_score(score: u16) -> (g: String)
    ensures
        g@ == grade_text(score, 900, 850),
{
    let config = ScoringConfig::default();
    grade_with_config(score, &config)
}

/// The grade names the tier and then the score out of 1000: S from the S
/// threshold up, A from the A threshold below it, B from 700, C from 500, and F
/// below every threshold.
pub proof fn lemma_grade_tiers(score: u16, s_tier: u16, a_tier: u16)
    ensures
        score >= s_tier ==> grade_text(score, s_tier, a_tier) == "S-Tier (Production Ready)"@ + " ["@ + decimal(
            score as nat,
        ) + "/1000]"@,
        score < s_tier && score >= a_tier ==> grade_text(score, s_tier, a_tier)
            == "A-Tier (Certifiable)"@ + " ["@ + decimal(score as nat) + "/1000]"@,
        score < s_tier && score < a_tier && score >= 700 ==> grade_text(score, s_tier, a_tier)
            == "B-Tier (Needs Hardening)"@ + " ["@ + decimal(score as nat) + "/1000]"@,
        score < s_tier && score < a_tier && 500 <= score < 700 ==> grade_text(score, s_tier, a_tier)
            == "C-Tier (Risky)"@ + " ["@ + decimal(score as nat) + "/1000]"@,
        score < s_tier && score < a_tier && score < 500 ==> grade_text(score, s_tier, a_tier)
            == "F-Tier (Catastrophic)"@ + " ["@ + decimal(score as nat) + "/1000]"@,
{
}

/// A higher score never earns a lower tier, whatever the thresholds.
pub proof fn lemma_tier_monotone(low: u16, high: u16, s_tier: u16, a_tier: u16)
    requires
        low <= high,
    ensures
        tier_rank(low, s_tier, a_tier) <= tier_rank(high, s_tier, a_tier),
{
}

/// The tier name follows the tier rank.
pub proof fn lemma_tier_label_of_rank(score: u16, s_tier: u16, a_tier: u16)
    ensures
        tier_rank(score, s_tier, a_tier) == 4 ==> tier_label(score, s_tier, a_tier)
            == "S-Tier (Production Ready)"@,
        tier_rank(score, s_tier, a_tier) == 3 ==> tier_label(score, s_tier, a_tier)
            == "A-Tier (Certifiable)"@,
        tier_rank(score, s_tier, a_tier) == 2 ==> tier_label(score, s_tier, a_tier)
            == "B-Tier (Needs Hardening)"@,
        tier_rank(score, s_tier, a_tier) == 1 ==> tier_label(score, s_tier, a_tier)
            == "C-Tier (Risky)"@,
        tier_rank(score, s_tier, a_tier) == 0 ==> tier_label(score, s_tier, a_tier)
            == "F-Tier (Catastrophic)"@,
{
}

} // verus!

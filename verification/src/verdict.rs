//! Judging a target program against a trap.

use vstd::prelude::*;

use crate::analyzer::AnalysisReport;
use crate::outside::{to_upper, upper_case};
use crate::random::{draw_ratio, draw_word, fresh, ratio_draw, seeded, word_draw, Draw, RngState, SeededRng};
use crate::text::{chars_of, has_literal, has_text};
use crate::{Trap, TrapCategory};

verus! {

/// Whether the target, with its analysis, defends against a trap of the given
/// category, before any noise.
pub open spec fn defends(category: TrapCategory, target: Seq<char>, a: AnalysisReport) -> bool {
    let upper = upper_case(target);
    match category {
        TrapCategory::NullHandling => a.null_checks > 0 && a.safe_guards > 0 && !a.has_unsafe_unwrap,
        TrapCategory::SqlLogic => has_text(upper, "IS NULL"@) || has_text(upper, "IS NOT NULL"@)
            || has_text(target, "COALESCE"@) || has_text(target, "IFNULL"@),
        TrapCategory::TypeCoercion => !a.has_unchecked_index && (a.safe_guards > 0 || has_text(
            target,
            "checked_sub"@,
        ) || has_text(target, "len() <"@)),
        TrapCategory::ArithmeticEdge => has_text(target, "!= 0"@) || has_text(target, "checked_div"@)
            || has_text(target, "NonZero"@) || a.safe_guards >= 2,
        TrapCategory::JoinComplexity => (has_text(target, "LEFT"@) && has_text(upper, "WHERE"@)
            && has_text(upper, " ON "@)) || has_text(target, "COALESCE"@),
        TrapCategory::RecursionDepth => has_text(target, "checked_shl"@) || has_text(
            target,
            "checked_mul"@,
        ) || has_text(target, "saturating_"@),
    }
}


/// What counts as a defence, category by category: for the `NOT IN` trap an
/// `IS NULL` or `IS NOT NULL` test (in any case), `COALESCE` or `IFNULL`; for the
/// null-safety trap a `None` check, a guard and no unchecked `unwrap`; for the
/// boundary trap no unchecked indexing and a guard, `checked_sub` or a `len() <`
/// bound; for the division trap a `!= 0` test, `checked_div`, `NonZero` or two
/// guards; for the `LEFT JOIN` trap a `LEFT` join with `WHERE` and ` ON ` (in any
/// case), or `COALESCE`; for the shift trap `checked_shl`, `checked_mul` or
/// saturating arithmetic.
pub proof fn lemma_what_defends(category: TrapCategory, target: Seq<char>, a: AnalysisReport)
    ensures
        category == TrapCategory::SqlLogic ==> (defends(category, target, a) <==> (has_text(
            upper_case(target),
            "IS NULL"@,
        ) || has_text(upper_case(target), "IS NOT NULL"@) || has_text(target, "COALESCE"@)
            || has_text(target, "IFNULL"@))),
        category == TrapCategory::NullHandling ==> (defends(category, target, a) <==> (a.null_checks
            > 0 && a.safe_guards > 0 && !a.has_unsafe_unwrap)),
        category == TrapCategory::TypeCoercion ==> (defends(category, target, a) <==> (
        !a.has_unchecked_index && (a.safe_guards > 0 || has_text(target, "checked_sub"@) || has_text(
            target,
            "len() <"@,
        )))),
        category == TrapCategory::ArithmeticEdge ==> (defends(category, target, a) <==> (has_text(
            target,
            "!= 0"@,
        ) || has_text(target, "checked_div"@) || has_text(target, "NonZero"@) || a.safe_guards >= 2)),
        category == TrapCategory::JoinComplexity ==> (defends(category, target, a) <==> ((has_text(
            target,
            "LEFT"@,
        ) && has_text(upper_case(target), "WHERE"@) && has_text(upper_case(target), " ON "@))
            || has_text(target, "COALESCE"@))),
        category == TrapCategory::RecursionDepth ==> (defends(category, target, a) <==> (has_text(
            target,
            "checked_shl"@,
        ) || has_text(target, "checked_mul"@) || has_text(target, "saturating_"@))),
{
}

/// Decides whether the target defends against a trap of `category`.
pub fn defends_against(category: TrapCategory, target: &str, analysis: &AnalysisReport) -> (r: bool)
    ensures
        r == defends(category, target@, *analysis),
        category == TrapCategory::SqlLogic ==> (r <==> (has_text(upper_case(target@), "IS NULL"@)
            || has_text(upper_case(target@), "IS NOT NULL"@) || has_text(target@, "COALESCE"@)
            || has_text(target@, "IFNULL"@))),
        category == TrapCategory::NullHandling ==> (r <==> (analysis.null_checks > 0
            && analysis.safe_guards > 0 && !analysis.has_unsafe_unwrap)),
        category == TrapCategory::TypeCoercion ==> (r <==> (!analysis.has_unchecked_index && (
        analysis.safe_guards > 0 || has_text(target@, "checked_sub"@) || has_text(target@, "len() <"@)))),
        category == TrapCategory::ArithmeticEdge ==> (r <==> (has_text(target@, "!= 0"@) || has_text(
            target@,
            "checked_div"@,
        ) || has_text(target@, "NonZero"@) || analysis.safe_guards >= 2)),
        category == TrapCategory::JoinComplexity ==> (r <==> ((has_text(target@, "LEFT"@) && has_text(
            upper_case(target@),
            "WHERE"@,
        ) && has_text(upper_case(target@), " ON "@)) || has_text(target@, "COALESCE"@))),
        category == TrapCategory::RecursionDepth ==> (r <==> (has_text(target@, "checked_shl"@)
            || has_text(target@, "checked_mul"@) || has_text(target@, "saturating_"@))),
{
    let text = chars_of(target);
    match category {
        TrapCategory::NullHandling => {
            analysis.null_checks > 0 && analysis.safe_guards > 0 && !analysis.has_unsafe_unwrap
        },
        TrapCategory::SqlLogic => {
            let upper_s = to_upper(target);
            let upper = chars_of(upper_s.as_str());
            has_literal(&upper, "IS NULL") || has_literal(&upper, "IS NOT NULL") || has_literal(
                &text,
                "COALESCE",
            ) || has_literal(&text, "IFNULL")
        },
        TrapCategory::TypeCoercion => {
            !analysis.has_unchecked_index && (analysis.safe_guards > 0 || has_literal(
                &text,
                "checked_sub",
            ) || has_literal(&text, "len() <"))
        },
        TrapCategory::ArithmeticEdge => {
            has_literal(&text, "!= 0") || has_literal(&text, "checked_div") || has_literal(&text, "NonZero")
                || analysis.safe_guards >= 2
        },
        TrapCategory::JoinComplexity => {
            let upper_s = to_upper(target);
            let upper = chars_of(upper_s.as_str());
            let has_where = has_literal(&upper, "WHERE");
            let has_on = has_literal(&upper, " ON ");
            let mentions_preserve = has_literal(&text, "LEFT") && has_where && has_on;
            mentions_preserve || has_literal(&text, "COALESCE")
        },
        TrapCategory::RecursionDepth => {
            has_literal(&text, "checked_shl") || has_literal(&text, "checked_mul") || has_literal(
                &text,
                "saturating_",
            )
        },
    }
}

/// The verdict on one trap: whether the target defends against it, whether the
/// 12-in-100 noise draw flipped that, the final outcome, and the raw word drawn
/// next, from which the confidence in the outcome is made.
#[derive(Debug, Clone, Copy, PartialEq, Eq, Structural)]
pub struct Judgement {
    pub defended: bool,
    pub noise: bool,
    pub passed: bool,
    pub confidence_word: u32,
}

/// The noise draw of a judgement: 12 in 100.
pub open spec fn noise_draw() -> Draw {
    Draw::Ratio(12, 100)
}

/// The judgement a verifier whose generator is in `state` gives on a trap of
/// `category` against `target`: the noise is the generator's next 12-in-100
/// draw, and the confidence word the raw word drawn after it.
pub open spec fn judgement(state: RngState, category: TrapCategory, target: Seq<char>, a: AnalysisReport) -> Judgement {
    let defended = defends(category, target, a);
    let noise = ratio_draw(state, 12, 100);
    Judgement {
        defended,
        noise,
        passed: defended != noise,
        confidence_word: word_draw(state.after(noise_draw())),
    }
}

/// The generator's state after one judgement: the noise draw, then the word.
pub open spec fn after_judgement(state: RngState) -> RngState {
    state.after(noise_draw()).after(Draw::Word)
}

/// Judges targets against traps, with a seeded source of noise.
pub struct Verifier {
    rng: SeededRng,
}

impl Verifier {
    /// The state of the verifier's generator.
    pub closed spec fn state(&self) -> RngState {
        self.rng@
    }

    /// A verifier whose generator is seeded with `seed`.
    pub fn new(seed: u64) -> (v: Verifier)
        ensures
            v.state() == fresh(seed),
    {
        Verifier { rng: seeded(seed) }
    }

    /// Judges `target` against `trap`: the outcome is whether it defends against
    /// the trap's category, flipped when a 12-in-100 noise draw comes up; then one
    /// raw word is drawn for the confidence.
    pub fn judge(&mut self, trap: &Trap, target: &str, analysis: &AnalysisReport) -> (j: Judgement)
        ensures
            j == judgement(old(self).state(), trap.category, target@, *analysis),
            final(self).state() == after_judgement(old(self).state()),
            j.defended == defends(trap.category, target@, *analysis),
            j.noise == ratio_draw(old(self).state(), 12, 100),
            j.passed == (j.defended != j.noise),
            !j.noise ==> j.passed == j.defended,
            j.confidence_word == word_draw(old(self).state().after(Draw::Ratio(12, 100))),
            final(self).state() == old(self).state().after(Draw::Ratio(12, 100)).after(Draw::Word),
    {
        let defended = defends_against(trap.category, target, analysis);
        let noise = draw_ratio(&mut self.rng, 12, 100);
        let confidence_word = draw_word(&mut self.rng);
        Judgement { defended, noise, passed: if defended { !noise } else { noise }, confidence_word }
    }
}

/// Two verifiers whose generators are in the same state (as two verifiers made
/// with the same seed are) judge the same trap and target alike, and are again
/// in the same state afterwards.
pub proof fn lemma_judging_is_deterministic(
    a: &Verifier,
    b: &Verifier,
    category: TrapCategory,
    target: Seq<char>,
    analysis: AnalysisReport,
)
    requires
        a.state() == b.state(),
    ensures
        judgement(a.state(), category, target, analysis) == judgement(b.state(), category, target, analysis),
        after_judgement(a.state()) == after_judgement(b.state()),
{
}

} // verus!

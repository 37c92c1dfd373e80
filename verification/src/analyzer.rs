//! Heuristic static analysis of a target program: unsafe unwraps, unchecked
//! indexing, branching complexity and defensive guards.

use vstd::prelude::*;

use crate::outside::{sql_parses, sql_statements_parse};
use crate::text::{chars_of, count_occurrences, count_text, has_literal, has_text, lemma_count_text_bound};

verus! {

/// What the analysis found in a target program.
#[derive(Debug, Clone, Copy, PartialEq, Eq, Structural)]
pub struct AnalysisReport {
    pub has_unsafe_unwrap: bool,
    pub has_unchecked_index: bool,
    pub has_expect: bool,
    pub cyclomatic_complexity: u32,
    pub null_checks: u32,
    pub safe_guards: u32,
}

impl Default for AnalysisReport {
    fn default() -> (r: AnalysisReport)
        ensures
            r == (AnalysisReport {
                has_unsafe_unwrap: false,
                has_unchecked_index: false,
                has_expect: false,
                cyclomatic_complexity: 0,
                null_checks: 0,
                safe_guards: 0,
            }),
    {
        AnalysisReport {
            has_unsafe_unwrap: false,
            has_unchecked_index: false,
            has_expect: false,
            cyclomatic_complexity: 0,
            null_checks: 0,
            safe_guards: 0,
        }
    }
}

/// What a walk over the syntax tree of a program that parses as a Rust file found:
/// whether any method call is named `unwrap` or `expect`, how many are named `get`,
/// whether any expression indexes, and how many expressions are `if` expressions.
#[derive(Debug, Clone, Copy, PartialEq, Eq, Structural)]
pub struct SyntaxFacts {
    pub calls_unwrap: bool,
    pub calls_expect: bool,
    pub get_calls: u32,
    pub has_index: bool,
    pub if_exprs: u32,
}

/// The branching keywords that the text fallback counts.
pub open spec fn branch_keyword_count(code: Seq<char>) -> int {
    (count_text(code, "if"@) as u32) + (count_text(code, "for"@) as u32) + (count_text(
        code,
        "while"@,
    ) as u32) + (count_text(code, "match"@) as u32)
}

/// The program mentions an `Option` test, an `if let` or the `?` operator.
pub open spec fn mentions_null_guard(code: Seq<char>) -> bool {
    has_text(code, "is_some"@) || has_text(code, "is_none"@) || has_text(code, "if let"@)
        || has_text(code, "?"@)
}

/// The program mentions checked or saturating arithmetic.
pub open spec fn mentions_safe_arith(code: Seq<char>) -> bool {
    has_text(code, "checked_"@) || has_text(code, "saturating_"@)
}

/// Complexity before the guard bonuses: one plus the `if` expressions of the
/// syntax tree, or one plus the branching keywords of the text when it does not parse.
pub open spec fn raw_complexity(code: Seq<char>, facts: Option<SyntaxFacts>) -> int {
    match facts {
        Some(f) => 1 + f.if_exprs,
        None => 1 + branch_keyword_count(code),
    }
}

/// Guards before the bonuses: the `get` calls of the syntax tree (none for the fallback).
pub open spec fn raw_guards(facts: Option<SyntaxFacts>) -> int {
    match facts {
        Some(f) => f.get_calls as int,
        None => 0,
    }
}

/// Guards after the bonuses for `Option` tests and safe arithmetic.
pub open spec fn total_guards(code: Seq<char>, facts: Option<SyntaxFacts>) -> int {
    raw_guards(facts) + (if mentions_null_guard(code) { 1int } else { 0 }) + (if mentions_safe_arith(
        code,
    ) {
        2int
    } else {
        0
    })
}

/// Every counter of the analysis fits in a `u32`.
pub open spec fn counters_fit(code: Seq<char>, facts: Option<SyntaxFacts>) -> bool {
    raw_complexity(code, facts) <= u32::MAX && total_guards(code, facts) <= u32::MAX
}

/// The report the analysis gives for `code`, whose syntax walk gave `facts`
/// (`None` when the code does not parse as a Rust file).
pub open spec fn analysis_of(code: Seq<char>, facts: Option<SyntaxFacts>) -> AnalysisReport {
    AnalysisReport {
        has_unsafe_unwrap: match facts {
            Some(f) => f.calls_unwrap,
            None => has_text(code, ".unwrap()"@),
        },
        has_unchecked_index: match facts {
            Some(f) => f.has_index,
            None => has_text(code, "[0]"@) || has_text(code, "[1]"@),
        },
        has_expect: match facts {
            Some(f) => f.calls_expect,
            None => false,
        },
        cyclomatic_complexity: raw_complexity(code, facts) as u32,
        null_checks: if mentions_null_guard(code) { 1 } else { 0 },
        safe_guards: total_guards(code, facts) as u32,
    }
}

/// Number of non-overlapping occurrences of the literal `lit` in `hay`.
fn count_lit(hay: &Vec<char>, lit: &str) -> (r: usize)
    requires
        lit@.len() > 0,
    ensures
        r == count_text(hay@, lit@),
        r <= hay@.len(),
{
    let n = chars_of(lit);
    let c: usize = count_occurrences(hay.as_slice(), n.as_slice());
    proof {
        lemma_count_text_bound(hay@, lit@);
        assert(c <= c * lit@.len()) by (nonlinear_arith)
            requires
                lit@.len() > 0,
        ;
    }
    c
}

/// Branching keyword counts of the fallback, as the analysis adds them up.
fn keyword_counts(code: &Vec<char>) -> (r: (u64, u64, u64, u64))
    ensures
        r.0 == count_text(code@, "if"@) as u32,
        r.1 == count_text(code@, "for"@) as u32,
        r.2 == count_text(code@, "while"@) as u32,
        r.3 == count_text(code@, "match"@) as u32,
{
    proof {
        reveal_strlit("if");
        reveal_strlit("for");
        reveal_strlit("while");
        reveal_strlit("match");
    }
    let c_if: u32 = count_lit(code, "if") as u32;
    let c_for: u32 = count_lit(code, "for") as u32;
    let c_while: u32 = count_lit(code, "while") as u32;
    let c_match: u32 = count_lit(code, "match") as u32;
    (c_if as u64, c_for as u64, c_while as u64, c_match as u64)
}

/// Whether every counter of the analysis of `code` fits in a `u32`; the analysis
/// may only run when it does.
pub fn analysis_counters_fit(code: &str, facts: &Option<SyntaxFacts>) -> (r: bool)
    ensures
        r == counters_fit(code@, *facts),
{
    let text = chars_of(code);
    let complexity: u64 = match facts {
        Some(f) => 1 + f.if_exprs as u64,
        None => {
            let (a, b, c, d) = keyword_counts(&text);
            1 + a + b + c + d
        },
    };
    let guards: u64 = (match facts {
        Some(f) => f.get_calls as u64,
        None => 0,
    }) + (if null_guard_mentioned(&text) { 1 } else { 0 }) + (if safe_arith_mentioned(&text) {
        2
    } else {
        0
    });
    complexity <= 0xffff_ffff && guards <= 0xffff_ffff
}

fn null_guard_mentioned(code: &Vec<char>) -> (r: bool)
    ensures
        r == mentions_null_guard(code@),
{
    has_literal(code, "is_some") || has_literal(code, "is_none") || has_literal(code, "if let") || has_literal(
        code,
        "?",
    )
}

fn safe_arith_mentioned(code: &Vec<char>) -> (r: bool)
    ensures
        r == mentions_safe_arith(code@),
{
    has_literal(code, "checked_") || has_literal(code, "saturating_")
}

/// Analyzes a target program. `facts` is what a walk over its syntax tree found,
/// or `None` when it does not parse as a Rust file; then the text itself is
/// searched for `.unwrap()`, `[0]`/`[1]` and branching keywords. In both cases
/// mentions of `Option` tests, `if let`, `?` and checked or saturating
/// arithmetic count as guards.
pub fn analyze_code(code: &str, facts: &Option<SyntaxFacts>) -> (r: AnalysisReport)
    requires
        counters_fit(code@, *facts),
    ensures
        r == analysis_of(code@, *facts),
        match *facts {
            Some(f) => r.has_unsafe_unwrap == f.calls_unwrap && r.has_expect == f.calls_expect
                && r.has_unchecked_index == f.has_index && r.cyclomatic_complexity == 1 + f.if_exprs,
            None => r.has_unsafe_unwrap == has_text(code@, ".unwrap()"@) && !r.has_expect
                && r.has_unchecked_index == (has_text(code@, "[0]"@) || has_text(code@, "[1]"@))
                && r.cyclomatic_complexity == 1 + (count_text(code@, "if"@) as u32) + (count_text(
                code@,
                "for"@,
            ) as u32) + (count_text(code@, "while"@) as u32) + (count_text(code@, "match"@) as u32),
        },
        r.null_checks == (if has_text(code@, "is_some"@) || has_text(code@, "is_none"@) || has_text(
            code@,
            "if let"@,
        ) || has_text(code@, "?"@) {
            1int
        } else {
            0int
        }),
        r.safe_guards == (match *facts {
            Some(f) => f.get_calls as int,
            None => 0int,
        }) + r.null_checks + (if has_text(code@, "checked_"@) || has_text(code@, "saturating_"@) {
            2int
        } else {
            0int
        }),
{
    let text = chars_of(code);
    let mut report = AnalysisReport { cyclomatic_complexity: 1, ..Default::default() };
    match facts {
        Some(f) => {
            report.has_unsafe_unwrap = f.calls_unwrap;
            report.has_expect = f.calls_expect;
            report.safe_guards = f.get_calls;
            report.has_unchecked_index = f.has_index;
            report.cyclomatic_complexity = 1 + f.if_exprs;
        },
        None => {
            if has_literal(&text, ".unwrap()") {
                report.has_unsafe_unwrap = true;
            }
            if has_literal(&text, "[0]") || has_literal(&text, "[1]") {
                report.has_unchecked_index = true;
            }
            let (a, b, c, d) = keyword_counts(&text);
            report.cyclomatic_complexity = (1 + a + b + c + d) as u32;
        },
    }
    if null_guard_mentioned(&text) {
        report.safe_guards = report.safe_guards + 1;
        report.null_checks = report.null_checks + 1;
    }
    if safe_arith_mentioned(&text) {
        report.safe_guards = report.safe_guards + 2;
    }
    report
}

/// What the analysis reports: for code that parses, the unwrap, expect and
/// index flags are those of the syntax walk and the complexity is one more than
/// its `if` expressions; otherwise the text is searched for `.unwrap()` and
/// `[0]`/`[1]`, `expect` is not reported, and the complexity is one more than
/// the occurrences of `if`, `for`, `while` and `match`. Each `Option` test mention (one in
/// all) adds a null check and a guard, checked or saturating arithmetic two
/// guards, and each `get` call of the walk one guard.
pub proof fn lemma_analysis_reads_facts(code: Seq<char>, facts: Option<SyntaxFacts>)
    requires
        counters_fit(code, facts),
    ensures
        facts matches Some(f) ==> analysis_of(code, facts).has_unchecked_index == f.has_index
            && analysis_of(code, facts).has_unsafe_unwrap == f.calls_unwrap && analysis_of(
            code,
            facts,
        ).has_expect == f.calls_expect && analysis_of(code, facts).cyclomatic_complexity == 1
            + f.if_exprs,
        facts is None ==> analysis_of(code, facts).has_unchecked_index == (has_text(code, "[0]"@)
            || has_text(code, "[1]"@)) && analysis_of(code, facts).has_unsafe_unwrap == has_text(
            code,
            ".unwrap()"@,
        ) && !analysis_of(code, facts).has_expect && analysis_of(code, facts).cyclomatic_complexity
            == 1 + (count_text(code, "if"@) as u32) + (count_text(code, "for"@) as u32) + (count_text(
            code,
            "while"@,
        ) as u32) + (count_text(code, "match"@) as u32),
        analysis_of(code, facts).null_checks == (if has_text(code, "is_some"@) || has_text(
            code,
            "is_none"@,
        ) || has_text(code, "if let"@) || has_text(code, "?"@) {
            1int
        } else {
            0int
        }),
        analysis_of(code, facts).safe_guards == (match facts {
            Some(f) => f.get_calls as int,
            None => 0int,
        }) + analysis_of(code, facts).null_checks + (if has_text(code, "checked_"@) || has_text(
            code,
            "saturating_"@,
        ) {
            2int
        } else {
            0int
        }),
{
}

/// Every `Option` test that the analysis counts also counts as a guard.
pub proof fn lemma_guards_cover_null_checks(code: Seq<char>, facts: Option<SyntaxFacts>)
    requires
        counters_fit(code, facts),
    ensures
        analysis_of(code, facts).null_checks <= analysis_of(code, facts).safe_guards,
        analysis_of(code, facts).cyclomatic_complexity >= 1,
{
}

/// Whether `sql` parses as a sequence of SQL statements in the generic dialect.
pub fn analyze_sql_validity(sql: &str) -> (r: bool)
    ensures
        r == sql_statements_parse(sql@),
{
    sql_parses(sql)
}

} // verus!

//! Trap generation, static analysis heuristics, verification and scoring
//! for the DASE stress-testing engine.

pub mod analyzer;
pub mod api;
pub mod generator;
pub mod outside;
pub mod random;
pub mod report;
pub mod scorer;
pub mod verdict;
pub mod text;

use vstd::prelude::*;

verus! {

/// The kind of defect a trap probes for.
#[derive(Debug, Clone, Copy, PartialEq, Eq, Hash, Structural)]
pub enum TrapCategory {
    SqlLogic,
    NullHandling,
    TypeCoercion,
    JoinComplexity,
    RecursionDepth,
    ArithmeticEdge,
}

/// Every category, in declaration order.
pub open spec fn all_categories() -> Seq<TrapCategory> {
    seq![
        TrapCategory::SqlLogic,
        TrapCategory::NullHandling,
        TrapCategory::TypeCoercion,
        TrapCategory::JoinComplexity,
        TrapCategory::RecursionDepth,
        TrapCategory::ArithmeticEdge,
    ]
}

/// Scoring weight of a category, in tenths.
pub open spec fn category_weight_tenths(c: TrapCategory) -> u32 {
    match c {
        TrapCategory::NullHandling => 15,
        TrapCategory::SqlLogic => 14,
        TrapCategory::ArithmeticEdge => 13,
        TrapCategory::JoinComplexity => 12,
        TrapCategory::TypeCoercion => 11,
        TrapCategory::RecursionDepth => 10,
    }
}

/// Position of a category in `all_categories()`.
pub open spec fn category_index(c: TrapCategory) -> int {
    match c {
        TrapCategory::SqlLogic => 0,
        TrapCategory::NullHandling => 1,
        TrapCategory::TypeCoercion => 2,
        TrapCategory::JoinComplexity => 3,
        TrapCategory::RecursionDepth => 4,
        TrapCategory::ArithmeticEdge => 5,
    }
}

impl TrapCategory {
    /// Scoring weight of the category in tenths (the weight is this value / 10).
    pub fn weight_tenths(&self) -> (w: u32)
        ensures
            w == category_weight_tenths(*self),
    {
        match self {
            TrapCategory::NullHandling => 15,
            TrapCategory::SqlLogic => 14,
            TrapCategory::ArithmeticEdge => 13,
            TrapCategory::JoinComplexity => 12,
            TrapCategory::TypeCoercion => 11,
            TrapCategory::RecursionDepth => 10,
        }
    }

    /// Position of the category in the list returned by `all`.
    pub fn index(&self) -> (i: usize)
        ensures
            i == category_index(*self),
            i < 6,
    {
        match self {
            TrapCategory::SqlLogic => 0,
            TrapCategory::NullHandling => 1,
            TrapCategory::TypeCoercion => 2,
            TrapCategory::JoinComplexity => 3,
            TrapCategory::RecursionDepth => 4,
            TrapCategory::ArithmeticEdge => 5,
        }
    }

    /// Every category, each exactly once.
    pub fn all() -> (v: Vec<TrapCategory>)
        ensures
            v@ == all_categories(),
    {
        vec![
            TrapCategory::SqlLogic,
            TrapCategory::NullHandling,
            TrapCategory::TypeCoercion,
            TrapCategory::JoinComplexity,
            TrapCategory::RecursionDepth,
            TrapCategory::ArithmeticEdge,
        ]
    }
}

/// The category list holds each category exactly once, at its index.
pub proof fn lemma_all_categories_exact(c: TrapCategory)
    ensures
        all_categories().len() == 6,
        all_categories()[category_index(c)] == c,
        forall|i: int, j: int|
            0 <= i < j < 6 ==> all_categories()[i] != all_categories()[j],
{
}

/// The category weights run from 1.0 to 1.5 in steps of 0.1, each category
/// with its own: null handling weighs most, then SQL logic, arithmetic edges,
/// join complexity, type coercion, and recursion depth least.
pub proof fn lemma_category_weights_ordered()
    ensures
        category_weight_tenths(TrapCategory::NullHandling) > category_weight_tenths(TrapCategory::SqlLogic),
        category_weight_tenths(TrapCategory::SqlLogic) > category_weight_tenths(TrapCategory::ArithmeticEdge),
        category_weight_tenths(TrapCategory::ArithmeticEdge) > category_weight_tenths(
            TrapCategory::JoinComplexity,
        ),
        category_weight_tenths(TrapCategory::JoinComplexity) > category_weight_tenths(
            TrapCategory::TypeCoercion,
        ),
        category_weight_tenths(TrapCategory::TypeCoercion) > category_weight_tenths(
            TrapCategory::RecursionDepth,
        ),
        category_weight_tenths(TrapCategory::RecursionDepth) == 10,
        category_weight_tenths(TrapCategory::NullHandling) == 15,
{
}

/// A generated probe: a snippet of code with the defect it is meant to expose.
#[derive(Debug, Clone)]
pub struct Trap {
    pub id: String,
    pub category: TrapCategory,
    pub severity: u8,
    pub code: String,
    pub description: String,
    pub expected_failure: String,
    pub deterministic_seed: u64,
    pub generation_nonce: u64,
}

/// The mathematical content of a `Trap`.
#[verifier::ext_equal]
pub struct TrapView {
    pub id: Seq<char>,
    pub category: TrapCategory,
    pub severity: u8,
    pub code: Seq<char>,
    pub description: Seq<char>,
    pub expected_failure: Seq<char>,
    pub deterministic_seed: u64,
    pub generation_nonce: u64,
}

impl View for Trap {
    type V = TrapView;

    open spec fn view(&self) -> TrapView {
        TrapView {
            id: self.id@,
            category: self.category,
            severity: self.severity,
            code: self.code@,
            description: self.description@,
            expected_failure: self.expected_failure@,
            deterministic_seed: self.deterministic_seed,
            generation_nonce: self.generation_nonce,
        }
    }
}

impl Trap {
    /// A field-by-field copy of the trap.
    pub fn duplicate(&self) -> (t: Trap)
        ensures
            t@ == self@,
    {
        Trap {
            id: self.id.clone(),
            category: self.category,
            severity: self.severity,
            code: self.code.clone(),
            description: self.description.clone(),
            expected_failure: self.expected_failure.clone(),
            deterministic_seed: self.deterministic_seed,
            generation_nonce: self.generation_nonce,
        }
    }
}

/// The outcome of checking one trap against a target.
/// `confidence_bits` holds the IEEE-754 bit pattern of the `f32` confidence.
#[derive(Debug, Clone)]
pub struct TrapResult {
    pub trap: Trap,
    pub passed: bool,
    pub failure_reason: Option<String>,
    pub execution_time_micros: u64,
    pub confidence_bits: u32,
}

impl TrapResult {
    /// Records the outcome of a trap: a failed trap carries the trap's expected
    /// failure as its reason, a passed one carries none.
    pub fn record(trap: &Trap, passed: bool, execution_time_micros: u64, confidence_bits: u32) -> (r:
        TrapResult)
        ensures
            r.trap@ == trap@,
            r.passed == passed,
            passed ==> r.failure_reason is None,
            !passed ==> (r.failure_reason matches Some(reason) && reason@ == trap.expected_failure@),
            r.execution_time_micros == execution_time_micros,
            r.confidence_bits == confidence_bits,
    {
        TrapResult {
            trap: trap.duplicate(),
            passed,
            failure_reason: if passed {
                None
            } else {
                Some(trap.expected_failure.clone())
            },
            execution_time_micros,
            confidence_bits,
        }
    }
}

/// Limits of the trap engine.
#[derive(Debug, Clone)]
pub struct EngineConfig {
    pub max_traps: usize,
    pub default_traps: usize,
    pub enable_z3: bool,
}

impl Default for EngineConfig {
    fn default() -> (c: EngineConfig)
        ensures
            c.max_traps == 10_000,
            c.default_traps == 50,
            !c.enable_z3,
    {
        EngineConfig { max_traps: 10_000, default_traps: 50, enable_z3: false }
    }
}

} // verus!

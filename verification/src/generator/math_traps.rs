//! Traps on arithmetic edge cases: division by a value that can be zero, and
//! shifts that can overflow.

use vstd::prelude::*;

use super::TrapGeneratorImpl;
use crate::random::{draw_i32, fresh, i32_draw, seeded, Draw};
use crate::text::{push_signed_decimal, push_str, signed_decimal};
use crate::{Trap, TrapCategory, TrapView};

verus! {

/// The division trap drawn with root `a`, multiplier `b` and function number `k`.
pub open spec fn arithmetic_edge_view(seed: u64, nonce: u64, a: i32, b: i32, k: i32) -> TrapView {
    TrapView {
        id: Seq::empty(),
        category: TrapCategory::ArithmeticEdge,
        severity: 9,
        code: "fn calc_"@ + signed_decimal(k as int) + "(x: i64) -> i64 { (x*"@ + signed_decimal(
            b as int,
        ) + ") / (x - "@ + signed_decimal(a as int) + ") }"@,
        description: "Div zero root "@ + signed_decimal(a as int),
        expected_failure: "No zero guard"@,
        deterministic_seed: seed,
        generation_nonce: nonce,
    }
}

/// `t` is a division trap for `seed` and `nonce`, with a root in `[-5000, 5000)`,
/// a multiplier in `[1, 10)` and a function number in `[100, 999)`.
pub open spec fn is_arithmetic_edge_trap(seed: u64, nonce: u64, t: TrapView) -> bool {
    exists|a: i32, b: i32, k: i32|
        -5000 <= a < 5000 && 1 <= b < 10 && 100 <= k < 999 && t == arithmetic_edge_view(
            seed,
            nonce,
            a,
            b,
            k,
        )
}

/// The shift trap drawn with shift amount `shift`.
pub open spec fn overflow_view(seed: u64, nonce: u64, shift: i32) -> TrapView {
    TrapView {
        id: Seq::empty(),
        category: TrapCategory::RecursionDepth,
        severity: 8,
        code: "let v = 1u64 << "@ + signed_decimal(shift as int) + ";"@,
        description: "Shift overflow "@ + signed_decimal(shift as int),
        expected_failure: "Unchecked shift"@,
        deterministic_seed: seed,
        generation_nonce: nonce,
    }
}

/// `t` is a shift trap for `seed` and `nonce`, with a shift amount in `[0, 70)`.
pub open spec fn is_overflow_trap(seed: u64, nonce: u64, t: TrapView) -> bool {
    exists|shift: i32| 0 <= shift < 70 && t == overflow_view(seed, nonce, shift)
}

/// Builds the division trap for the given draws.
pub fn arithmetic_edge_trap(seed: u64, nonce: u64, a: i32, b: i32, k: i32) -> (t: Trap)
    ensures
        t@ == arithmetic_edge_view(seed, nonce, a, b, k),
{
    let mut code = String::new();
    push_str(&mut code, "fn calc_");
    push_signed_decimal(&mut code, k as i64);
    push_str(&mut code, "(x: i64) -> i64 { (x*");
    push_signed_decimal(&mut code, b as i64);
    push_str(&mut code, ") / (x - ");
    push_signed_decimal(&mut code, a as i64);
    push_str(&mut code, ") }");
    let mut description = String::new();
    push_str(&mut description, "Div zero root ");
    push_signed_decimal(&mut description, a as i64);
    let mut expected_failure = String::new();
    push_str(&mut expected_failure, "No zero guard");
    let t = Trap {
        id: String::new(),
        category: TrapCategory::ArithmeticEdge,
        severity: 9,
        code,
        description,
        expected_failure,
        deterministic_seed: seed,
        generation_nonce: nonce,
    };
    assert(t@ =~= arithmetic_edge_view(seed, nonce, a, b, k));
    t
}

/// Builds the shift trap for the given draw.
pub fn overflow_trap(seed: u64, nonce: u64, shift: i32) -> (t: Trap)
    ensures
        t@ == overflow_view(seed, nonce, shift),
{
    let mut code = String::new();
    push_str(&mut code, "let v = 1u64 << ");
    push_signed_decimal(&mut code, shift as i64);
    push_str(&mut code, ";");
    let mut description = String::new();
    push_str(&mut description, "Shift overflow ");
    push_signed_decimal(&mut description, shift as i64);
    let mut expected_failure = String::new();
    push_str(&mut expected_failure, "Unchecked shift");
    let t = Trap {
        id: String::new(),
        category: TrapCategory::RecursionDepth,
        severity: 8,
        code,
        description,
        expected_failure,
        deterministic_seed: seed,
        generation_nonce: nonce,
    };
    assert(t@ =~= overflow_view(seed, nonce, shift));
    t
}
/// The division trap that the generator makes for `seed` and `nonce`: its
/// generator is seeded with `seed ^ nonce ^ 0x55aa` and draws the root in
/// `[-5000, 5000)`, the multiplier in `[1, 10)` and the function number in `[100, 999)`.
pub open spec fn arithmetic_edge_outcome(seed: u64, nonce: u64) -> TrapView {
    let s0 = fresh(seed ^ nonce ^ 0x55aau64);
    let a = i32_draw(s0, -5000i32, 5000i32);
    let s1 = s0.after(Draw::RangeI32(-5000i32, 5000i32));
    let b = i32_draw(s1, 1, 10);
    let k = i32_draw(s1.after(Draw::RangeI32(1, 10)), 100, 999);
    arithmetic_edge_view(seed, nonce, a, b, k)
}

/// The shift trap that the generator makes for `seed` and `nonce`: its
/// generator is seeded with `seed ^ nonce ^ 0x99ff` and draws the shift in `[0, 70)`.
pub open spec fn overflow_outcome(seed: u64, nonce: u64) -> TrapView {
    overflow_view(seed, nonce, i32_draw(fresh(seed ^ nonce ^ 0x99ffu64), 0, 70))
}

/// Generates division-by-zero traps.
#[derive(Debug, Clone, Copy, Default)]
pub struct ArithmeticEdgeGenerator;

impl TrapGeneratorImpl for ArithmeticEdgeGenerator {
    fn category_name(&self) -> (name: &'static str)
        ensures
            name@ == "arithmetic"@,
    {
        "arithmetic"
    }

    fn generate(&mut self, seed: u64, nonce: u64) -> (t: Trap)
        ensures
            t@ == arithmetic_edge_outcome(seed, nonce),
            is_arithmetic_edge_trap(seed, nonce, t@),
    {
        let mut rng = seeded(seed ^ nonce ^ 0x55aa);
        let a: i32 = draw_i32(&mut rng, -5000, 5000);
        let b: i32 = draw_i32(&mut rng, 1, 10);
        let k: i32 = draw_i32(&mut rng, 100, 999);
        arithmetic_edge_trap(seed, nonce, a, b, k)
    }
}

/// Generates shift-overflow traps.
#[derive(Debug, Clone, Copy, Default)]
pub struct OverflowGenerator;

impl TrapGeneratorImpl for OverflowGenerator {
    fn category_name(&self) -> (name: &'static str)
        ensures
            name@ == "overflow"@,
    {
        "overflow"
    }

    fn generate(&mut self, seed: u64, nonce: u64) -> (t: Trap)
        ensures
            t@ == overflow_outcome(seed, nonce),
            is_overflow_trap(seed, nonce, t@),
    {
        let mut rng = seeded(seed ^ nonce ^ 0x99ff);
        let shift: i32 = draw_i32(&mut rng, 0, 70);
        overflow_trap(seed, nonce, shift)
    }
}

} // verus!

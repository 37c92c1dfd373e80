//! Traps on missing `None` checks and on length arithmetic that can underflow.

use vstd::prelude::*;

use super::TrapGeneratorImpl;
use crate::random::{draw_i32, draw_u64, fresh, i32_draw, seeded, u64_draw, Draw};
use crate::text::{push_signed_decimal, push_str, signed_decimal};
use crate::{Trap, TrapCategory, TrapView};

verus! {

/// The optional fields that the null-safety traps dereference.
pub open spec fn null_fields() -> Seq<Seq<char>> {
    seq!["email"@, "phone"@, "profile.avatar_url"@, "user.name"@, "meta.id"@, "payload.data"@]
}

/// The field at position `i` of `null_fields()`.
pub fn null_field(i: usize) -> (f: &'static str)
    requires
        i < 6,
    ensures
        f@ == null_fields()[i as int],
{
    if i == 0 {
        "email"
    } else if i == 1 {
        "phone"
    } else if i == 2 {
        "profile.avatar_url"
    } else if i == 3 {
        "user.name"
    } else if i == 4 {
        "meta.id"
    } else {
        "payload.data"
    }
}

/// The null-safety trap on `field`, binding a variable numbered `id`.
pub open spec fn null_safety_view(seed: u64, nonce: u64, field: Seq<char>, id: i32) -> TrapView {
    TrapView {
        id: Seq::empty(),
        category: TrapCategory::NullHandling,
        severity: 10,
        code: "let d_"@ + signed_decimal(id as int) + " = "@ + field
            + ".split('@').collect::<Vec<_>>()[1];"@,
        description: "Null trap on "@ + field,
        expected_failure: "Missing None check"@,
        deterministic_seed: seed,
        generation_nonce: nonce,
    }
}

/// `t` is a null-safety trap for `seed` and `nonce`, on one of `null_fields()`,
/// with a variable number in `[100, 999)`.
pub open spec fn is_null_safety_trap(seed: u64, nonce: u64, t: TrapView) -> bool {
    exists|i: int, id: i32|
        0 <= i < 6 && 100 <= id < 999 && t == null_safety_view(seed, nonce, null_fields()[i], id)
}

/// The boundary trap with offset `n`.
pub open spec fn boundary_view(seed: u64, nonce: u64, n: i32) -> TrapView {
    TrapView {
        id: Seq::empty(),
        category: TrapCategory::TypeCoercion,
        severity: 8,
        code: "fn check(arr: &[i32]) -> bool { for i in 0..arr.len()-"@ + signed_decimal(n as int)
            + " { if arr[i]==arr[i+"@ + signed_decimal(n as int) + "] { return true; } } false }"@,
        description: "Boundary off-by-"@ + signed_decimal(n as int),
        expected_failure: "len()-N underflows"@,
        deterministic_seed: seed,
        generation_nonce: nonce,
    }
}

/// `t` is a boundary trap for `seed` and `nonce`, with an offset in `[1, 32)`.
pub open spec fn is_boundary_trap(seed: u64, nonce: u64, t: TrapView) -> bool {
    exists|n: i32| 1 <= n < 32 && t == boundary_view(seed, nonce, n)
}

/// The null-safety trap that the generator makes for `seed` and `nonce`: its
/// generator is seeded with `seed ^ nonce ^ 0x1234`, draws the field's position
/// in `[0, 6)`, then the variable number in `[100, 999)`.
pub open spec fn null_safety_outcome(seed: u64, nonce: u64) -> TrapView {
    let s = fresh(seed ^ nonce ^ 0x1234u64);
    let i = u64_draw(s, 0, 6);
    let id = i32_draw(s.after(Draw::RangeU64(0, 6)), 100, 999);
    null_safety_view(seed, nonce, null_fields()[i as int], id)
}

/// The boundary trap that the generator makes for `seed` and `nonce`: its
/// generator is seeded with `seed ^ nonce ^ 0xabcd` and draws the offset in `[1, 32)`.
pub open spec fn boundary_outcome(seed: u64, nonce: u64) -> TrapView {
    boundary_view(seed, nonce, i32_draw(fresh(seed ^ nonce ^ 0xabcdu64), 1, 32))
}

/// Builds the null-safety trap for the given draws.
pub fn null_safety_trap(seed: u64, nonce: u64, field: &str, id: i32) -> (t: Trap)
    ensures
        t@ == null_safety_view(seed, nonce, field@, id),
{
    let mut code = String::new();
    push_str(&mut code, "let d_");
    push_signed_decimal(&mut code, id as i64);
    push_str(&mut code, " = ");
    push_str(&mut code, field);
    push_str(&mut code, ".split('@').collect::<Vec<_>>()[1];");
    let mut description = String::new();
    push_str(&mut description, "Null trap on ");
    push_str(&mut description, field);
    let mut expected_failure = String::new();
    push_str(&mut expected_failure, "Missing None check");
    let t = Trap {
        id: String::new(),
        category: TrapCategory::NullHandling,
        severity: 10,
        code,
        description,
        expected_failure,
        deterministic_seed: seed,
        generation_nonce: nonce,
    };
    assert(t@ =~= null_safety_view(seed, nonce, field@, id));
    t
}

/// Builds the boundary trap for the given draw.
pub fn boundary_trap(seed: u64, nonce: u64, n: i32) -> (t: Trap)
    ensures
        t@ == boundary_view(seed, nonce, n),
{
    let mut code = String::new();
    push_str(&mut code, "fn check(arr: &[i32]) -> bool { for i in 0..arr.len()-");
    push_signed_decimal(&mut code, n as i64);
    push_str(&mut code, " { if arr[i]==arr[i+");
    push_signed_decimal(&mut code, n as i64);
    push_str(&mut code, "] { return true; } } false }");
    let mut description = String::new();
    push_str(&mut description, "Boundary off-by-");
    push_signed_decimal(&mut description, n as i64);
    let mut expected_failure = String::new();
    push_str(&mut expected_failure, "len()-N underflows");
    let t = Trap {
        id: String::new(),
        category: TrapCategory::TypeCoercion,
        severity: 8,
        code,
        description,
        expected_failure,
        deterministic_seed: seed,
        generation_nonce: nonce,
    };
    assert(t@ =~= boundary_view(seed, nonce, n));
    t
}

/// Generates traps that dereference optional fields without a `None` check.
#[derive(Debug, Clone, Copy, Default)]
pub struct NullSafetyGenerator;

impl TrapGeneratorImpl for NullSafetyGenerator {
    fn category_name(&self) -> (name: &'static str)
        ensures
            name@ == "null_safety"@,
    {
        "null_safety"
    }

    fn generate(&mut self, seed: u64, nonce: u64) -> (t: Trap)
        ensures
            t@ == null_safety_outcome(seed, nonce),
            is_null_safety_trap(seed, nonce, t@),
    {
        let mut rng = seeded(seed ^ nonce ^ 0x1234);
        let i: u64 = draw_u64(&mut rng, 0, 6);
        let field = null_field(i as usize);
        let id: i32 = draw_i32(&mut rng, 100, 999);
        let t = null_safety_trap(seed, nonce, field, id);
        assert(t@ == null_safety_view(seed, nonce, null_fields()[i as int], id));
        t
    }
}

/// Generates traps whose loop bound `len() - N` can underflow.
#[derive(Debug, Clone, Copy, Default)]
pub struct BoundaryGenerator;

impl TrapGeneratorImpl for BoundaryGenerator {
    fn category_name(&self) -> (name: &'static str)
        ensures
            name@ == "boundary"@,
    {
        "boundary"
    }

    fn generate(&mut self, seed: u64, nonce: u64) -> (t: Trap)
        ensures
            t@ == boundary_outcome(seed, nonce),
            is_boundary_trap(seed, nonce, t@),
    {
        let mut rng = seeded(seed ^ nonce ^ 0xabcd);
        let n: i32 = draw_i32(&mut rng, 1, 32);
        boundary_trap(seed, nonce, n)
    }
}

} // verus!

//! Traps on SQL semantics: `NOT IN` against a subquery that yields `NULL`, and
//! filters placed in a `LEFT JOIN`'s `ON` clause.

use vstd::prelude::*;

use super::TrapGeneratorImpl;
use crate::random::{
    draw_i32, draw_ratio, draw_u64, draw_u8_inclusive, fresh, i32_draw, ratio_draw, seeded, u64_draw,
    u8_inclusive_draw, Draw, RngState, SeededRng,
};
use crate::text::{decimal, push_decimal, push_signed_decimal, push_str, signed_decimal};
use crate::{Trap, TrapCategory, TrapView};

verus! {

/// A lower-case ASCII letter.
pub open spec fn is_lower_letter(c: char) -> bool {
    97 <= (c as u32) <= 122
}

/// `s` is `prefix`, an underscore and four lower-case letters.
pub open spec fn is_random_ident(prefix: Seq<char>, s: Seq<char>) -> bool {
    exists|letters: Seq<char>|
        letters.len() == 4 && (forall|i: int| 0 <= i < 4 ==> is_lower_letter(#[trigger] letters[i]))
            && s == prefix.push('_') + letters
}

/// The well-known table names.
pub open spec fn table_bases() -> Seq<Seq<char>> {
    seq!["users"@, "orders"@, "payments"@, "events"@, "inventory"@, "sessions"@]
}

/// `s` is a well-known table name, or `t_` followed by four lower-case letters.
pub open spec fn is_table_name(s: Seq<char>) -> bool {
    (exists|i: int| 0 <= i < 6 && s == table_bases()[i]) || is_random_ident("t"@, s)
}

/// The table name at position `i` of `table_bases()`.
pub fn table_base(i: usize) -> (t: &'static str)
    requires
        i < 6,
    ensures
        t@ == table_bases()[i as int],
{
    if i == 0 {
        "users"
    } else if i == 1 {
        "orders"
    } else if i == 2 {
        "payments"
    } else if i == 3 {
        "events"
    } else if i == 4 {
        "inventory"
    } else {
        "sessions"
    }
}

/// `n` letter draws, each `gen_range(b'a'..=b'z')`.
pub open spec fn letter_draws(n: nat) -> Seq<Draw> {
    Seq::new(n, |i: int| Draw::InclusiveU8(97, 122))
}

/// The four letters drawn, one after another, from a generator in `state`.
pub open spec fn drawn_letters(state: RngState) -> Seq<char> {
    Seq::new(4, |k: int| u8_inclusive_draw(state.after_all(letter_draws(k as nat)), 97, 122) as char)
}

/// `prefix`, an underscore and the four letters drawn from a generator in `state`.
pub open spec fn ident_outcome(state: RngState, prefix: Seq<char>) -> Seq<char> {
    prefix.push('_') + drawn_letters(state)
}

/// The table name drawn from a generator in `state`, and the state after it:
/// when a 3-in-5 draw comes up, the well-known name at a position drawn in
/// `[0, 6)`; else `t_` and four drawn letters.
pub open spec fn table_outcome(state: RngState) -> (Seq<char>, RngState) {
    let s1 = state.after(Draw::Ratio(3, 5));
    if ratio_draw(state, 3, 5) {
        (table_bases()[u64_draw(s1, 0, 6) as int], s1.after(Draw::RangeU64(0, 6)))
    } else {
        (ident_outcome(s1, "t"@), s1.after_all(letter_draws(4)))
    }
}

/// Draws `prefix`, an underscore and four random lower-case letters.
pub fn random_ident(rng: &mut SeededRng, prefix: &str) -> (s: String)
    ensures
        s@ == ident_outcome(old(rng)@, prefix@),
        final(rng)@ == old(rng)@.after_all(letter_draws(4)),
        is_random_ident(prefix@, s@),
{
    let ghost s0 = rng@;
    let mut s = String::new();
    push_str(&mut s, prefix);
    s.push('_');
    let ghost start = s@;
    let mut k: usize = 0;
    assert(s0.after_all(letter_draws(0)).draws =~= s0.draws);
    while k < 4
        invariant
            k <= 4,
            start == prefix@.push('_'),
            rng@ == s0.after_all(letter_draws(k as nat)),
            s@ == start + drawn_letters(s0).subrange(0, k as int),
            forall|i: int| start.len() <= i < s@.len() ==> is_lower_letter(#[trigger] s@[i]),
        decreases 4 - k,
    {
        let d: u8 = draw_u8_inclusive(rng, 97, 122);
        let ch = d as char;
        s.push(ch);
        proof {
            assert(letter_draws(k as nat).push(Draw::InclusiveU8(97, 122)) =~= letter_draws(
                (k + 1) as nat,
            ));
            assert((s0.draws + letter_draws(k as nat)).push(Draw::InclusiveU8(97, 122))
                =~= s0.draws + letter_draws((k + 1) as nat));
            assert(drawn_letters(s0)[k as int] == ch);
            assert(drawn_letters(s0).subrange(0, k as int).push(ch) =~= drawn_letters(s0).subrange(
                0,
                k + 1,
            ));
        }
        k = k + 1;
    }
    let ghost letters = s@.subrange(start.len() as int, s@.len() as int);
    assert(drawn_letters(s0).subrange(0, 4) =~= drawn_letters(s0));
    assert(s@ =~= prefix@.push('_') + letters);
    s
}

/// Draws a table name: with probability 3/5 a well-known one, else a random `t_` name.
pub fn random_table(rng: &mut SeededRng) -> (s: String)
    ensures
        s@ == table_outcome(old(rng)@).0,
        final(rng)@ == table_outcome(old(rng)@).1,
        is_table_name(s@),
{
    if draw_ratio(rng, 3, 5) {
        let i: u64 = draw_u64(rng, 0, 6);
        let base = table_base(i as usize);
        let mut s = String::new();
        push_str(&mut s, base);
        assert(s@ =~= table_bases()[i as int]);
        s
    } else {
        random_ident(rng, "t")
    }
}

/// The `NOT IN` trap on `table.col`.
pub open spec fn sql_logic_view(
    seed: u64,
    nonce: u64,
    table: Seq<char>,
    col: Seq<char>,
    severity: u8,
) -> TrapView {
    TrapView {
        id: Seq::empty(),
        category: TrapCategory::SqlLogic,
        severity: severity,
        code: "SELECT * FROM "@ + table + " WHERE "@ + col
            + " NOT IN (SELECT id FROM orders WHERE id IS NULL)"@,
        description: "SQL logic trap on "@ + table + "."@ + col,
        expected_failure: "NOT IN with NULL is UNKNOWN"@,
        deterministic_seed: seed,
        generation_nonce: nonce,
    }
}

/// `t` is a `NOT IN` trap for `seed` and `nonce` on a table name and a `col_`
/// column, with a severity in `[7, 10]`.
pub open spec fn is_sql_logic_trap(seed: u64, nonce: u64, t: TrapView) -> bool {
    exists|table: Seq<char>, col: Seq<char>, severity: u8|
        is_table_name(table) && is_random_ident("col"@, col) && 7 <= severity <= 10 && t
            == sql_logic_view(seed, nonce, table, col, severity)
}

/// The `LEFT JOIN` trap joining `left` to `right` with an amount filter.
pub open spec fn join_complexity_view(
    seed: u64,
    nonce: u64,
    left: Seq<char>,
    right: Seq<char>,
    amount: i32,
) -> TrapView {
    TrapView {
        id: Seq::empty(),
        category: TrapCategory::JoinComplexity,
        severity: 9,
        code: "SELECT "@ + left + ".id, COUNT("@ + right + ".id) FROM "@ + left + " LEFT JOIN "@
            + right + " ON "@ + right + ".fk="@ + left + ".id AND "@ + right + ".amount>"@
            + signed_decimal(amount as int) + " GROUP BY "@ + left + ".id"@,
        description: "JOIN trap #"@ + decimal(nonce as nat),
        expected_failure: "LEFT JOIN ON vs WHERE"@,
        deterministic_seed: seed,
        generation_nonce: nonce,
    }
}

/// `t` is a `LEFT JOIN` trap for `seed` and `nonce` between two table names,
/// with an amount in `[10, 10000)`.
pub open spec fn is_join_complexity_trap(seed: u64, nonce: u64, t: TrapView) -> bool {
    exists|left: Seq<char>, right: Seq<char>, amount: i32|
        is_table_name(left) && is_table_name(right) && 10 <= amount < 10000 && t
            == join_complexity_view(seed, nonce, left, right, amount)
}

/// The `NOT IN` trap that the generator makes for `seed` and `nonce`: its
/// generator is seeded with `seed ^ nonce` and draws the table name, the
/// `col_` column, then the severity in `[7, 10]`.
pub open spec fn sql_logic_outcome(seed: u64, nonce: u64) -> TrapView {
    let (table, s1) = table_outcome(fresh(seed ^ nonce));
    let col = ident_outcome(s1, "col"@);
    let severity = u8_inclusive_draw(s1.after_all(letter_draws(4)), 7, 10);
    sql_logic_view(seed, nonce, table, col, severity)
}

/// The `LEFT JOIN` trap that the generator makes for `seed` and `nonce`: its
/// generator is seeded with `seed ^ nonce ^ 0xdeadbeef` and draws the left and
/// right table names, then the amount in `[10, 10000)`.
pub open spec fn join_complexity_outcome(seed: u64, nonce: u64) -> TrapView {
    let (left, s1) = table_outcome(fresh(seed ^ nonce ^ 0xdeadbeefu64));
    let (right, s2) = table_outcome(s1);
    join_complexity_view(seed, nonce, left, right, i32_draw(s2, 10, 10000))
}

/// Builds the `NOT IN` trap for the given draws.
pub fn sql_logic_trap(seed: u64, nonce: u64, table: &str, col: &str, severity: u8) -> (t: Trap)
    ensures
        t@ == sql_logic_view(seed, nonce, table@, col@, severity),
{
    let mut code = String::new();
    push_str(&mut code, "SELECT * FROM ");
    push_str(&mut code, table);
    push_str(&mut code, " WHERE ");
    push_str(&mut code, col);
    push_str(&mut code, " NOT IN (SELECT id FROM orders WHERE id IS NULL)");
    let mut description = String::new();
    push_str(&mut description, "SQL logic trap on ");
    push_str(&mut description, table);
    push_str(&mut description, ".");
    push_str(&mut description, col);
    let mut expected_failure = String::new();
    push_str(&mut expected_failure, "NOT IN with NULL is UNKNOWN");
    let t = Trap {
        id: String::new(),
        category: TrapCategory::SqlLogic,
        severity,
        code,
        description,
        expected_failure,
        deterministic_seed: seed,
        generation_nonce: nonce,
    };
    assert(t@ =~= sql_logic_view(seed, nonce, table@, col@, severity));
    t
}

/// Builds the `LEFT JOIN` trap for the given draws.
pub fn join_complexity_trap(seed: u64, nonce: u64, left: &str, right: &str, amount: i32) -> (t:
    Trap)
    ensures
        t@ == join_complexity_view(seed, nonce, left@, right@, amount),
{
    let mut code = String::new();
    push_str(&mut code, "SELECT ");
    push_str(&mut code, left);
    push_str(&mut code, ".id, COUNT(");
    push_str(&mut code, right);
    push_str(&mut code, ".id) FROM ");
    push_str(&mut code, left);
    push_str(&mut code, " LEFT JOIN ");
    push_str(&mut code, right);
    push_str(&mut code, " ON ");
    push_str(&mut code, right);
    push_str(&mut code, ".fk=");
    push_str(&mut code, left);
    push_str(&mut code, ".id AND ");
    push_str(&mut code, right);
    push_str(&mut code, ".amount>");
    push_signed_decimal(&mut code, amount as i64);
    push_str(&mut code, " GROUP BY ");
    push_str(&mut code, left);
    push_str(&mut code, ".id");
    let mut description = String::new();
    push_str(&mut description, "JOIN trap #");
    push_decimal(&mut description, nonce);
    let mut expected_failure = String::new();
    push_str(&mut expected_failure, "LEFT JOIN ON vs WHERE");
    let t = Trap {
        id: String::new(),
        category: TrapCategory::JoinComplexity,
        severity: 9,
        code,
        description,
        expected_failure,
        deterministic_seed: seed,
        generation_nonce: nonce,
    };
    assert(t@ =~= join_complexity_view(seed, nonce, left@, right@, amount));
    t
}

/// Generates `NOT IN` traps.
#[derive(Debug, Clone, Copy, Default)]
pub struct SqlLogicGenerator;

impl TrapGeneratorImpl for SqlLogicGenerator {
    fn category_name(&self) -> (name: &'static str)
        ensures
            name@ == "sql_logic"@,
    {
        "sql_logic"
    }

    fn generate(&mut self, seed: u64, nonce: u64) -> (t: Trap)
        ensures
            t@ == sql_logic_outcome(seed, nonce),
            is_sql_logic_trap(seed, nonce, t@),
    {
        let mut rng = seeded(seed ^ nonce);
        let table = random_table(&mut rng);
        let col = random_ident(&mut rng, "col");
        let severity: u8 = draw_u8_inclusive(&mut rng, 7, 10);
        sql_logic_trap(seed, nonce, table.as_str(), col.as_str(), severity)
    }
}

/// Generates `LEFT JOIN` traps.
#[derive(Debug, Clone, Copy, Default)]
pub struct JoinComplexityGenerator;

impl TrapGeneratorImpl for JoinComplexityGenerator {
    fn category_name(&self) -> (name: &'static str)
        ensures
            name@ == "join_complexity"@,
    {
        "join_complexity"
    }

    fn generate(&mut self, seed: u64, nonce: u64) -> (t: Trap)
        ensures
            t@ == join_complexity_outcome(seed, nonce),
            is_join_complexity_trap(seed, nonce, t@),
    {
        let mut rng = seeded(seed ^ nonce ^ 0xdeadbeef);
        let left = random_table(&mut rng);
        let right = random_table(&mut rng);
        let amount: i32 = draw_i32(&mut rng, 10, 10000);
        join_complexity_trap(seed, nonce, left.as_str(), right.as_str(), amount)
    }
}

} // verus!

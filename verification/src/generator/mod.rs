//! The trap engine: a seeded stream of traps drawn from the built-in generators.

pub mod logic_traps;
pub mod math_traps;
pub mod sql_traps;

use vstd::prelude::*;

use crate::outside::{is_uuid_text, new_uuid, uuid_text, uuid_text_of, uuid_version4};
use crate::random::{draw_u64, fresh, seeded, u64_draw, Draw, RngState, SeededRng};
use crate::{all_categories, EngineConfig, Trap, TrapCategory, TrapView};
use logic_traps::{
    boundary_outcome, is_boundary_trap, is_null_safety_trap, null_safety_outcome, BoundaryGenerator,
    NullSafetyGenerator,
};
use math_traps::{
    arithmetic_edge_outcome, is_arithmetic_edge_trap, is_overflow_trap, overflow_outcome,
    ArithmeticEdgeGenerator, OverflowGenerator,
};
use sql_traps::{
    is_join_complexity_trap, is_sql_logic_trap, join_complexity_outcome, sql_logic_outcome,
    JoinComplexityGenerator, SqlLogicGenerator,
};

verus! {

/// A source of traps of one kind.
pub trait TrapGeneratorImpl: Send {
    /// A short name for the kind of trap.
    fn category_name(&self) -> &'static str;

    /// A trap for the given seed and nonce; it carries both, and an empty id.
    fn generate(&mut self, seed: u64, nonce: u64) -> (t: Trap)
        ensures
            t@.deterministic_seed == seed,
            t@.generation_nonce == nonce,
            t@.id == Seq::<char>::empty(),
    ;
}

/// The built-in generators.
#[derive(Debug, Clone, Copy, PartialEq, Eq, Structural)]
pub enum GeneratorKind {
    SqlLogic,
    JoinComplexity,
    NullSafety,
    Boundary,
    ArithmeticEdge,
    Overflow,
}

/// The generators an engine registers, in registration order.
pub open spec fn default_generators() -> Seq<GeneratorKind> {
    seq![
        GeneratorKind::SqlLogic,
        GeneratorKind::JoinComplexity,
        GeneratorKind::NullSafety,
        GeneratorKind::Boundary,
        GeneratorKind::ArithmeticEdge,
        GeneratorKind::Overflow,
    ]
}

/// `t` is a trap that generator `kind` can produce for `seed` and `nonce`.
pub open spec fn produces(kind: GeneratorKind, seed: u64, nonce: u64, t: TrapView) -> bool {
    match kind {
        GeneratorKind::SqlLogic => is_sql_logic_trap(seed, nonce, t),
        GeneratorKind::JoinComplexity => is_join_complexity_trap(seed, nonce, t),
        GeneratorKind::NullSafety => is_null_safety_trap(seed, nonce, t),
        GeneratorKind::Boundary => is_boundary_trap(seed, nonce, t),
        GeneratorKind::ArithmeticEdge => is_arithmetic_edge_trap(seed, nonce, t),
        GeneratorKind::Overflow => is_overflow_trap(seed, nonce, t),
    }
}

/// The trap that generator `kind` makes for `seed` and `nonce`.
pub open spec fn generator_outcome(kind: GeneratorKind, seed: u64, nonce: u64) -> TrapView {
    match kind {
        GeneratorKind::SqlLogic => sql_logic_outcome(seed, nonce),
        GeneratorKind::JoinComplexity => join_complexity_outcome(seed, nonce),
        GeneratorKind::NullSafety => null_safety_outcome(seed, nonce),
        GeneratorKind::Boundary => boundary_outcome(seed, nonce),
        GeneratorKind::ArithmeticEdge => arithmetic_edge_outcome(seed, nonce),
        GeneratorKind::Overflow => overflow_outcome(seed, nonce),
    }
}

/// The category of the traps a generator kind makes.
pub open spec fn kind_category(kind: GeneratorKind) -> TrapCategory {
    match kind {
        GeneratorKind::SqlLogic => TrapCategory::SqlLogic,
        GeneratorKind::JoinComplexity => TrapCategory::JoinComplexity,
        GeneratorKind::NullSafety => TrapCategory::NullHandling,
        GeneratorKind::Boundary => TrapCategory::TypeCoercion,
        GeneratorKind::ArithmeticEdge => TrapCategory::ArithmeticEdge,
        GeneratorKind::Overflow => TrapCategory::RecursionDepth,
    }
}

/// Each generator makes traps of its own category, whatever the seed and nonce.
pub proof fn lemma_outcome_category(kind: GeneratorKind, seed: u64, nonce: u64)
    ensures
        generator_outcome(kind, seed, nonce).category == kind_category(kind),
{
}

/// The engine registers the six built-in generators, each once, and between
/// them they cover every trap category (`all_categories()` lists each one):
/// for each category one registered generator makes traps of that category.
pub proof fn lemma_default_generators_cover_categories()
    ensures
        default_generators().len() == 6,
        forall|i: int, j: int|
            0 <= i < j < 6 ==> #[trigger] default_generators()[i] != #[trigger] default_generators()[j],
        default_generators().contains(GeneratorKind::Overflow),
        forall|i: int|
            0 <= i < 6 ==> exists|k: int|
                0 <= k < 6 && #[trigger] kind_category(default_generators()[k]) == #[trigger] all_categories()[i],
{
    assert(default_generators()[5] == GeneratorKind::Overflow);
    assert(kind_category(default_generators()[0]) == all_categories()[0]);
    assert(kind_category(default_generators()[2]) == all_categories()[1]);
    assert(kind_category(default_generators()[3]) == all_categories()[2]);
    assert(kind_category(default_generators()[1]) == all_categories()[3]);
    assert(kind_category(default_generators()[5]) == all_categories()[4]);
    assert(kind_category(default_generators()[4]) == all_categories()[5]);
}

/// A generator's trap depends on its seed and nonce only through `seed ^ nonce`
/// (each generator seeds its own generator with `seed ^ nonce`, mixed with a
/// constant of its own): two pairs with the same `seed ^ nonce` give the same
/// category, severity, code and expected failure, and the same description
/// but for the `LEFT JOIN` trap, whose description numbers the nonce.
pub proof fn lemma_trap_depends_on_seed_xor_nonce(kind: GeneratorKind, s1: u64, n1: u64, s2: u64, n2: u64)
    requires
        s1 ^ n1 == s2 ^ n2,
    ensures
        generator_outcome(kind, s1, n1).category == generator_outcome(kind, s2, n2).category,
        generator_outcome(kind, s1, n1).severity == generator_outcome(kind, s2, n2).severity,
        generator_outcome(kind, s1, n1).code == generator_outcome(kind, s2, n2).code,
        generator_outcome(kind, s1, n1).expected_failure == generator_outcome(kind, s2, n2).expected_failure,
        kind != GeneratorKind::JoinComplexity ==> generator_outcome(kind, s1, n1).description
            == generator_outcome(kind, s2, n2).description,
{
}

/// The generator seed of a trap is the engine seed plus the nonce, times
/// `0x9e3779b97f4a7c15`, both modulo 2^64; and the nonce after `n` is `n + 1`,
/// wrapping to 0 after the largest.
pub proof fn lemma_trap_seed_and_nonce(base: u64, nonce: u64)
    ensures
        trap_seed(base, nonce) as int == ((base as int + nonce as int) % 0x1_0000_0000_0000_0000
            * 0x9e3779b97f4a7c15) % 0x1_0000_0000_0000_0000,
        nonce_after(nonce, 1) == if nonce == u64::MAX { 0 } else { (nonce + 1) as u64 },
{
    let m: int = 0x1_0000_0000_0000_0000;
    let s: int = base as int + nonce as int;
    if s > u64::MAX {
        assert(s % m == s - m) by {
            vstd::arithmetic::div_mod::lemma_fundamental_div_mod(s, m);
            assert(s / m == 1) by (nonlinear_arith)
                requires
                    m <= s < 2 * m,
                    m == 0x1_0000_0000_0000_0000,
                    s == m * (s / m) + s % m,
                    0 <= s % m < m,
            ;
        }
    } else {
        vstd::arithmetic::div_mod::lemma_small_mod(s as nat, m as nat);
    }
    if nonce == u64::MAX {
        vstd::arithmetic::div_mod::lemma_mod_self_0(m);
    } else {
        vstd::arithmetic::div_mod::lemma_small_mod((nonce + 1) as nat, m as nat);
    }
}

/// A trap without its id.
pub open spec fn without_id(t: TrapView) -> TrapView {
    TrapView { id: Seq::empty(), ..t }
}

/// The engine's pick of a generator: a draw in `[0, 6)`.
pub open spec fn pick_draw() -> Draw {
    Draw::RangeU64(0, 6)
}

/// `n` picks of a generator, one per trap.
pub open spec fn picks(n: nat) -> Seq<Draw> {
    Seq::new(n, |i: int| pick_draw())
}

/// The seed handed to the generator for the trap with nonce `nonce` of an engine
/// seeded with `base`: `(base + nonce) * 0x9e3779b97f4a7c15`, wrapping.
pub open spec fn trap_seed(base: u64, nonce: u64) -> u64 {
    vstd::wrapping::u64_specs::wrapping_mul(
        vstd::wrapping::u64_specs::wrapping_add(base, nonce),
        0x9e3779b97f4a7c15,
    )
}

/// The nonce `steps` traps after nonce `start`, wrapping.
pub open spec fn nonce_after(start: u64, steps: int) -> u64 {
    ((start + steps) % 0x1_0000_0000_0000_0000) as u64
}

/// `t` is the trap the engine hands out, with its generator in `state`, for
/// nonce `nonce` with generator seed `seed`: apart from its id it is what the
/// generator at the drawn position in `[0, 6)` makes, that generator is one of
/// the registered ones, and the id is the text of a version-4 UUID.
pub open spec fn engine_trap(state: RngState, seed: u64, nonce: u64, t: TrapView) -> bool {
    &&& is_uuid_text(t.id)
    &&& exists|u: u128| uuid_version4(u) && t.id == #[trigger] uuid_text_of(u)
    &&& without_id(t) == generator_outcome(
        default_generators()[u64_draw(state, 0, 6) as int],
        seed,
        nonce,
    )
    &&& exists|k: int|
        0 <= k < 6 && #[trigger] produces(
            default_generators()[k],
            seed,
            nonce,
            TrapView { id: Seq::empty(), ..t },
        )
}

/// Every trap the engine hands out has a severity between 7 and 10, carries
/// its generator seed and nonce, and has a non-empty code and expected failure.
pub proof fn lemma_engine_trap_shape(state: RngState, seed: u64, nonce: u64, t: TrapView)
    requires
        engine_trap(state, seed, nonce, t),
    ensures
        7 <= t.severity <= 10,
        t.deterministic_seed == seed,
        t.generation_nonce == nonce,
        t.code.len() > 0,
        t.expected_failure.len() > 0,
{
    let k = choose|k: int|
        0 <= k < 6 && #[trigger] produces(
            default_generators()[k],
            seed,
            nonce,
            TrapView { id: Seq::empty(), ..t },
        );
    let u = TrapView { id: Seq::empty(), ..t };
    reveal_strlit("fn calc_");
    reveal_strlit("No zero guard");
    reveal_strlit("let v = 1u64 << ");
    reveal_strlit("Unchecked shift");
    reveal_strlit("let d_");
    reveal_strlit("Missing None check");
    reveal_strlit("fn check(arr: &[i32]) -> bool { for i in 0..arr.len()-");
    reveal_strlit("len()-N underflows");
    reveal_strlit("SELECT * FROM ");
    reveal_strlit("NOT IN with NULL is UNKNOWN");
    reveal_strlit("SELECT ");
    reveal_strlit("LEFT JOIN ON vs WHERE");
    assert(u.code.len() == t.code.len());
}

impl GeneratorKind {
    /// Runs this generator.
    pub fn generate(&self, seed: u64, nonce: u64) -> (t: Trap)
        ensures
            t@ == generator_outcome(*self, seed, nonce),
            produces(*self, seed, nonce, t@),
    {
        match self {
            GeneratorKind::SqlLogic => SqlLogicGenerator.generate(seed, nonce),
            GeneratorKind::JoinComplexity => JoinComplexityGenerator.generate(seed, nonce),
            GeneratorKind::NullSafety => NullSafetyGenerator.generate(seed, nonce),
            GeneratorKind::Boundary => BoundaryGenerator.generate(seed, nonce),
            GeneratorKind::ArithmeticEdge => ArithmeticEdgeGenerator.generate(seed, nonce),
            GeneratorKind::Overflow => OverflowGenerator.generate(seed, nonce),
        }
    }
}

/// A seeded stream of traps: each trap comes from a generator picked by the
/// engine's generator, with a seed mixed from the engine seed and the nonce.
pub struct DynamicTrapEngine {
    generators: Vec<GeneratorKind>,
    rng: SeededRng,
    base_seed: u64,
    nonce: u64,
}

impl DynamicTrapEngine {
    /// The engine holds the six built-in generators.
    pub closed spec fn wf(&self) -> bool {
        self.generators@ == default_generators()
    }

    /// The seed the engine was created with.
    pub closed spec fn seed(&self) -> u64 {
        self.base_seed
    }

    /// The nonce of the next trap.
    pub closed spec fn next_nonce(&self) -> u64 {
        self.nonce
    }

    /// The state of the engine's generator.
    pub closed spec fn rng_state(&self) -> RngState {
        self.rng@
    }

    fn register_defaults() -> (v: Vec<GeneratorKind>)
        ensures
            v@ == default_generators(),
    {
        let mut v: Vec<GeneratorKind> = Vec::new();
        v.push(GeneratorKind::SqlLogic);
        v.push(GeneratorKind::JoinComplexity);
        v.push(GeneratorKind::NullSafety);
        v.push(GeneratorKind::Boundary);
        v.push(GeneratorKind::ArithmeticEdge);
        v.push(GeneratorKind::Overflow);
        assert(v@ =~= default_generators());
        v
    }

    /// An engine seeded with `seed`, with the six built-in generators and nonce 0.
    pub fn new(seed: u64) -> (e: DynamicTrapEngine)
        ensures
            e.wf(),
            e.seed() == seed,
            e.next_nonce() == 0,
            e.rng_state() == fresh(seed),
    {
        DynamicTrapEngine {
            generators: Self::register_defaults(),
            rng: seeded(seed),
            base_seed: seed,
            nonce: 0,
        }
    }

    /// The same engine as `new(seed)`; the configuration is not consulted.
    pub fn with_config(seed: u64, config: &EngineConfig) -> (e: DynamicTrapEngine)
        ensures
            e.wf(),
            e.seed() == seed,
            e.next_nonce() == 0,
            e.rng_state() == fresh(seed),
    {
        Self::new(seed)
    }

    /// The next trap: the generator at a position drawn in `[0, 6)` runs with seed
    /// `trap_seed(seed, nonce)`, the trap gets a fresh UUID, and the nonce advances by one.
    pub fn next_trap(&mut self) -> (t: Trap)
        requires
            old(self).wf(),
        ensures
            final(self).wf(),
            final(self).seed() == old(self).seed(),
            final(self).next_nonce() == nonce_after(old(self).next_nonce(), 1),
            final(self).rng_state() == old(self).rng_state().after(pick_draw()),
            t@.generation_nonce == old(self).next_nonce(),
            t@.deterministic_seed == trap_seed(old(self).seed(), old(self).next_nonce()),
            engine_trap(
                old(self).rng_state(),
                trap_seed(old(self).seed(), old(self).next_nonce()),
                old(self).next_nonce(),
                t@,
            ),
    {
        let pick: u64 = draw_u64(&mut self.rng, 0, self.generators.len() as u64);
        let idx: usize = pick as usize;
        let trap_seed: u64 = self.base_seed.wrapping_add(self.nonce).wrapping_mul(0x9e3779b97f4a7c15);
        let kind = self.generators[idx];
        let mut trap = kind.generate(trap_seed, self.nonce);
        let ghost generated = trap@;
        let u: u128 = new_uuid();
        trap.id = uuid_text(u);
        trap.deterministic_seed = trap_seed;
        trap.generation_nonce = self.nonce;
        proof {
            assert(TrapView { id: Seq::empty(), ..trap@ } =~= generated);
            assert(uuid_version4(u) && trap@.id == uuid_text_of(u));
            assert(produces(default_generators()[idx as int], trap_seed, self.nonce, TrapView { id: Seq::empty(), ..trap@ }));
        }
        self.nonce = self.nonce.wrapping_add(1);
        trap
    }

    /// The next `count` traps, in order.
    pub fn generate_n(&mut self, count: usize) -> (v: Vec<Trap>)
        requires
            old(self).wf(),
        ensures
            final(self).wf(),
            final(self).seed() == old(self).seed(),
            final(self).next_nonce() == nonce_after(old(self).next_nonce(), count as int),
            final(self).rng_state() == old(self).rng_state().after_all(picks(count as nat)),
            v@.len() == count,
            forall|i: int|
                0 <= i < count ==> {
                    let n = nonce_after(old(self).next_nonce(), i);
                    &&& (#[trigger] v@[i])@.generation_nonce == n
                    &&& v@[i]@.deterministic_seed == trap_seed(old(self).seed(), n)
                    &&& engine_trap(
                        old(self).rng_state().after_all(picks(i as nat)),
                        trap_seed(old(self).seed(), n),
                        n,
                        v@[i]@,
                    )
                },
    {
        let ghost start = self.next_nonce();
        let ghost s0 = self.rng_state();
        assert(s0.after_all(picks(0)).draws =~= s0.draws);
        let mut v: Vec<Trap> = Vec::new();
        let mut k: usize = 0;
        assert(start as int % 0x1_0000_0000_0000_0000 == start);
        while k < count
            invariant
                k <= count,
                v@.len() == k,
                self.wf(),
                self.seed() == old(self).seed(),
                start == old(self).next_nonce(),
                self.next_nonce() == nonce_after(start, k as int),
                s0 == old(self).rng_state(),
                self.rng_state() == s0.after_all(picks(k as nat)),
                forall|i: int|
                    0 <= i < k ==> {
                        let n = nonce_after(start, i);
                        &&& (#[trigger] v@[i])@.generation_nonce == n
                        &&& v@[i]@.deterministic_seed == trap_seed(self.seed(), n)
                        &&& engine_trap(s0.after_all(picks(i as nat)), trap_seed(self.seed(), n), n, v@[i]@)
                    },
            decreases count - k,
        {
            let t = self.next_trap();
            v.push(t);
            proof {
                assert(picks(k as nat).push(pick_draw()) =~= picks((k + 1) as nat));
                assert((s0.draws + picks(k as nat)).push(pick_draw()) =~= s0.draws + picks((k + 1) as nat));
                let m: int = 0x1_0000_0000_0000_0000;
                let a: int = start + k;
                assert(((a % m) + 1) % m == (a + 1) % m) by {
                    vstd::arithmetic::div_mod::lemma_add_mod_noop(a, 1, m);
                    vstd::arithmetic::div_mod::lemma_small_mod(1nat, m as nat);
                }
            }
            k = k + 1;
        }
        v
    }
}

/// `traps` is a stream of `count` traps from an engine seeded with `seed`:
/// trap `i` has nonce `i`, generator seed `trap_seed(seed, i)`, and is the
/// engine's trap after `i` picks of its generator.
pub open spec fn generated_stream(seed: u64, count: nat, traps: Seq<TrapView>) -> bool {
    &&& traps.len() == count
    &&& forall|i: int|
        0 <= i < count ==> {
            &&& (#[trigger] traps[i]).generation_nonce == i
            &&& traps[i].deterministic_seed == trap_seed(seed, i as u64)
            &&& engine_trap(fresh(seed).after_all(picks(i as nat)), trap_seed(seed, i as u64), i as u64, traps[i])
        }
}

/// The views of a list of traps.
pub open spec fn trap_views(traps: Seq<Trap>) -> Seq<TrapView> {
    traps.map_values(|t: Trap| t@)
}

/// `count` traps from a fresh engine seeded with `seed`.
pub fn quick_generate(count: usize, seed: u64) -> (v: Vec<Trap>)
    ensures
        generated_stream(seed, count as nat, trap_views(v@)),
{
    let config = EngineConfig::default();
    let mut engine = DynamicTrapEngine::with_config(seed, &config);
    let v = engine.generate_n(count);
    assert forall|i: int| 0 <= i < count implies nonce_after(0, i) == i as u64 by {
        vstd::arithmetic::div_mod::lemma_small_mod(i as nat, 0x1_0000_0000_0000_0000nat);
    }
    assert forall|i: int| 0 <= i < count implies #[trigger] trap_views(v@)[i] == v@[i]@ by {}
    v
}

/// Two streams from the same seed agree trap by trap on everything but the
/// ids: nonce, generator seed, category, severity, code, description and
/// expected failure; and every trap in them has a severity between 7 and 10.
pub proof fn lemma_streams_agree_on_seeds(
    seed: u64,
    count: nat,
    a: Seq<TrapView>,
    b: Seq<TrapView>,
    i: int,
)
    requires
        generated_stream(seed, count, a),
        generated_stream(seed, count, b),
        0 <= i < count,
    ensures
        without_id(a[i]) == without_id(b[i]),
        a[i].deterministic_seed == trap_seed(seed, i as u64),
        7 <= a[i].severity <= 10,
{
    lemma_engine_trap_shape(fresh(seed).after_all(picks(i as nat)), trap_seed(seed, i as u64), i as u64, a[i]);
}

} // verus!

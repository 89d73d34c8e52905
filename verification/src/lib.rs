//! A rule-based generator for vectorized sparse-linear-algebra micro-kernels.
//!
//! The engine in this file is a forward-chaining production system: a
//! [`StateManager`] holds pending state tokens keyed by category and lane, a
//! [`RegisterPool`] tracks which of the 32 vector-register slots are free, and
//! [`drive`] repeatedly fires the first rule of an ordered rulebook whose
//! condition matches, collecting emitted instruction fragments into an
//! [`Assembly`], until no rule matches.  Kernel generators (sparse
//! matrix-vector product, triangular solve, symmetric Gauss-Seidel) are
//! clients of this engine: each supplies a rulebook, an initial register
//! availability mask and a seed token list.

use vstd::prelude::*;

pub mod assembly;
pub mod accumulate;
pub mod argument;
pub mod codegen;
pub mod microkernel;
pub mod sparse_matrix;
pub mod spmv;
pub mod sptrsv;
pub mod symgs;
pub mod tools;

pub use assembly::Assembly;
pub use assembly::AssemblyView;
pub use assembly::Instruction;
pub use assembly::PrefetchType;

verus! {

/// Bound on driver iterations; a rulebook that runs longer is treated as
/// non-terminating (a malformed rulebook, reported as an engine defect).
pub const MAX_RULE_FIRINGS: u64 = 1000000;

/// Tracks which of the 32 abstract vector-register slots are free.
///
/// `true` means available.  A completed generation run must return the pool
/// to exactly the state it started in; [`drive`] checks this.
pub struct RegisterPool {
    avail: [bool; 32],
}

impl View for RegisterPool {
    type V = Seq<bool>;

    closed spec fn view(&self) -> Seq<bool> {
        self.avail@
    }
}

impl RegisterPool {
    /// Creates a pool from an availability mask (`true` = free slot).
    pub fn new(avail_registers: [bool; 32]) -> (r: Self)
        ensures
            r@ == avail_registers@,
    {
        RegisterPool {
            avail: avail_registers,
        }
    }

    /// Acquires the lowest-numbered free slot, or returns `None` when no
    /// slot remains free.
    pub fn try_get(&mut self) -> (r: Option<u8>)
        ensures
            match r {
                Some(i) => i < 32 && old(self)@[i as int] && (forall|j: int|
                    0 <= j < i ==> !old(self)@[j]) && final(self)@ == old(self)@.update(
                    i as int,
                    false,
                ),
                None => final(self)@ == old(self)@ && (forall|j: int|
                    0 <= j < 32 ==> !old(self)@[j]),
            },
    {
        let mut i: usize = 0;
        while i < 32
            invariant
                i <= 32,
                self@ == old(self)@,
                forall|j: int| 0 <= j < i ==> !self@[j],
            decreases 32 - i,
        {
            if self.avail[i] {
                self.avail.set(i, false);
                return Some(i as u8);
            }
            i += 1;
        }
        None
    }

    /// Acquires the lowest-numbered free slot and marks it unavailable.
    /// At least one slot must be free.
    pub fn get(&mut self) -> (r: u8)
        requires
            exists|j: int| 0 <= j < 32 && old(self)@[j],
        ensures
            r < 32,
            old(self)@[r as int],
            forall|j: int| 0 <= j < r ==> !old(self)@[j],
            final(self)@ == old(self)@.update(r as int, false),
    {
        match self.try_get() {
            Some(i) => i,
            None => vstd::pervasive::unreached(),
        }
    }

    /// Marks the given slot unavailable.  The slot must currently be free.
    pub fn allocate(&mut self, i: u8)
        requires
            i < 32,
            old(self)@[i as int],
        ensures
            final(self)@ == old(self)@.update(i as int, false),
    {
        self.avail.set(i as usize, false);
    }

    /// Marks the given slot available.  Releasing an already-free slot is a
    /// no-op by design: rules may conservatively release slots whose
    /// ownership is ambiguous.
    pub fn free(&mut self, i: u8)
        requires
            i < 32,
        ensures
            final(self)@ == old(self)@.update(i as int, true),
    {
        self.avail.set(i as usize, true);
    }

    /// Exposes the current availability mask, for the equality check in the
    /// driver's post-condition.
    pub fn avail_list(&self) -> (r: &[bool; 32])
        ensures
            r@ == self@,
    {
        &self.avail
    }
}

/// A state token: a value of category `id` is available at row-block lane
/// `idx`, materialized in vector-register slot `reg`.
#[derive(Clone, Copy, PartialEq, Eq, Structural, Debug)]
pub struct State {
    pub id: u32,
    pub idx: u8,
    pub reg: u8,
}

/// A declarative token-matching pattern; the condition half of a rule.
#[derive(Clone, Copy, PartialEq, Eq, Structural, Debug)]
pub enum Condition {
    /// The first populated lane of category `id`, lowest lane first.
    Single { id: u32 },
    /// `n_states` tokens of category `id` at lanes `i, i + idx_dist, ...`,
    /// for the smallest such starting lane `i`.
    SameId { id: u32, n_states: u8, idx_dist: u8 },
    /// One token from each of two categories at the smallest lane populated
    /// in both.
    SameIdx { id0: u32, id1: u32 },
}

/// One rule of a rulebook.  The transform that fires with the condition is
/// the [`Generate::transform`] arm at this rule's position in the rulebook:
/// rule order is the tie-break when several conditions match, so position
/// doubles as the transform's identity.
#[derive(Clone, Copy, PartialEq, Eq, Structural, Debug)]
pub struct Rule {
    pub condition: Condition,
}

/// Generation failure.
///
/// `RegisterOverflow` and `IllegalUnrollFactor` and `UnsupportedConfiguration`
/// are recoverable configuration errors.  The remaining variants are engine
/// defects: a malformed rulebook broke an engine invariant, and generation
/// aborts with no partial output.
#[derive(Clone, Copy, PartialEq, Eq, Structural, Debug)]
pub enum GenerateError {
    /// The resource pool ran out of register slots.
    RegisterOverflow,
    /// The row-block size is not evenly divisible by the unrolled-kernel
    /// count.
    IllegalUnrollFactor,
    /// The configuration asks for a path the instruction vocabulary does not
    /// implement (for example a row-block width with an incomplete reduction
    /// tree).
    UnsupportedConfiguration,
    /// A transform produced a token for an already-occupied category/lane
    /// slot, or a token outside the 32-lane/32-slot range.
    StateCollision,
    /// The rulebook reached a fixpoint with tokens still pending.
    UnconsumedStates,
    /// The register pool did not return to its initial state.
    PoolStateChanged,
    /// The rulebook fired more than [`MAX_RULE_FIRINGS`] rules; treated as
    /// non-termination.
    NonTermination,
}

impl GenerateError {
    /// A human-readable description of the failure.
    pub fn message(&self) -> (r: &'static str)
        ensures
            r@ == match self {
                GenerateError::RegisterOverflow => "vector register overflow"@,
                GenerateError::IllegalUnrollFactor => "illegal unroll factor"@,
                GenerateError::UnsupportedConfiguration => "unsupported configuration"@,
                GenerateError::StateCollision => "state inserted into an occupied slot"@,
                GenerateError::UnconsumedStates => "not every state is consumed"@,
                GenerateError::PoolStateChanged => "register pool is changed"@,
                GenerateError::NonTermination => "rulebook did not reach a fixpoint"@,
            },
    {
        let r = match self {
            GenerateError::RegisterOverflow => "vector register overflow",
            GenerateError::IllegalUnrollFactor => "illegal unroll factor",
            GenerateError::UnsupportedConfiguration => "unsupported configuration",
            GenerateError::StateCollision => "state inserted into an occupied slot",
            GenerateError::UnconsumedStates => "not every state is consumed",
            GenerateError::PoolStateChanged => "register pool is changed",
            GenerateError::NonTermination => "rulebook did not reach a fixpoint",
        };
        r
    }
}

} // verus!

verus! {

// ---------------------------------------------------------------------------
// The token store.
// ---------------------------------------------------------------------------
/// Holds pending state tokens, keyed by category and lane index.
///
/// The mathematical value (the view) is a total map from category to a
/// 32-lane array of optional register slots; a category that was never
/// inserted reads as an all-empty lane array.  The store is kept as an
/// association list rather than a hash map so that iteration order — and
/// with it the deterministic lowest-lane tie-break — is part of the verified
/// code, not of a hasher.
pub struct StateManager {
    state_map: Vec<(u32, Vec<Option<u8>>)>,
}

impl StateManager {
    /// Internal invariant: category keys are unique, each lane array has
    /// exactly 32 entries, and every stored payload is a valid slot number.
    pub closed spec fn inv(self) -> bool {
        &&& forall|i: int, j: int|
            0 <= i < j < self.state_map@.len() ==> (#[trigger] self.state_map@[i]).0 != (
            #[trigger] self.state_map@[j]).0
        &&& forall|i: int|
            0 <= i < self.state_map@.len() ==> (#[trigger] self.state_map@[i]).1@.len() == 32
        &&& forall|i: int, l: int|
            0 <= i < self.state_map@.len() && 0 <= l < 32 ==> ((#[trigger] self.state_map@[i].1@[l])
                matches Some(r) ==> r < 32)
    }

    spec fn lanes_rec(s: Seq<(u32, Vec<Option<u8>>)>, id: u32) -> Seq<Option<u8>>
        decreases s.len(),
    {
        if s.len() == 0 {
            Seq::new(32, |l: int| None)
        } else if s[0].0 == id {
            s[0].1@
        } else {
            Self::lanes_rec(s.drop_first(), id)
        }
    }

    /// The lane array of one category.
    pub closed spec fn lanes(self, id: u32) -> Seq<Option<u8>> {
        Self::lanes_rec(self.state_map@, id)
    }
}

impl View for StateManager {
    type V = Map<u32, Seq<Option<u8>>>;

    /// The total category-to-lanes map.
    closed spec fn view(&self) -> Map<u32, Seq<Option<u8>>> {
        Map::new(|id: u32| true, |id: u32| self.lanes(id))
    }
}

/// Whether one token can be inserted: its lane and payload are in range and
/// its category/lane slot is unoccupied.
pub open spec fn spec_insert_ok_one(m: Map<u32, Seq<Option<u8>>>, s: State) -> bool {
    s.idx < 32 && s.reg < 32 && m[s.id][s.idx as int] is None
}

/// The store after inserting one token.
pub open spec fn spec_insert_one(m: Map<u32, Seq<Option<u8>>>, s: State) -> Map<
    u32,
    Seq<Option<u8>>,
> {
    m.insert(s.id, m[s.id].update(s.idx as int, Some(s.reg)))
}

/// The store after inserting a list of tokens in order.
pub open spec fn spec_insert_all(m: Map<u32, Seq<Option<u8>>>, states: Seq<State>) -> Map<
    u32,
    Seq<Option<u8>>,
>
    decreases states.len(),
{
    if states.len() == 0 {
        m
    } else {
        spec_insert_one(spec_insert_all(m, states.drop_last()), states.last())
    }
}

/// Whether a whole list of tokens inserts without a collision.
pub open spec fn spec_insert_all_ok(m: Map<u32, Seq<Option<u8>>>, states: Seq<State>) -> bool
    decreases states.len(),
{
    if states.len() == 0 {
        true
    } else {
        spec_insert_all_ok(m, states.drop_last()) && spec_insert_ok_one(
            spec_insert_all(m, states.drop_last()),
            states.last(),
        )
    }
}

impl StateManager {
    proof fn lemma_lanes_absent(s: Seq<(u32, Vec<Option<u8>>)>, id: u32)
        requires
            forall|i: int| 0 <= i < s.len() ==> (#[trigger] s[i]).0 != id,
        ensures
            Self::lanes_rec(s, id) == Seq::new(32, |l: int| None::<u8>),
        decreases s.len(),
    {
        if s.len() > 0 {
            assert(s[0].0 != id);
            assert(forall|i: int|
                0 <= i < s.drop_first().len() ==> (#[trigger] s.drop_first()[i]).0 != id) by {
                assert(forall|i: int|
                    0 <= i < s.drop_first().len() ==> s.drop_first()[i] == s[i + 1]);
            }
            Self::lemma_lanes_absent(s.drop_first(), id);
        }
    }

    proof fn lemma_lanes_found(s: Seq<(u32, Vec<Option<u8>>)>, i: int)
        requires
            0 <= i < s.len(),
            forall|j: int| 0 <= j < i ==> (#[trigger] s[j]).0 != s[i].0,
        ensures
            Self::lanes_rec(s, s[i].0) == s[i].1@,
        decreases s.len(),
    {
        if i > 0 {
            assert(s.drop_first()[i - 1] == s[i]);
            assert(forall|j: int|
                0 <= j < i - 1 ==> (#[trigger] s.drop_first()[j]).0 != s.drop_first()[i - 1].0) by {
                assert(forall|j: int|
                    0 <= j < s.drop_first().len() ==> s.drop_first()[j] == s[j + 1]);
            }
            Self::lemma_lanes_found(s.drop_first(), i - 1);
        }
    }

    proof fn lemma_lanes_update_same(s: Seq<(u32, Vec<Option<u8>>)>, i: int, e: (
        u32,
        Vec<Option<u8>>,
    ))
        requires
            0 <= i < s.len(),
            e.0 == s[i].0,
            forall|j: int| 0 <= j < i ==> (#[trigger] s[j]).0 != s[i].0,
        ensures
            Self::lanes_rec(s.update(i, e), e.0) == e.1@,
        decreases s.len(),
    {
        if i == 0 {
            assert(s.update(0, e)[0] == e);
        } else {
            assert(s.update(i, e)[0] == s[0]);
            assert(s[0].0 != e.0);
            assert(s.update(i, e).drop_first() =~= s.drop_first().update(i - 1, e));
            assert(forall|j: int| 0 <= j < s.drop_first().len() ==> s.drop_first()[j] == s[j + 1]);
            Self::lemma_lanes_update_same(s.drop_first(), i - 1, e);
        }
    }

    proof fn lemma_lanes_update_other(
        s: Seq<(u32, Vec<Option<u8>>)>,
        i: int,
        e: (u32, Vec<Option<u8>>),
        id: u32,
    )
        requires
            0 <= i < s.len(),
            e.0 == s[i].0,
            id != e.0,
        ensures
            Self::lanes_rec(s.update(i, e), id) == Self::lanes_rec(s, id),
        decreases s.len(),
    {
        if i == 0 {
            assert(s.update(0, e)[0] == e);
            assert(s.update(0, e).drop_first() =~= s.drop_first());
        } else {
            assert(s.update(i, e)[0] == s[0]);
            assert(s.update(i, e).drop_first() =~= s.drop_first().update(i - 1, e));
            assert(forall|j: int| 0 <= j < s.drop_first().len() ==> s.drop_first()[j] == s[j + 1]);
            Self::lemma_lanes_update_other(s.drop_first(), i - 1, e, id);
        }
    }

    proof fn lemma_lanes_push_same(s: Seq<(u32, Vec<Option<u8>>)>, e: (u32, Vec<Option<u8>>))
        requires
            forall|i: int| 0 <= i < s.len() ==> (#[trigger] s[i]).0 != e.0,
        ensures
            Self::lanes_rec(s.push(e), e.0) == e.1@,
        decreases s.len(),
    {
        if s.len() == 0 {
            assert(s.push(e)[0] == e);
        } else {
            assert(s.push(e)[0] == s[0]);
            assert(s[0].0 != e.0);
            assert(s.push(e).drop_first() =~= s.drop_first().push(e));
            assert(forall|i: int| 0 <= i < s.drop_first().len() ==> s.drop_first()[i] == s[i + 1]);
            Self::lemma_lanes_push_same(s.drop_first(), e);
        }
    }

    proof fn lemma_lanes_push_other(s: Seq<(u32, Vec<Option<u8>>)>, e: (u32, Vec<Option<u8>>), id: u32)
        requires
            id != e.0,
        ensures
            Self::lanes_rec(s.push(e), id) == Self::lanes_rec(s, id),
        decreases s.len(),
    {
        if s.len() == 0 {
            assert(s.push(e)[0] == e);
            assert(s.push(e).drop_first() =~= Seq::<(u32, Vec<Option<u8>>)>::empty());
            assert(Self::lanes_rec(s.push(e), id) == Self::lanes_rec(
                Seq::<(u32, Vec<Option<u8>>)>::empty(),
                id,
            ));
            assert(Self::lanes_rec(Seq::<(u32, Vec<Option<u8>>)>::empty(), id) == Seq::new(
                32,
                |l: int| None::<u8>,
            ));
        } else {
            assert(s.push(e)[0] == s[0]);
            assert(s.push(e).drop_first() =~= s.drop_first().push(e));
            Self::lemma_lanes_push_other(s.drop_first(), e, id);
        }
    }

    /// Inserts one token; a collision or an out-of-range token is an engine
    /// defect.
    fn insert_state(&mut self, s: State) -> (r: Result<(), GenerateError>)
        requires
            old(self).inv(),
        ensures
            final(self).inv(),
            match r {
                Ok(()) => spec_insert_ok_one(old(self)@, s) && final(self)@ == spec_insert_one(
                    old(self)@,
                    s,
                ),
                Err(e) => e == GenerateError::StateCollision && !spec_insert_ok_one(old(self)@, s)
                    && final(self)@ == old(self)@,
            },
    {
        if s.idx >= 32 || s.reg >= 32 {
            return Err(GenerateError::StateCollision);
        }
        let ghost pre = self.state_map@;
        let n = self.state_map.len();
        let mut i: usize = 0;
        while i < n
            invariant
                self.inv(),
                s.idx < 32,
                s.reg < 32,
                n == self.state_map@.len(),
                i <= n,
                self.state_map@ == pre,
                pre == old(self).state_map@,
                forall|j: int| 0 <= j < i ==> (#[trigger] pre[j]).0 != s.id,
            decreases n - i,
        {
            if self.state_map[i].0 == s.id {
                proof {
                    Self::lemma_lanes_found(pre, i as int);
                    assert(self.state_map@[i as int].1@.len() == 32);
                }
                // The category exists: occupy the lane unless it is taken.
                let mut entry = self.state_map.remove(i);
                proof {
                    assert(entry == pre[i as int]);
                    assert(entry.1@.len() == 32);
                }
                if entry.1[s.idx as usize].is_some() {
                    self.state_map.insert(i, entry);
                    proof {
                        assert(self.state_map@ =~= pre);
                        assert(self@ =~= old(self)@);
                    }
                    return Err(GenerateError::StateCollision);
                }
                entry.1.set(s.idx as usize, Some(s.reg));
                self.state_map.insert(i, entry);
                proof {
                    let sm = self.state_map@;
                    assert(sm =~= pre.update(i as int, sm[i as int]));
                    assert(sm[i as int].1@ =~= pre[i as int].1@.update(s.idx as int, Some(s.reg)));
                    assert forall|id: u32| #[trigger] self.lanes(id) == spec_insert_one(
                        old(self)@,
                        s,
                    )[id] by {
                        if id == s.id {
                            Self::lemma_lanes_update_same(pre, i as int, sm[i as int]);
                        } else {
                            Self::lemma_lanes_update_other(pre, i as int, sm[i as int], id);
                        }
                    }
                    assert(self@ =~= spec_insert_one(old(self)@, s));
                }
                return Ok(());
            }
            i += 1;
        }
        proof {
            Self::lemma_lanes_absent(pre, s.id);
        }
        // New category: an all-empty lane array with one lane occupied.
        let mut arr: Vec<Option<u8>> = Vec::new();
        let mut l: usize = 0;
        while l < 32
            invariant
                l <= 32,
                arr@ =~= Seq::new(l as nat, |x: int| None::<u8>),
            decreases 32 - l,
        {
            arr.push(None);
            proof {
                assert(arr@ =~= Seq::new((l + 1) as nat, |x: int| None::<u8>));
            }
            l += 1;
        }
        arr.set(s.idx as usize, Some(s.reg));
        self.state_map.push((s.id, arr));
        proof {
            let sm = self.state_map@;
            assert(sm =~= pre.push(sm[pre.len() as int]));
            assert(sm[pre.len() as int].0 == s.id);
            assert(sm[pre.len() as int].1@ =~= Seq::new(32, |x: int| None::<u8>).update(
                s.idx as int,
                Some(s.reg),
            ));
            Self::lemma_lanes_absent(pre, s.id);
            assert forall|id: u32| #[trigger] self.lanes(id) == spec_insert_one(old(self)@, s)[id]
                by {
                if id == s.id {
                    Self::lemma_lanes_push_same(pre, sm[pre.len() as int]);
                } else {
                    Self::lemma_lanes_push_other(pre, sm[pre.len() as int], id);
                }
            }
            assert(self@ =~= spec_insert_one(old(self)@, s));
        }
        Ok(())
    }
}

} // verus!

verus! {

/// The all-empty token store: every category reads as 32 empty lanes.
pub open spec fn spec_empty_store() -> Map<u32, Seq<Option<u8>>> {
    Map::new(|id: u32| true, |id: u32| Seq::new(32, |l: int| None::<u8>))
}

/// No token is pending in any category at any lane.
pub open spec fn spec_store_empty(m: Map<u32, Seq<Option<u8>>>) -> bool {
    forall|id: u32, l: int| 0 <= l < 32 ==> #[trigger] m[id][l] is None
}

/// Lanes `start, start + d, ...` (`n` of them) are all populated.
pub open spec fn spec_window(lanes: Seq<Option<u8>>, start: int, n: int, d: int) -> bool {
    forall|k: int| 0 <= k < n ==> 0 <= start + k * d < 32 && (#[trigger] lanes[start + k * d])
        is Some
}

/// The lane array after consuming the window at `start`.
pub open spec fn spec_clear(lanes: Seq<Option<u8>>, start: int, n: int, d: int) -> Seq<Option<u8>>
    decreases n,
{
    if n <= 0 {
        lanes
    } else {
        spec_clear(lanes, start, n - 1, d).update(start + (n - 1) * d, None)
    }
}

impl StateManager {
    proof fn lemma_insert_all_ok_prefix(m: Map<u32, Seq<Option<u8>>>, states: Seq<State>, i: int)
        requires
            spec_insert_all_ok(m, states),
            0 <= i < states.len(),
        ensures
            spec_insert_ok_one(spec_insert_all(m, states.take(i)), states[i]),
        decreases states.len(),
    {
        if i == states.len() - 1 {
            assert(states.take(i) =~= states.drop_last());
        } else {
            assert(states.drop_last().take(i) =~= states.take(i));
            assert(states.drop_last()[i] == states[i]);
            Self::lemma_insert_all_ok_prefix(m, states.drop_last(), i);
        }
    }

    proof fn lemma_lanes_cases(s: Seq<(u32, Vec<Option<u8>>)>, id: u32)
        ensures
            (exists|i: int|
                0 <= i < s.len() && (#[trigger] s[i]).0 == id && Self::lanes_rec(s, id) == s[i].1@)
                || ((forall|i: int| 0 <= i < s.len() ==> (#[trigger] s[i]).0 != id)
                && Self::lanes_rec(s, id) == Seq::new(32, |l: int| None::<u8>)),
        decreases s.len(),
    {
        if s.len() == 0 {
            assert(Self::lanes_rec(s, id) == Seq::new(32, |l: int| None::<u8>));
        } else {
            if s[0].0 == id {
                assert(0 <= 0 < s.len() && s[0].0 == id && Self::lanes_rec(s, id) == s[0].1@);
            } else {
                Self::lemma_lanes_cases(s.drop_first(), id);
                assert(forall|i: int| 0 <= i < s.drop_first().len() ==> s.drop_first()[i] == s[i + 1]);
                if exists|i: int|
                    0 <= i < s.drop_first().len() && (#[trigger] s.drop_first()[i]).0 == id
                        && Self::lanes_rec(s.drop_first(), id) == s.drop_first()[i].1@ {
                    let i = choose|i: int|
                        0 <= i < s.drop_first().len() && (#[trigger] s.drop_first()[i]).0 == id
                            && Self::lanes_rec(s.drop_first(), id) == s.drop_first()[i].1@;
                    assert(0 <= i + 1 < s.len() && s[i + 1].0 == id && Self::lanes_rec(s, id) == s[i
                        + 1].1@);
                } else {
                    assert forall|i: int| 0 <= i < s.len() implies (#[trigger] s[i]).0 != id by {
                        if i > 0 {
                            assert(s.drop_first()[i - 1] == s[i]);
                        }
                    }
                }
            }
        }
    }

    /// Creates a store holding the given seed tokens.
    pub fn new(states: Vec<State>) -> (r: Result<StateManager, GenerateError>)
        ensures
            match r {
                Ok(m) => m.inv() && spec_insert_all_ok(spec_empty_store(), states@) && m@
                    == spec_insert_all(spec_empty_store(), states@),
                Err(e) => e == GenerateError::StateCollision && !spec_insert_all_ok(
                    spec_empty_store(),
                    states@,
                ),
            },
    {
        let mut m = StateManager { state_map: Vec::new() };
        proof {
            assert(m@ =~= spec_empty_store());
        }
        match m.insert_states(states) {
            Ok(()) => Ok(m),
            Err(e) => Err(e),
        }
    }

    /// Inserts a list of tokens in order; any collision aborts with an
    /// engine defect.
    pub fn insert_states(&mut self, states: Vec<State>) -> (r: Result<(), GenerateError>)
        requires
            old(self).inv(),
        ensures
            final(self).inv(),
            match r {
                Ok(()) => spec_insert_all_ok(old(self)@, states@) && final(self)@ == spec_insert_all(
                    old(self)@,
                    states@,
                ),
                Err(e) => e == GenerateError::StateCollision && !spec_insert_all_ok(
                    old(self)@,
                    states@,
                ) && exists|i: int|
                    0 <= i < states@.len() && #[trigger] spec_insert_all_ok(
                        old(self)@,
                        states@.take(i),
                    ) && !spec_insert_ok_one(
                        spec_insert_all(old(self)@, states@.take(i)),
                        states@[i],
                    ) && final(self)@ == spec_insert_all(old(self)@, states@.take(i)),
            },
    {
        let n = states.len();
        let mut i: usize = 0;
        while i < n
            invariant
                self.inv(),
                n == states@.len(),
                i <= n,
                spec_insert_all_ok(old(self)@, states@.take(i as int)),
                self@ == spec_insert_all(old(self)@, states@.take(i as int)),
            decreases n - i,
        {
            let s = states[i];
            let ghost pre = self@;
            match self.insert_state(s) {
                Ok(()) => {},
                Err(e) => {
                    proof {
                        if spec_insert_all_ok(old(self)@, states@) {
                            Self::lemma_insert_all_ok_prefix(old(self)@, states@, i as int);
                        }
                    }
                    return Err(e);
                },
            }
            proof {
                assert(states@.take(i + 1 as int).drop_last() =~= states@.take(i as int));
                assert(states@.take(i + 1 as int).last() == states@[i as int]);
            }
            i += 1;
        }
        proof {
            assert(states@.take(n as int) =~= states@);
        }
        Ok(())
    }

    /// Consumes the lowest-lane token of one category, if any.
    pub fn take_single_state(&mut self, state_id: u32) -> (r: Option<State>)
        requires
            old(self).inv(),
        ensures
            final(self).inv(),
            match r {
                Some(st) => st.id == state_id && st.idx < 32 && st.reg < 32 && old(
                    self,
                )@[state_id][st.idx as int] == Some(st.reg) && (forall|l: int|
                    0 <= l < st.idx ==> old(self)@[state_id][l] is None) && final(self)@ == old(
                    self,
                )@.insert(state_id, old(self)@[state_id].update(st.idx as int, None)),
                None => final(self)@ == old(self)@ && (forall|l: int|
                    0 <= l < 32 ==> old(self)@[state_id][l] is None),
            },
    {
        let ghost pre = self.state_map@;
        let n = self.state_map.len();
        let mut i: usize = 0;
        while i < n
            invariant
                self.inv(),
                n == self.state_map@.len(),
                i <= n,
                self.state_map@ == pre,
                pre == old(self).state_map@,
                forall|j: int| 0 <= j < i ==> (#[trigger] pre[j]).0 != state_id,
            decreases n - i,
        {
            if self.state_map[i].0 == state_id {
                proof {
                    Self::lemma_lanes_found(pre, i as int);
                    assert(self.state_map@[i as int].1@.len() == 32);
                }
                let mut entry = self.state_map.remove(i);
                proof {
                    assert(entry == pre[i as int]);
                }
                let mut l: usize = 0;
                while l < 32
                    invariant
                        entry == pre[i as int],
                        entry.1@.len() == 32,
                        l <= 32,
                        i < pre.len(),
                        pre.len() <= usize::MAX,
                        self.state_map@ == pre.remove(i as int),
                        pre == old(self).state_map@,
                        old(self).inv(),
                        pre[i as int].0 == state_id,
                        forall|j: int| 0 <= j < i ==> (#[trigger] pre[j]).0 != state_id,
                        forall|x: int| 0 <= x < l ==> entry.1@[x] is None,
                    decreases 32 - l,
                {
                    if entry.1[l].is_some() {
                        let reg = match entry.1[l] {
                            Some(rg) => rg,
                            None => vstd::pervasive::unreached(),
                        };
                        entry.1.set(l, None);
                        self.state_map.insert(i, entry);
                        proof {
                            Self::lemma_lanes_found(pre, i as int);
                            assert(old(self)@[state_id] == pre[i as int].1@);
                            let sm = self.state_map@;
                            assert(sm =~= pre.update(i as int, sm[i as int]));
                            assert(sm[i as int].1@ =~= pre[i as int].1@.update(l as int, None));
                            assert forall|id: u32| #[trigger] self.lanes(id) == old(self)@.insert(
                                state_id,
                                old(self)@[state_id].update(l as int, None),
                            )[id] by {
                                if id == state_id {
                                    Self::lemma_lanes_update_same(pre, i as int, sm[i as int]);
                                } else {
                                    Self::lemma_lanes_update_other(pre, i as int, sm[i as int], id);
                                }
                            }
                            assert(self@ =~= old(self)@.insert(
                                state_id,
                                old(self)@[state_id].update(l as int, None),
                            ));
                        }
                        return Some(State { id: state_id, idx: l as u8, reg });
                    }
                    l += 1;
                }
                self.state_map.insert(i, entry);
                proof {
                    Self::lemma_lanes_found(pre, i as int);
                    assert(old(self)@[state_id] == pre[i as int].1@);
                    assert(self.state_map@ =~= pre);
                    assert(self@ =~= old(self)@);
                }
                return None;
            }
            i += 1;
        }
        proof {
            Self::lemma_lanes_absent(pre, state_id);
        }
        None
    }

    /// Whether the store is globally empty, across all categories and
    /// lanes.
    pub fn is_empty(&self) -> (r: bool)
        requires
            self.inv(),
        ensures
            r == spec_store_empty(self@),
    {
        let n = self.state_map.len();
        let mut i: usize = 0;
        while i < n
            invariant
                self.inv(),
                n == self.state_map@.len(),
                i <= n,
                forall|j: int, x: int|
                    0 <= j < i && 0 <= x < 32 ==> (#[trigger] self.state_map@[j].1@[x]) is None,
            decreases n - i,
        {
            proof {
                assert(self.state_map@[i as int].1@.len() == 32);
            }
            let mut l: usize = 0;
            while l < 32
                invariant
                    self.inv(),
                    n == self.state_map@.len(),
                    i < n,
                    l <= 32,
                    self.state_map@[i as int].1@.len() == 32,
                    forall|j: int, x: int|
                        0 <= j < i && 0 <= x < 32 ==> (#[trigger] self.state_map@[j].1@[x]) is None,
                    forall|x: int| 0 <= x < l ==> (#[trigger] self.state_map@[i as int].1@[x]) is None,
                decreases 32 - l,
            {
                if self.state_map[i].1[l].is_some() {
                    proof {
                        Self::lemma_lanes_found(self.state_map@, i as int);
                        assert(self@[self.state_map@[i as int].0][l as int] is Some);
                    }
                    return false;
                }
                l += 1;
            }
            i += 1;
        }
        proof {
            assert forall|id: u32, l: int| 0 <= l < 32 implies #[trigger] self@[id][l] is None by {
                Self::lemma_lanes_cases(self.state_map@, id);
            }
        }
        true
    }
}

} // verus!

verus! {

impl StateManager {
    proof fn lemma_clear_len(lanes: Seq<Option<u8>>, start: int, n: int, d: int)
        requires
            forall|k: int| 0 <= k < n ==> 0 <= start + #[trigger] (k * d) < lanes.len(),
        ensures
            spec_clear(lanes, start, n, d).len() == lanes.len(),
        decreases n,
    {
        if n > 0 {
            assert(0 <= start + (n - 1) * d < lanes.len());
            Self::lemma_clear_len(lanes, start, n - 1, d);
        }
    }

    proof fn lemma_clear_untouched(lanes: Seq<Option<u8>>, start: int, n: int, d: int, pos: int)
        requires
            0 <= pos < lanes.len(),
            forall|k: int| 0 <= k < n ==> 0 <= start + #[trigger] (k * d) < lanes.len(),
            forall|k: int| 0 <= k < n ==> pos != start + #[trigger] (k * d),
        ensures
            spec_clear(lanes, start, n, d)[pos] == lanes[pos],
        decreases n,
    {
        if n > 0 {
            assert(pos != start + (n - 1) * d);
            assert(0 <= start + (n - 1) * d < lanes.len());
            Self::lemma_clear_len(lanes, start, n - 1, d);
            Self::lemma_clear_untouched(lanes, start, n - 1, d, pos);
        }
    }

    /// Consumes `n_states` tokens of one category spaced `idx_dist` lanes
    /// apart, from the smallest starting lane where such a window is fully
    /// populated.
    pub fn take_same_id_states(&mut self, state_id: u32, n_states: u8, idx_dist: u8) -> (r: Option<
        Vec<State>,
    >)
        requires
            old(self).inv(),
            n_states > 0,
            idx_dist > 0,
        ensures
            final(self).inv(),
            match r {
                Some(v) => v@.len() == n_states && (forall|k: int|
                    0 <= k < n_states ==> (#[trigger] v@[k]).id == state_id && v@[k].idx as int
                        == v@[0].idx + k * idx_dist && v@[k].idx < 32 && v@[k].reg < 32 && old(
                        self,
                    )@[state_id][v@[0].idx + k * idx_dist] == Some(v@[k].reg)) && spec_window(
                    old(self)@[state_id],
                    v@[0].idx as int,
                    n_states as int,
                    idx_dist as int,
                ) && (forall|s2: int|
                    0 <= s2 < v@[0].idx ==> !spec_window(
                        old(self)@[state_id],
                        s2,
                        n_states as int,
                        idx_dist as int,
                    )) && final(self)@ == old(self)@.insert(
                    state_id,
                    spec_clear(
                        old(self)@[state_id],
                        v@[0].idx as int,
                        n_states as int,
                        idx_dist as int,
                    ),
                ),
                None => final(self)@ == old(self)@ && (forall|s2: int|
                    0 <= s2 ==> !spec_window(
                        old(self)@[state_id],
                        s2,
                        n_states as int,
                        idx_dist as int,
                    )),
            },
    {
        let ghost pre = self.state_map@;
        let n_entries = self.state_map.len();
        let mut i: usize = 0;
        while i < n_entries
            invariant
                self.inv(),
                n_states > 0,
                idx_dist > 0,
                n_entries == self.state_map@.len(),
                i <= n_entries,
                self.state_map@ == pre,
                pre == old(self).state_map@,
                forall|j: int| 0 <= j < i ==> (#[trigger] pre[j]).0 != state_id,
            decreases n_entries - i,
        {
            if self.state_map[i].0 == state_id {
                proof {
                    Self::lemma_lanes_found(pre, i as int);
                    assert(old(self)@[state_id] == pre[i as int].1@);
                    assert(pre[i as int].1@.len() == 32);
                }
                let ghost lanes0 = pre[i as int].1@;
                proof {
                    assert((n_states as u32 - 1) * (idx_dist as u32) <= 254 * 255)
                        by (nonlinear_arith)
                        requires
                            n_states as u32 - 1 <= 254,
                            idx_dist as u32 <= 255,
                            n_states as u32 >= 1,
                    ;
                }
                let span: u32 = (n_states as u32 - 1) * (idx_dist as u32);
                if span >= 32 {
                    proof {
                        assert forall|s2: int|
                            0 <= s2 implies !spec_window(
                            lanes0,
                            s2,
                            n_states as int,
                            idx_dist as int,
                        ) by {
                            if spec_window(lanes0, s2, n_states as int, idx_dist as int) {
                                assert(lanes0[s2 + (n_states - 1) * idx_dist] is Some);
                            }
                        }
                    }
                    return None;
                }
                let limit: u32 = 32 - span;
                let mut start: u32 = 0;
                while start < limit
                    invariant
                        self.inv(),
                        n_states > 0,
                        idx_dist > 0,
                        n_entries == self.state_map@.len(),
                        i < n_entries,
                        self.state_map@ == pre,
                        pre == old(self).state_map@,
                        pre[i as int].0 == state_id,
                        forall|j: int| 0 <= j < i ==> (#[trigger] pre[j]).0 != state_id,
                        lanes0 == pre[i as int].1@,
                        lanes0 == old(self)@[state_id],
                        lanes0.len() == 32,
                        span == (n_states as u32 - 1) * (idx_dist as u32),
                        span < 32,
                        limit == 32 - span,
                        start <= limit,
                        forall|s2: int|
                            0 <= s2 < start ==> !spec_window(
                                lanes0,
                                s2,
                                n_states as int,
                                idx_dist as int,
                            ),
                    decreases limit - start,
                {
                    let mut k: u32 = 0;
                    let mut ok = true;
                    while k < n_states as u32
                        invariant
                            self.inv(),
                            n_states > 0,
                            idx_dist > 0,
                            n_entries == self.state_map@.len(),
                            i < n_entries,
                            self.state_map@ == pre,
                            pre[i as int].0 == state_id,
                            lanes0 == pre[i as int].1@,
                            lanes0.len() == 32,
                            span == (n_states as u32 - 1) * (idx_dist as u32),
                            span < 32,
                            limit == 32 - span,
                            start < limit,
                            k <= n_states as u32,
                            ok ==> forall|k2: int|
                                0 <= k2 < k ==> 0 <= start + k2 * idx_dist < 32 && (
                                #[trigger] lanes0[start + k2 * idx_dist]) is Some,
                            !ok ==> !spec_window(lanes0, start as int, n_states as int, idx_dist as int),
                        decreases n_states as u32 - k,
                    {
                        if ok {
                            proof {
                                assert(k * (idx_dist as u32) <= (n_states as u32 - 1) * (
                                idx_dist as u32)) by (nonlinear_arith)
                                    requires
                                        k <= n_states as u32 - 1,
                                        idx_dist as u32 >= 0,
                                ;
                            }
                            let pos: u32 = start + k * (idx_dist as u32);
                            if self.state_map[i].1[pos as usize].is_none() {
                                ok = false;
                                proof {
                                    assert(lanes0[start + k * idx_dist] is None);
                                }
                            }
                        }
                        k += 1;
                    }
                    if ok {
                        // The smallest fully-populated window: consume it.
                        let mut entry = self.state_map.remove(i);
                        proof {
                            assert(entry == pre[i as int]);
                            assert(spec_window(lanes0, start as int, n_states as int, idx_dist as int));
                        }
                        let mut v: Vec<State> = Vec::new();
                        let mut k2: u32 = 0;
                        while k2 < n_states as u32
                            invariant
                                n_states > 0,
                                idx_dist > 0,
                                i < pre.len(),
                                pre.len() <= usize::MAX,
                                self.state_map@ == pre.remove(i as int),
                                pre == old(self).state_map@,
                                old(self).inv(),
                                pre[i as int].0 == state_id,
                                forall|j: int| 0 <= j < i ==> (#[trigger] pre[j]).0 != state_id,
                                lanes0 == pre[i as int].1@,
                                lanes0 == old(self)@[state_id],
                                lanes0.len() == 32,
                                span == (n_states as u32 - 1) * (idx_dist as u32),
                                span < 32,
                                start + span < 32,
                                spec_window(lanes0, start as int, n_states as int, idx_dist as int),
                                forall|s2: int|
                                    0 <= s2 < start ==> !spec_window(
                                        lanes0,
                                        s2,
                                        n_states as int,
                                        idx_dist as int,
                                    ),
                                k2 <= n_states as u32,
                                entry.0 == state_id,
                                entry.1@ == spec_clear(lanes0, start as int, k2 as int, idx_dist as int),
                                entry.1@.len() == 32,
                                forall|l: int|
                                    0 <= l < 32 ==> ((#[trigger] entry.1@[l]) matches Some(rv)
                                        ==> rv < 32),
                                v@.len() == k2,
                                forall|k3: int|
                                    0 <= k3 < k2 ==> (#[trigger] v@[k3]).id == state_id
                                        && v@[k3].idx as int == start + k3 * idx_dist && v@[k3].idx
                                        < 32 && v@[k3].reg < 32 && lanes0[start + k3 * idx_dist]
                                        == Some(v@[k3].reg),
                            decreases n_states as u32 - k2,
                        {
                            proof {
                                assert(k2 * (idx_dist as u32) <= (n_states as u32 - 1) * (
                                idx_dist as u32)) by (nonlinear_arith)
                                    requires
                                        k2 <= n_states as u32 - 1,
                                        idx_dist as u32 >= 0,
                                ;
                            }
                            let pos: u32 = start + k2 * (idx_dist as u32);
                            proof {
                                assert(0 <= start + k2 * idx_dist < 32);
                                assert forall|k4: int|
                                    0 <= k4 < k2 implies pos as int != start + #[trigger] (k4
                                    * idx_dist) by {
                                    assert(k4 * idx_dist < k2 * idx_dist) by (nonlinear_arith)
                                        requires
                                            0 <= k4 < k2,
                                            idx_dist > 0,
                                    ;
                                }
                                assert forall|k4: int|
                                    0 <= k4 < k2 implies 0 <= start + #[trigger] (k4 * idx_dist)
                                    < lanes0.len() by {
                                    assert(lanes0[start + k4 * idx_dist] is Some);
                                }
                                Self::lemma_clear_untouched(
                                    lanes0,
                                    start as int,
                                    k2 as int,
                                    idx_dist as int,
                                    pos as int,
                                );
                                assert(entry.1@[pos as int] == lanes0[pos as int]);
                                assert(lanes0[pos as int] is Some);
                            }
                            let reg = match entry.1[pos as usize] {
                                Some(rg) => rg,
                                None => vstd::pervasive::unreached(),
                            };
                            entry.1.set(pos as usize, None);
                            v.push(State { id: state_id, idx: pos as u8, reg });
                            k2 += 1;
                        }
                        self.state_map.insert(i, entry);
                        proof {
                            let sm = self.state_map@;
                            assert(sm =~= pre.update(i as int, sm[i as int]));
                            assert(forall|j: int|
                                0 <= j < sm.len() && j != i ==> sm[j] == pre[j]);
                            assert forall|id: u32| #[trigger] self.lanes(id) == old(self)@.insert(
                                state_id,
                                spec_clear(lanes0, start as int, n_states as int, idx_dist as int),
                            )[id] by {
                                if id == state_id {
                                    Self::lemma_lanes_update_same(pre, i as int, sm[i as int]);
                                } else {
                                    Self::lemma_lanes_update_other(pre, i as int, sm[i as int], id);
                                }
                            }
                            assert(self@ =~= old(self)@.insert(
                                state_id,
                                spec_clear(lanes0, start as int, n_states as int, idx_dist as int),
                            ));
                            assert(v@[0].idx == start);
                        }
                        return Some(v);
                    }
                    start += 1;
                }
                proof {
                    assert forall|s2: int|
                        0 <= s2 implies !spec_window(lanes0, s2, n_states as int, idx_dist as int) by {
                        if s2 >= limit {
                            if spec_window(lanes0, s2, n_states as int, idx_dist as int) {
                                assert(lanes0[s2 + (n_states - 1) * idx_dist] is Some);
                            }
                        }
                    }
                }
                return None;
            }
            i += 1;
        }
        proof {
            Self::lemma_lanes_absent(pre, state_id);
            assert forall|s2: int|
                0 <= s2 implies !spec_window(
                old(self)@[state_id],
                s2,
                n_states as int,
                idx_dist as int,
            ) by {
                if spec_window(old(self)@[state_id], s2, n_states as int, idx_dist as int) {
                    assert(old(self)@[state_id][s2 + 0 * idx_dist] is Some);
                }
            }
        }
        None
    }
}

} // verus!

verus! {

impl StateManager {
    /// Consumes one token from each of two categories at the smallest lane
    /// populated in both.
    pub fn take_same_idx_states(&mut self, state_id0: u32, state_id1: u32) -> (r: Option<
        Vec<State>,
    >)
        requires
            old(self).inv(),
            state_id0 != state_id1,
        ensures
            final(self).inv(),
            match r {
                Some(v) => v@.len() == 2 && v@[0].id == state_id0 && v@[1].id == state_id1
                    && v@[0].idx == v@[1].idx && v@[0].idx < 32 && v@[0].reg < 32 && v@[1].reg < 32
                    && old(self)@[state_id0][v@[0].idx as int] == Some(v@[0].reg) && old(
                    self,
                )@[state_id1][v@[0].idx as int] == Some(v@[1].reg) && (forall|l: int|
                    0 <= l < v@[0].idx ==> !(old(self)@[state_id0][l] is Some && old(
                    self,
                )@[state_id1][l] is Some)) && final(self)@ == old(self)@.insert(
                    state_id0,
                    old(self)@[state_id0].update(v@[0].idx as int, None),
                ).insert(state_id1, old(self)@[state_id1].update(v@[0].idx as int, None)),
                None => final(self)@ == old(self)@ && (forall|l: int|
                    0 <= l < 32 ==> !(old(self)@[state_id0][l] is Some && old(
                    self,
                )@[state_id1][l] is Some)),
            },
    {
        let ghost pre = self.state_map@;
        let n_entries = self.state_map.len();

        // Locate both categories.
        let mut i0: usize = 0;
        let mut found0 = false;
        let mut i: usize = 0;
        while i < n_entries
            invariant
                self.inv(),
                n_entries == self.state_map@.len(),
                i <= n_entries,
                self.state_map@ == pre,
                pre == old(self).state_map@,
                found0 ==> i0 < n_entries && pre[i0 as int].0 == state_id0 && (forall|j: int|
                    0 <= j < i0 ==> (#[trigger] pre[j]).0 != state_id0),
                !found0 ==> forall|j: int| 0 <= j < i ==> (#[trigger] pre[j]).0 != state_id0,
            decreases n_entries - i,
        {
            if !found0 && self.state_map[i].0 == state_id0 {
                i0 = i;
                found0 = true;
            }
            i += 1;
        }
        if !found0 {
            proof {
                Self::lemma_lanes_absent(pre, state_id0);
            }
            return None;
        }
        let mut i1: usize = 0;
        let mut found1 = false;
        let mut i: usize = 0;
        while i < n_entries
            invariant
                self.inv(),
                n_entries == self.state_map@.len(),
                i <= n_entries,
                self.state_map@ == pre,
                pre == old(self).state_map@,
                found1 ==> i1 < n_entries && pre[i1 as int].0 == state_id1 && (forall|j: int|
                    0 <= j < i1 ==> (#[trigger] pre[j]).0 != state_id1),
                !found1 ==> forall|j: int| 0 <= j < i ==> (#[trigger] pre[j]).0 != state_id1,
            decreases n_entries - i,
        {
            if !found1 && self.state_map[i].0 == state_id1 {
                i1 = i;
                found1 = true;
            }
            i += 1;
        }
        if !found1 {
            proof {
                Self::lemma_lanes_absent(pre, state_id1);
            }
            return None;
        }
        proof {
            Self::lemma_lanes_found(pre, i0 as int);
            Self::lemma_lanes_found(pre, i1 as int);
            assert(old(self)@[state_id0] == pre[i0 as int].1@);
            assert(old(self)@[state_id1] == pre[i1 as int].1@);
            assert(pre[i0 as int].1@.len() == 32);
            assert(pre[i1 as int].1@.len() == 32);
        }

        // Find the smallest lane populated in both categories.
        let mut l: usize = 0;
        while l < 32
            invariant
                self.inv(),
                state_id0 != state_id1,
                n_entries == self.state_map@.len(),
                self.state_map@ == pre,
                pre == old(self).state_map@,
                i0 < n_entries,
                i1 < n_entries,
                pre[i0 as int].0 == state_id0,
                pre[i1 as int].0 == state_id1,
                forall|j: int| 0 <= j < i0 ==> (#[trigger] pre[j]).0 != state_id0,
                forall|j: int| 0 <= j < i1 ==> (#[trigger] pre[j]).0 != state_id1,
                pre[i0 as int].1@.len() == 32,
                pre[i1 as int].1@.len() == 32,
                old(self)@[state_id0] == pre[i0 as int].1@,
                old(self)@[state_id1] == pre[i1 as int].1@,
                l <= 32,
                forall|x: int|
                    0 <= x < l ==> !((#[trigger] pre[i0 as int].1@[x]) is Some
                        && pre[i1 as int].1@[x] is Some),
            decreases 32 - l,
        {
            if self.state_map[i0].1[l].is_some() && self.state_map[i1].1[l].is_some() {
                // Consume the pair, one category at a time.
                let mut entry0 = self.state_map.remove(i0);
                proof {
                    assert(entry0 == pre[i0 as int]);
                }
                let reg0 = match entry0.1[l] {
                    Some(rg) => rg,
                    None => vstd::pervasive::unreached(),
                };
                entry0.1.set(l, None);
                self.state_map.insert(i0, entry0);
                let ghost mid = self.state_map@;
                proof {
                    assert(mid =~= pre.update(i0 as int, mid[i0 as int]));
                    assert(mid[i0 as int].1@ =~= pre[i0 as int].1@.update(l as int, None));
                    assert(mid[i1 as int] == pre[i1 as int]);
                }
                let mut entry1 = self.state_map.remove(i1);
                proof {
                    assert(entry1 == mid[i1 as int]);
                    assert(entry1.1@.len() == 32);
                }
                let reg1 = match entry1.1[l] {
                    Some(rg) => rg,
                    None => vstd::pervasive::unreached(),
                };
                entry1.1.set(l, None);
                self.state_map.insert(i1, entry1);
                proof {
                    let sm = self.state_map@;
                    assert(sm =~= mid.update(i1 as int, sm[i1 as int]));
                    assert(sm[i1 as int].1@ =~= pre[i1 as int].1@.update(l as int, None));
                    assert(forall|j: int|
                        0 <= j < i1 ==> (#[trigger] mid[j]).0 == pre[j].0);
                    assert forall|id: u32| #[trigger] Self::lanes_rec(sm, id) == old(
                        self,
                    )@.insert(state_id0, old(self)@[state_id0].update(l as int, None)).insert(
                        state_id1,
                        old(self)@[state_id1].update(l as int, None),
                    )[id] by {
                        if id == state_id1 {
                            Self::lemma_lanes_update_same(mid, i1 as int, sm[i1 as int]);
                        } else {
                            Self::lemma_lanes_update_other(mid, i1 as int, sm[i1 as int], id);
                            if id == state_id0 {
                                Self::lemma_lanes_update_same(pre, i0 as int, mid[i0 as int]);
                            } else {
                                Self::lemma_lanes_update_other(pre, i0 as int, mid[i0 as int], id);
                            }
                        }
                    }
                    assert(self@ =~= old(self)@.insert(
                        state_id0,
                        old(self)@[state_id0].update(l as int, None),
                    ).insert(state_id1, old(self)@[state_id1].update(l as int, None)));
                }
                let s0 = State { id: state_id0, idx: l as u8, reg: reg0 };
                let s1 = State { id: state_id1, idx: l as u8, reg: reg1 };
                let mut v: Vec<State> = Vec::new();
                v.push(s0);
                v.push(s1);
                return Some(v);
            }
            l += 1;
        }
        None
    }
}

} // verus!

verus! {

// ---------------------------------------------------------------------------
// The fixpoint driver.
// ---------------------------------------------------------------------------
/// The shape of the token list a condition hands to its transform: the
/// driver guarantees exactly this of the `matched` argument.
pub open spec fn condition_shape(c: Condition, sts: Seq<State>) -> bool {
    match c {
        Condition::Single { id } => sts.len() == 1 && sts[0].id == id && sts[0].idx < 32
            && sts[0].reg < 32,
        Condition::SameId { id, n_states, idx_dist } => sts.len() == n_states && n_states > 0
            && (forall|k: int|
            0 <= k < n_states ==> (#[trigger] sts[k]).id == id && sts[k].idx as int == sts[0].idx
                + k * idx_dist && sts[k].idx < 32 && sts[k].reg < 32),
        Condition::SameIdx { id0, id1 } => sts.len() == 2 && sts[0].id == id0 && sts[1].id == id1
            && sts[0].idx == sts[1].idx && sts[0].idx < 32 && sts[0].reg < 32 && sts[1].reg < 32,
    }
}

// ---------------------------------------------------------------------------
// The driver's run model.
// ---------------------------------------------------------------------------
/// Whether a condition finds nothing to consume in the given store.
pub open spec fn spec_no_match(m: Map<u32, Seq<Option<u8>>>, c: Condition) -> bool {
    match c {
        Condition::Single { id } => forall|l: int| 0 <= l < 32 ==> #[trigger] m[id][l] is None,
        Condition::SameId { id, n_states, idx_dist } => forall|s2: int|
            0 <= s2 ==> !spec_window(m[id], s2, n_states as int, idx_dist as int),
        Condition::SameIdx { id0, id1 } => forall|l: int|
            0 <= l < 32 ==> !((#[trigger] m[id0][l]) is Some && m[id1][l] is Some),
    }
}

/// Whether a condition fires on the given store, consuming exactly
/// `matched` (always the lowest-lane choice of its discipline) and leaving
/// the store as `taken`.
pub open spec fn spec_fires(
    m: Map<u32, Seq<Option<u8>>>,
    c: Condition,
    matched: Seq<State>,
    taken: Map<u32, Seq<Option<u8>>>,
) -> bool {
    match c {
        Condition::Single { id } => {
            &&& matched.len() == 1
            &&& matched[0].id == id
            &&& matched[0].idx < 32
            &&& m[id][matched[0].idx as int] == Some(matched[0].reg)
            &&& forall|l: int| 0 <= l < matched[0].idx ==> m[id][l] is None
            &&& taken == m.insert(id, m[id].update(matched[0].idx as int, None))
        },
        Condition::SameId { id, n_states, idx_dist } => {
            &&& matched.len() == n_states
            &&& n_states > 0
            &&& spec_window(m[id], matched[0].idx as int, n_states as int, idx_dist as int)
            &&& forall|s2: int|
                0 <= s2 < matched[0].idx ==> !spec_window(
                    m[id],
                    s2,
                    n_states as int,
                    idx_dist as int,
                )
            &&& forall|k: int|
                0 <= k < n_states ==> (#[trigger] matched[k]).id == id && matched[k].idx as int
                    == matched[0].idx + k * idx_dist && m[id][matched[0].idx + k * idx_dist]
                    == Some(matched[k].reg)
            &&& taken == m.insert(
                id,
                spec_clear(m[id], matched[0].idx as int, n_states as int, idx_dist as int),
            )
        },
        Condition::SameIdx { id0, id1 } => {
            &&& matched.len() == 2
            &&& matched[0].id == id0
            &&& matched[1].id == id1
            &&& matched[0].idx == matched[1].idx
            &&& matched[0].idx < 32
            &&& m[id0][matched[0].idx as int] == Some(matched[0].reg)
            &&& m[id1][matched[0].idx as int] == Some(matched[1].reg)
            &&& forall|l: int|
                0 <= l < matched[0].idx ==> !((#[trigger] m[id0][l]) is Some && m[id1][l] is Some)
            &&& taken == m.insert(id0, m[id0].update(matched[0].idx as int, None)).insert(
                id1,
                m[id1].update(matched[0].idx as int, None),
            )
        },
    }
}

/// Whether a full scan of the rulebook finds no matching condition: the
/// driver's stopping criterion.
pub open spec fn spec_scan_blocked(rb: Seq<Rule>, m: Map<u32, Seq<Option<u8>>>) -> bool {
    forall|i: int| 0 <= i < rb.len() ==> spec_no_match(m, (#[trigger] rb[i]).condition)
}

/// One firing of the driver, as recorded in a run trace: the store it saw,
/// the first rule whose condition matched, the tokens that rule consumed,
/// the store they left, and what the rule's transform returned.
pub struct Firing {
    pub pre: Map<u32, Seq<Option<u8>>>,
    pub rule: int,
    pub matched: Seq<State>,
    pub taken: Map<u32, Seq<Option<u8>>>,
    pub fragment: AssemblyView,
    pub produced: Seq<State>,
}

/// Whether one firing is legal at its recorded store: its rule is the
/// first in rulebook order whose condition matches, the match follows that
/// condition's discipline, and the produced tokens insert without
/// collision.
pub open spec fn spec_firing_ok(rb: Seq<Rule>, f: Firing) -> bool {
    &&& 0 <= f.rule < rb.len()
    &&& forall|j: int| 0 <= j < f.rule ==> spec_no_match(f.pre, (#[trigger] rb[j]).condition)
    &&& spec_fires(f.pre, rb[f.rule].condition, f.matched, f.taken)
    &&& spec_insert_all_ok(f.taken, f.produced)
    &&& f.fragment.wf()
}

/// The store a firing leaves behind: the matched tokens consumed, the
/// produced tokens inserted before the next scan begins.
pub open spec fn spec_after_firing(f: Firing) -> Map<u32, Seq<Option<u8>>> {
    spec_insert_all(f.taken, f.produced)
}

/// Whether `trace` is a legal run of the driver from store `m0` to store
/// `m1`: each firing fires the first matching rule at the store the
/// previous firings left, restarting the scan from the top of the
/// rulebook after every firing.
pub open spec fn spec_run(
    rb: Seq<Rule>,
    m0: Map<u32, Seq<Option<u8>>>,
    trace: Seq<Firing>,
    m1: Map<u32, Seq<Option<u8>>>,
) -> bool
    decreases trace.len(),
{
    if trace.len() == 0 {
        m1 == m0
    } else {
        &&& spec_run(rb, m0, trace.drop_last(), trace.last().pre)
        &&& spec_firing_ok(rb, trace.last())
        &&& m1 == spec_after_firing(trace.last())
    }
}

proof fn lemma_fires_excludes_no_match(
    m: Map<u32, Seq<Option<u8>>>,
    c: Condition,
    matched: Seq<State>,
    taken: Map<u32, Seq<Option<u8>>>,
)
    requires
        spec_fires(m, c, matched, taken),
    ensures
        !spec_no_match(m, c),
{
    match c {
        Condition::Single { id } => {
            assert(m[id][matched[0].idx as int] is Some);
        },
        Condition::SameId { id, n_states, idx_dist } => {
            assert(spec_window(m[id], matched[0].idx as int, n_states as int, idx_dist as int));
        },
        Condition::SameIdx { id0, id1 } => {
            assert(m[id0][matched[0].idx as int] is Some && m[id1][matched[0].idx as int] is Some);
        },
    }
}

/// Law: the driver's tie-break is deterministic.  At a given store, which
/// rule of the rulebook fires, which tokens it consumes, and the store
/// they leave are all unique: two runs on equal stores can differ only in
/// what the fired transforms return.
pub proof fn lemma_firing_deterministic(rb: Seq<Rule>, f1: Firing, f2: Firing)
    requires
        spec_firing_ok(rb, f1),
        spec_firing_ok(rb, f2),
        f1.pre == f2.pre,
    ensures
        f1.rule == f2.rule,
        f1.matched == f2.matched,
        f1.taken == f2.taken,
{
    if f1.rule < f2.rule {
        assert(spec_no_match(f1.pre, rb[f1.rule].condition));
        lemma_fires_excludes_no_match(f1.pre, rb[f1.rule].condition, f1.matched, f1.taken);
    }
    if f2.rule < f1.rule {
        assert(spec_no_match(f2.pre, rb[f2.rule].condition));
        lemma_fires_excludes_no_match(f2.pre, rb[f2.rule].condition, f2.matched, f2.taken);
    }
    assert(f1.rule == f2.rule);
    let m = f1.pre;
    match rb[f1.rule].condition {
        Condition::Single { id } => {
            assert(f1.matched[0].idx == f2.matched[0].idx) by {
                assert(m[id][f1.matched[0].idx as int] is Some);
                assert(m[id][f2.matched[0].idx as int] is Some);
            }
            assert(f1.matched =~= f2.matched);
        },
        Condition::SameId { id, n_states, idx_dist } => {
            assert(f1.matched[0].idx == f2.matched[0].idx) by {
                assert(spec_window(m[id], f1.matched[0].idx as int, n_states as int, idx_dist as int));
                assert(spec_window(m[id], f2.matched[0].idx as int, n_states as int, idx_dist as int));
            }
            assert forall|k: int| 0 <= k < n_states implies #[trigger] f1.matched[k]
                == f2.matched[k] by {
                assert(m[id][f1.matched[0].idx + k * idx_dist] == Some(f1.matched[k].reg));
                assert(m[id][f2.matched[0].idx + k * idx_dist] == Some(f2.matched[k].reg));
            }
            assert(f1.matched =~= f2.matched);
        },
        Condition::SameIdx { id0, id1 } => {
            assert(f1.matched[0].idx == f2.matched[0].idx) by {
                assert(m[id0][f1.matched[0].idx as int] is Some && m[id1][f1.matched[0].idx as int]
                    is Some);
                assert(m[id0][f2.matched[0].idx as int] is Some && m[id1][f2.matched[0].idx as int]
                    is Some);
            }
            assert(f1.matched =~= f2.matched);
        },
    }
}

/// The view of an empty instruction sequence.
pub open spec fn spec_empty_assembly() -> AssemblyView {
    AssemblyView {
        instructions: Seq::<Instruction>::empty(),
        var_asms: Seq::<(&'static str, &'static str)>::empty(),
        zmm_used: Seq::new(32, |i: int| false),
        k_used: Seq::new(4, |i: int| false),
    }
}

/// Concatenation of two sequence views: list-append plus the union of the
/// usage bitsets, as [`Assembly::append`] computes it.
pub open spec fn spec_view_append(a: AssemblyView, b: AssemblyView) -> AssemblyView {
    AssemblyView {
        instructions: a.instructions + b.instructions,
        var_asms: a.var_asms + b.var_asms,
        zmm_used: crate::assembly::or_mask(a.zmm_used, b.zmm_used),
        k_used: crate::assembly::or_mask(a.k_used, b.k_used),
    }
}

/// The driver's output for a run: the fold of the fired fragments, in
/// firing order, from the empty sequence.
pub open spec fn spec_run_output(trace: Seq<Firing>) -> AssemblyView
    decreases trace.len(),
{
    if trace.len() == 0 {
        spec_empty_assembly()
    } else {
        spec_view_append(spec_run_output(trace.drop_last()), trace.last().fragment)
    }
}

/// A complete run: a legal run from the seed store whose final store
/// matches no rule and holds no token, with the output fixed to the fold
/// of its fragments.
pub open spec fn spec_complete_run(
    rb: Seq<Rule>,
    m0: Map<u32, Seq<Option<u8>>>,
    out: AssemblyView,
) -> bool {
    exists|trace: Seq<Firing>, m1: Map<u32, Seq<Option<u8>>>|
        {
            &&& #[trigger] spec_run(rb, m0, trace, m1)
            &&& spec_scan_blocked(rb, m1)
            &&& spec_store_empty(m1)
            &&& out == #[trigger] spec_run_output(trace)
        }
}

/// Rulebook sanity: group conditions ask for at least one token at a
/// positive stride, and pair conditions join two distinct categories.
pub open spec fn rulebook_wf(rb: Seq<Rule>) -> bool {
    forall|i: int|
        0 <= i < rb.len() ==> match (#[trigger] rb[i]).condition {
            Condition::Single { id } => true,
            Condition::SameId { id, n_states, idx_dist } => n_states > 0 && idx_dist > 0,
            Condition::SameIdx { id0, id1 } => id0 != id1,
        }
}

/// A generator: a rulebook, an initial register-availability mask and a
/// seed token list, together with the transforms the rulebook's conditions
/// fire.  This three-part capability plus the driver [`drive`] fully
/// determines the emitted instruction sequence.
pub trait Generate: Sized {
    /// How deeply this generator's transforms invoke further generators;
    /// transforms may only call `generate` on generators of strictly
    /// smaller nesting.
    spec fn nesting(&self) -> nat;

    /// Whether this generator's configuration is valid; transforms are only
    /// reached from valid configurations.
    spec fn wf(&self) -> bool;

    /// The rulebook as a mathematical sequence.
    spec fn spec_rulebook(&self) -> Seq<Rule>;

    /// The ordered rule list; order is the tie-break when several
    /// conditions match.
    fn rulebook(&self) -> (r: Vec<Rule>)
        ensures
            r@ == self.spec_rulebook(),
    ;

    /// The initial register-availability mask, with reserved slots excluded
    /// up front.
    fn avail_registers(&self) -> (r: [bool; 32]);

    /// The seed tokens.
    fn initial_states(&self) -> (r: Vec<State>);

    /// The transform of the rule at position `rule` in the rulebook: turns
    /// the matched tokens into an instruction fragment and a list of
    /// follow-on tokens, possibly acquiring or releasing registers.
    fn transform(&self, rule: usize, pool: &mut RegisterPool, matched: &Vec<State>) -> (r: Result<
        (Assembly, Vec<State>),
        GenerateError,
    >)
        requires
            self.wf(),
            rule < self.spec_rulebook().len(),
            condition_shape(self.spec_rulebook()[rule as int].condition, matched@),
        ensures
            r matches Ok(p) ==> p.0@.wf(),
        decreases self.nesting(), 0nat,
    ;
}

/// Exact comparison of two availability masks.
fn masks_equal(a: &[bool; 32], b: &[bool; 32]) -> (r: bool)
    ensures
        r == (a@ =~= b@),
{
    let mut i: usize = 0;
    while i < 32
        invariant
            i <= 32,
            forall|j: int| 0 <= j < i ==> a@[j] == b@[j],
        decreases 32 - i,
    {
        if a[i] != b[i] {
            return false;
        }
        i += 1;
    }
    true
}

/// Tries one condition against the store, consuming and returning the
/// matched tokens.
fn match_condition(states: &mut StateManager, c: &Condition) -> (r: Option<Vec<State>>)
    requires
        old(states).inv(),
        match *c {
            Condition::SameId { id, n_states, idx_dist } => n_states > 0 && idx_dist > 0,
            Condition::SameIdx { id0, id1 } => id0 != id1,
            Condition::Single { id } => true,
        },
    ensures
        final(states).inv(),
        match r {
            Some(v) => condition_shape(*c, v@) && spec_fires(old(states)@, *c, v@, final(states)@),
            None => final(states)@ == old(states)@ && spec_no_match(old(states)@, *c),
        },
{
    match *c {
        Condition::Single { id } => {
            match states.take_single_state(id) {
                Some(st) => {
                    let mut v: Vec<State> = Vec::new();
                    v.push(st);
                    Some(v)
                },
                None => None,
            }
        },
        Condition::SameId { id, n_states, idx_dist } => {
            states.take_same_id_states(id, n_states, idx_dist)
        },
        Condition::SameIdx { id0, id1 } => states.take_same_idx_states(id0, id1),
    }
}

/// The fixpoint driver.  Scans the rulebook in order, fires the transform
/// of the first rule whose condition matches, inserts the follow-on tokens
/// before the next scan, appends the emitted fragment, and restarts the
/// scan from the top, until a full scan matches nothing.
///
/// On success the result is exactly the output of a complete run
/// ([`spec_complete_run`]): the fold of the fired fragments in firing
/// order, where every firing took the first rule in rulebook order whose
/// condition matched, following that condition's lowest-lane discipline.
/// The final store has been fully consumed and the register pool's
/// availability mask equals its value at entry; either check failing is an
/// engine defect and aborts generation, as does a collision when a
/// transform's tokens are inserted.  A transform's own error is passed
/// through from the first failing firing; the contract leaves the error
/// cases undistinguished, since a transform is free to return the same
/// variants the engine's own checks use.  A store with no token matches
/// no rule, so it is owed the empty output.
pub fn drive<G: Generate>(g: &G, pool: &mut RegisterPool, states: &mut StateManager) -> (r: Result<
    Assembly,
    GenerateError,
>)
    requires
        g.wf(),
        rulebook_wf(g.spec_rulebook()),
        old(states).inv(),
    ensures
        final(states).inv(),
        r matches Ok(out) ==> {
            &&& final(pool)@ == old(pool)@
            &&& spec_store_empty(final(states)@)
            &&& spec_scan_blocked(g.spec_rulebook(), final(states)@)
            &&& exists|trace: Seq<Firing>|
                #[trigger] spec_run(g.spec_rulebook(), old(states)@, trace, final(states)@) && out@
                    == spec_run_output(trace)
            &&& out@.wf()
        },
        spec_store_empty(old(states)@) ==> (r matches Ok(out) && out@ == spec_empty_assembly()
            && final(states)@ == old(states)@ && final(pool)@ == old(pool)@),
    decreases g.nesting(), 1nat,
{
    let rulebook = g.rulebook();
    let entry_mask: [bool; 32] = *pool.avail_list();
    let ghost entry_view = pool@;
    let ghost rb = g.spec_rulebook();
    let ghost store0 = states@;
    let mut out = Assembly::new();
    let ghost mut trace: Seq<Firing> = Seq::empty();
    proof {
        assert(out@ =~= spec_empty_assembly());
    }
    let mut firings: u64 = 0;
    while firings < MAX_RULE_FIRINGS
        invariant
            g.wf(),
            rulebook_wf(rb),
            rb == g.spec_rulebook(),
            states.inv(),
            rulebook@ == rb,
            entry_mask@ == entry_view,
            entry_view == old(pool)@,
            store0 == old(states)@,
            out@.wf(),
            firings <= MAX_RULE_FIRINGS,
            firings == trace.len(),
            spec_run(rb, store0, trace, states@),
            out@ == spec_run_output(trace),
            spec_store_empty(store0) ==> trace.len() == 0 && states@ == store0 && pool@ == old(
                pool,
            )@,
        decreases MAX_RULE_FIRINGS - firings,
    {
        let ghost scan_store = states@;
        let mut fired = false;
        let mut i: usize = 0;
        while i < rulebook.len() && !fired
            invariant
                g.wf(),
                rulebook_wf(rb),
                rb == g.spec_rulebook(),
                states.inv(),
                rulebook@ == rb,
                i <= rb.len(),
                out@.wf(),
                store0 == old(states)@,
                !fired ==> states@ == scan_store && (forall|j: int|
                    0 <= j < i ==> spec_no_match(scan_store, (#[trigger] rb[j]).condition)),
                !fired ==> trace.len() == firings,
                fired ==> trace.len() == firings + 1,
                !fired ==> spec_run(rb, store0, trace, states@) && out@ == spec_run_output(trace),
                fired ==> spec_run(rb, store0, trace, states@) && out@ == spec_run_output(trace),
                spec_store_empty(store0) && !fired ==> trace.len() == 0 && states@ == store0
                    && pool@ == old(pool)@,
                spec_store_empty(store0) ==> !fired,
            decreases rb.len() - i,
        {
            let matched = match_condition(states, &rulebook[i].condition);
            if let Some(sts) = matched {
                let ghost taken_store = states@;
                let (fragment, next_states) = match g.transform(i, pool, &sts) {
                    Ok(p) => p,
                    Err(e) => {
                        return Err(e);
                    },
                };
                match states.insert_states(next_states) {
                    Ok(()) => {},
                    Err(e) => {
                        return Err(e);
                    },
                }
                proof {
                    let f = Firing {
                        pre: scan_store,
                        rule: i as int,
                        matched: sts@,
                        taken: taken_store,
                        fragment: fragment@,
                        produced: next_states@,
                    };
                    assert(spec_firing_ok(rb, f));
                    assert(trace.push(f).drop_last() =~= trace);
                    trace = trace.push(f);
                    if spec_store_empty(store0) {
                        assert(scan_store == store0);
                        assert(scan_store[sts@[0].id][sts@[0].idx as int] is Some);
                    }
                }
                out = out.append(fragment);
                proof {
                    assert(out@ =~= spec_view_append(
                        spec_run_output(trace.drop_last()),
                        trace.last().fragment,
                    ));
                }
                fired = true;
            }
            i += 1;
        }
        if !fired {
            // A full scan matched nothing: the fixpoint is reached; check
            // the engine's two post-conditions.
            proof {
                assert(spec_scan_blocked(rb, states@));
            }
            if !states.is_empty() {
                return Err(GenerateError::UnconsumedStates);
            }
            if !masks_equal(pool.avail_list(), &entry_mask) {
                return Err(GenerateError::PoolStateChanged);
            }
            proof {
                assert(pool@ =~= old(pool)@);
            }
            return Ok(out);
        }
        firings += 1;
    }
    Err(GenerateError::NonTermination)
}

} // verus!

verus! {

/// Narrows a computed displacement to the signed 16-bit range of the
/// addressing forms; a configuration whose offsets do not fit is rejected.
pub fn fit_i16(v: i32) -> (r: Result<i16, GenerateError>)
    ensures
        match r {
            Ok(x) => x as int == v as int && -32768 <= v <= 32767,
            Err(e) => e == GenerateError::UnsupportedConfiguration && !(-32768 <= v <= 32767),
        },
{
    if -32768 <= v && v <= 32767 {
        Ok(v as i16)
    } else {
        Err(GenerateError::UnsupportedConfiguration)
    }
}

} // verus!

verus! {

/// Exact widening product of two 8-bit values.
pub fn mul_u8(a: u8, b: u8) -> (r: u32)
    ensures
        r as int == a as int * b as int,
        r <= 65025,
{
    proof {
        assert(a as u32 * b as u32 <= 255 * 255) by (nonlinear_arith)
            requires
                a as u32 <= 255,
                b as u32 <= 255,
        ;
    }
    a as u32 * b as u32
}

/// Exact product of a small count and a 16-bit stride, in 32-bit signed
/// range.
pub fn mul_small(a: u32, b: u16) -> (r: i32)
    requires
        a <= 1024,
    ensures
        r as int == a as int * b as int,
        0 <= r <= 67107840,
{
    proof {
        assert(a as i64 * b as i64 <= 1024 * 65535) by (nonlinear_arith)
            requires
                a as i64 <= 1024,
                b as i64 <= 65535,
                a as i64 >= 0,
                b as i64 >= 0,
        ;
    }
    (a as i64 * b as i64) as i32
}

} // verus!

//! The hierarchy resolver.
//!
//! An entity's absolute position is the sum of its own local offset and,
//! recursively, the absolute position of its parent; an entity with no
//! offset component resolves to the zero vector regardless of any link. The
//! store never builds parent cycles, but resolution does not assume that: it
//! follows at most `MAX_DEPTH` links and treats anything deeper as a root,
//! and a dangling link resolves like a root as well, so resolution never
//! fails.

use vstd::prelude::*;

use crate::geom::{Vec2, POS_LIMIT};
use crate::world::{Entity, World, MAX_DEPTH};

verus! {

/// Largest magnitude a resolved coordinate can reach: at most
/// `MAX_DEPTH + 1` local offsets, each bounded by `POS_LIMIT`, are summed.
pub const RESOLVED_LIMIT: i64 = 65_000_000;

impl World {
    /// The absolute position of `e`, following at most `fuel` parent links:
    /// the sum of the local offsets along the parent chain, stopping at the
    /// first entity without a link or without an offset. An entity without
    /// an offset contributes zero and ends the chain; an out-of-range handle
    /// resolves to zero.
    pub open spec fn resolved_spec(self, e: Entity, fuel: nat) -> (int, int)
        decreases fuel,
    {
        if e.idx >= self.n() {
            (0int, 0int)
        } else {
            match self.position@[e.idx as int] {
                Option::None => (0int, 0int),
                Option::Some(p) => match self.parent@[e.idx as int] {
                    Option::None => (p.x as int, p.y as int),
                    Option::Some(q) => if fuel == 0 {
                        (p.x as int, p.y as int)
                    } else {
                        let r = self.resolved_spec(q, (fuel - 1) as nat);
                        (r.0 + p.x, r.1 + p.y)
                    },
                },
            }
        }
    }
}

/// In a well-formed store each summand is bounded by `POS_LIMIT`, so a
/// resolution with `fuel` links stays within `(fuel + 1) * POS_LIMIT`.
pub proof fn lemma_resolved_bound(w: World, e: Entity, fuel: nat)
    requires
        w.wf(),
    ensures
        -((fuel + 1) * POS_LIMIT) <= w.resolved_spec(e, fuel).0 <= (fuel + 1) * POS_LIMIT,
        -((fuel + 1) * POS_LIMIT) <= w.resolved_spec(e, fuel).1 <= (fuel + 1) * POS_LIMIT,
    decreases fuel,
{
    if e.idx < w.n() {
        assert(w.slot_ok(e.idx as int));
        match w.position@[e.idx as int] {
            Option::None => {},
            Option::Some(p) => match w.parent@[e.idx as int] {
                Option::None => {},
                Option::Some(q) => {
                    if fuel > 0 {
                        lemma_resolved_bound(w, q, (fuel - 1) as nat);
                    }
                },
            },
        }
    }
}

/// Resolution reads only the offset and link tables: two stores that agree
/// on them resolve every entity alike.
pub proof fn lemma_resolved_agrees(a: World, b: World, e: Entity, fuel: nat)
    requires
        a.position@ == b.position@,
        a.parent@ == b.parent@,
        a.alive@.len() == b.alive@.len(),
    ensures
        a.resolved_spec(e, fuel) == b.resolved_spec(e, fuel),
    decreases fuel,
{
    if e.idx < a.n() {
        match a.position@[e.idx as int] {
            Option::None => {},
            Option::Some(p) => match a.parent@[e.idx as int] {
                Option::None => {},
                Option::Some(q) => {
                    if fuel > 0 {
                        lemma_resolved_agrees(a, b, q, (fuel - 1) as nat);
                    }
                },
            },
        }
    }
}

/// The parent chain starting at `e` reaches a root — an entity without a
/// link or without an offset, or an out-of-range handle — within `n` links.
/// Every store the simulation builds satisfies this for its actual chain
/// lengths, since the store never constructs cycles.
pub open spec fn chain_within(w: World, e: Entity, n: nat) -> bool
    decreases n,
{
    if e.idx >= w.n() {
        true
    } else {
        match w.position@[e.idx as int] {
            Option::None => true,
            Option::Some(p) => match w.parent@[e.idx as int] {
                Option::None => true,
                Option::Some(q) => n > 0 && chain_within(w, q, (n - 1) as nat),
            },
        }
    }
}

/// Once the fuel covers the chain, more fuel changes nothing: resolution
/// with any fuel of at least the chain length yields the same sum.
pub proof fn lemma_resolved_fuel_irrelevant(w: World, e: Entity, n: nat, f1: nat, f2: nat)
    requires
        chain_within(w, e, n),
        n <= f1,
        n <= f2,
    ensures
        w.resolved_spec(e, f1) == w.resolved_spec(e, f2),
    decreases n,
{
    if e.idx < w.n() {
        match w.position@[e.idx as int] {
            Option::None => {},
            Option::Some(p) => match w.parent@[e.idx as int] {
                Option::None => {},
                Option::Some(q) => {
                    lemma_resolved_fuel_irrelevant(
                        w,
                        q,
                        (n - 1) as nat,
                        (f1 - 1) as nat,
                        (f2 - 1) as nat,
                    );
                },
            },
        }
    }
}

/// Resolved position equals the sum of local offsets along the parent chain
/// to the root: whenever the chain from `e` reaches a root within
/// `MAX_DEPTH` links — true of every hierarchy without cycles that is no
/// deeper than the guard — the resolution the systems use (full fuel)
/// unrolls as the entity's own offset plus the parent's full resolution, and
/// at a root it is the offset itself. The depth guard never disturbs it.
pub proof fn lemma_resolved_is_chain_sum(w: World, e: Entity, n: nat)
    requires
        chain_within(w, e, n),
        n <= MAX_DEPTH,
        e.idx < w.n(),
    ensures
        w.position@[e.idx as int] is None ==> w.resolved_spec(e, MAX_DEPTH as nat) == (
        0int,
        0int,
        ),
        w.position@[e.idx as int] matches Some(p) ==> (w.parent@[e.idx as int] is None
            ==> w.resolved_spec(e, MAX_DEPTH as nat) == (p.x as int, p.y as int)),
        w.position@[e.idx as int] matches Some(p) ==> (w.parent@[e.idx as int] matches Some(q)
            ==> {
            let r = w.resolved_spec(q, MAX_DEPTH as nat);
            w.resolved_spec(e, MAX_DEPTH as nat) == (r.0 + p.x, r.1 + p.y)
        }),
{
    match w.position@[e.idx as int] {
        Option::None => {},
        Option::Some(p) => match w.parent@[e.idx as int] {
            Option::None => {},
            Option::Some(q) => {
                lemma_resolved_fuel_irrelevant(
                    w,
                    q,
                    (n - 1) as nat,
                    (MAX_DEPTH - 1) as nat,
                    MAX_DEPTH as nat,
                );
            },
        },
    }
}

impl World {
    /// Resolution with an explicit fuel, mirroring `resolved_spec`.
    fn resolve_with_fuel(&self, e: Entity, fuel: u64) -> (p: Vec2)
        requires
            self.wf(),
            fuel <= MAX_DEPTH,
        ensures
            p.x == self.resolved_spec(e, fuel as nat).0,
            p.y == self.resolved_spec(e, fuel as nat).1,
        decreases fuel,
    {
        if e.idx >= self.alive.len() {
            return Vec2 { x: 0, y: 0 };
        }
        match self.position[e.idx] {
            None => Vec2 { x: 0, y: 0 },
            Some(p) => match self.parent[e.idx] {
                None => p,
                Some(q) => {
                    if fuel == 0 {
                        p
                    } else {
                        let r = self.resolve_with_fuel(q, fuel - 1);
                        proof {
                            lemma_resolved_bound(*self, q, (fuel - 1) as nat);
                            assert(self.slot_ok(e.idx as int));
                        }
                        Vec2 { x: r.x + p.x, y: r.y + p.y }
                    }
                },
            },
        }
    }
}

/// Computes the absolute position of `e`: the sum of the local offsets
/// along the parent chain, recomputed on demand, guarded by `MAX_DEPTH`.
pub fn resolve_position(w: &World, e: Entity) -> (p: Vec2)
    requires
        w.wf(),
    ensures
        p.x == w.resolved_spec(e, MAX_DEPTH as nat).0,
        p.y == w.resolved_spec(e, MAX_DEPTH as nat).1,
        p.in_range(RESOLVED_LIMIT),
{
    proof {
        lemma_resolved_bound(*w, e, MAX_DEPTH as nat);
    }
    w.resolve_with_fuel(e, MAX_DEPTH)
}

} // verus!

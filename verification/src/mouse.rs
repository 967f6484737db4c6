//! The hover detector.
//!
//! Each frame, every entity that carries an extent, a local offset and the
//! hoverable marker is hit-tested against the single current pointer
//! position, using its resolved position. The hover table is rewritten
//! wholesale: exactly the entities whose box contains the pointer this
//! frame carry a hover state afterwards, holding the pointer position
//! relative to the entity's own top-left corner. Nothing accumulates and
//! nothing is left stale. If the pointer overlaps several boxes, all of
//! them are marked hovered.

use vstd::prelude::*;

use crate::geom::{Vec2, POS_LIMIT};
use crate::hierarchy::resolve_position;
use crate::world::{same_but_hover, Entity, World, MAX_DEPTH};

verus! {

/// Slot `i` is hit by pointer `m`: it is hoverable, has an offset and an
/// extent, and `m` lies in the half-open box at its resolved position.
pub open spec fn hover_hit(w: World, i: int, m: Vec2) -> bool {
    &&& 0 <= i < w.n()
    &&& w.mouse_target@[i]
    &&& w.position@[i] is Some
    &&& w.size@[i] matches Some(s) && {
        let r = w.resolved_spec(Entity { idx: i as usize }, MAX_DEPTH as nat);
        &&& r.0 <= m.x < r.0 + s.x
        &&& r.1 <= m.y < r.1 + s.y
    }
}

/// The pointer position relative to slot `i`'s top-left corner.
pub open spec fn hover_rel(w: World, i: int, m: Vec2) -> Vec2 {
    let r = w.resolved_spec(Entity { idx: i as usize }, MAX_DEPTH as nat);
    Vec2 { x: (m.x - r.0) as i64, y: (m.y - r.1) as i64 }
}

/// The hover state slot `i` carries after a pass with pointer `m`.
pub open spec fn hover_after(w: World, i: int, m: Vec2) -> Option<Vec2> {
    if hover_hit(w, i, m) {
        Some(hover_rel(w, i, m))
    } else {
        None
    }
}

/// How one hover pass transforms the store: the hover table is rewritten
/// wholesale from the pointer position, and nothing else changes.
pub open spec fn hover_transition(w0: World, w1: World, m: Vec2) -> bool {
    &&& same_but_hover(w0, w1)
    &&& w1.hover@.len() == w0.n()
    &&& forall|i: int| 0 <= i < w0.n() ==> w1.hover@[i] == hover_after(w0, i, m)
}

/// Recomputes the hover table for the current pointer position: afterwards
/// an entity carries a hover state iff the pointer falls within its
/// resolved box, and the state holds the pointer position in entity-local
/// coordinates.
pub fn handle_mouse(w: &mut World, m: Vec2)
    requires
        old(w).wf(),
        m.in_range(POS_LIMIT),
    ensures
        final(w).wf(),
        hover_transition(*old(w), *final(w), m),
{
    let n = w.alive.len();
    let mut new_hover: Vec<Option<Vec2>> = Vec::new();
    let mut i: usize = 0;
    while i < n
        invariant
            *w == *old(w),
            w.wf(),
            m.in_range(POS_LIMIT),
            n == w.n(),
            i <= n,
            new_hover@.len() == i,
            forall|j: int| 0 <= j < i ==> new_hover@[j] == hover_after(*w, j, m),
        decreases n - i,
    {
        let mut h: Option<Vec2> = None;
        if w.mouse_target[i] && w.position[i].is_some() {
            if let Some(s) = w.size[i] {
                let e = Entity { idx: i };
                let rp = resolve_position(w, e);
                proof {
                    assert(w.slot_ok(i as int));
                }
                let rx = m.x - rp.x;
                let ry = m.y - rp.y;
                if rx >= 0 && rx < s.x && ry >= 0 && ry < s.y {
                    h = Some(Vec2 { x: rx, y: ry });
                }
            }
        }
        new_hover.push(h);
        i += 1;
    }
    w.hover = new_hover;
    proof {
        assert forall|j: int| 0 <= j < w.n() implies w.slot_ok(j) by {
            assert(old(w).slot_ok(j));
            assert(w.hover@[j] == hover_after(*old(w), j, m));
        }
    }
}

/// Whether an entity is currently hovered; false for a destroyed or
/// out-of-range handle.
pub fn is_hovered(w: &World, e: Entity) -> (r: bool)
    requires
        w.wf(),
    ensures
        r == (e.idx < w.n() && w.hover@[e.idx as int] is Some),
{
    e.idx < w.num_slots() && w.get_hover(e.idx).is_some()
}

} // verus!

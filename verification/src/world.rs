//! The entity/component store.
//!
//! An arena of entity slots plus one side table per component type, keyed by
//! a stable index: any entity may carry any subset of the component types.
//! An `Entity` is an opaque comparable handle; destroying it clears every
//! component it owned and the slot is never handed out again, so a stale
//! handle can never denote a different entity. Iteration over slots is in
//! creation order, which is the deterministic order every system uses.

use vstd::prelude::*;

use crate::crops::{spec_grow_duration, CropType};
use crate::geom::{Vec2, POS_LIMIT};
use crate::storage::Item;

verus! {

/// How many parent links position resolution will follow before it treats an
/// entity as a root; a robustness guard, since the store never builds cycles.
pub const MAX_DEPTH: u64 = 64;

/// Largest magnitude a tween endpoint coordinate may have. Resolved
/// positions of bounded-depth chains stay well inside this.
pub const TWEEN_LIMIT: i64 = 100_000_000;

/// Longest allowed tween run time in milliseconds.
pub const TWEEN_SPAN_MAX: u64 = 1_000_000;

/// Wall-clock run time of a deposit effect, in milliseconds.
pub const EFFECT_DURATION_MS: u64 = 500;

/// An opaque handle to an entity: the index of its slot.
#[derive(Clone, Copy, PartialEq, Eq, Structural, Debug)]
pub struct Entity {
    pub idx: usize,
}

/// The growth state of one plot.
#[derive(Clone, Copy, PartialEq, Eq, Structural, Debug)]
pub enum Plot {
    Empty,
    Growing { crop: CropType, elapsed: u64 },
    Grown { crop: CropType },
}

/// Binds a crop kind to a "is currently selected" flag.
#[derive(Clone, Copy, PartialEq, Eq, Structural, Debug)]
pub struct CropSelector {
    pub crop: CropType,
    pub selected: bool,
}

/// A time-parameterized linear interpolation between two positions.
#[derive(Clone, Copy, PartialEq, Eq, Structural, Debug)]
pub struct Tween {
    pub start: Vec2,
    pub end: Vec2,
    pub start_time: u64,
    pub end_time: u64,
}

/// A tween descriptor the store will accept: bounded endpoints and a
/// positive, bounded run time.
pub open spec fn tween_wf(t: Tween) -> bool {
    &&& t.start.in_range(TWEEN_LIMIT)
    &&& t.end.in_range(TWEEN_LIMIT)
    &&& t.start_time < t.end_time
    &&& t.end_time - t.start_time <= TWEEN_SPAN_MAX
}

/// A plot value the store will accept: a growing plot has not yet reached
/// its full duration.
pub open spec fn plot_wf(p: Plot) -> bool {
    p matches Plot::Growing { crop, elapsed } ==> elapsed < spec_grow_duration(crop)
}

/// The two stores agree on every side table except the hierarchy links.
pub open spec fn same_but_parent(a: World, b: World) -> bool {
    &&& a.alive@ == b.alive@
    &&& a.position@ == b.position@
    &&& a.size@ == b.size@
    &&& a.mouse_target@ == b.mouse_target@
    &&& a.hover@ == b.hover@
    &&& a.plot@ == b.plot@
    &&& a.selector@ == b.selector@
    &&& a.tween@ == b.tween@
    &&& a.tween_done@ == b.tween_done@
    &&& a.effect@ == b.effect@
    &&& a.anim_pos@ == b.anim_pos@
    &&& a.indicator@ == b.indicator@
}

/// The two stores agree on every side table except the local offsets.
pub open spec fn same_but_position(a: World, b: World) -> bool {
    &&& a.alive@ == b.alive@
    &&& a.parent@ == b.parent@
    &&& a.size@ == b.size@
    &&& a.mouse_target@ == b.mouse_target@
    &&& a.hover@ == b.hover@
    &&& a.plot@ == b.plot@
    &&& a.selector@ == b.selector@
    &&& a.tween@ == b.tween@
    &&& a.tween_done@ == b.tween_done@
    &&& a.effect@ == b.effect@
    &&& a.anim_pos@ == b.anim_pos@
    &&& a.indicator@ == b.indicator@
}

/// The two stores agree on every side table except the extents.
pub open spec fn same_but_size(a: World, b: World) -> bool {
    &&& a.alive@ == b.alive@
    &&& a.parent@ == b.parent@
    &&& a.position@ == b.position@
    &&& a.mouse_target@ == b.mouse_target@
    &&& a.hover@ == b.hover@
    &&& a.plot@ == b.plot@
    &&& a.selector@ == b.selector@
    &&& a.tween@ == b.tween@
    &&& a.tween_done@ == b.tween_done@
    &&& a.effect@ == b.effect@
    &&& a.anim_pos@ == b.anim_pos@
    &&& a.indicator@ == b.indicator@
}

/// The two stores agree on every side table except the hoverable markers.
pub open spec fn same_but_mouse_target(a: World, b: World) -> bool {
    &&& a.alive@ == b.alive@
    &&& a.parent@ == b.parent@
    &&& a.position@ == b.position@
    &&& a.size@ == b.size@
    &&& a.hover@ == b.hover@
    &&& a.plot@ == b.plot@
    &&& a.selector@ == b.selector@
    &&& a.tween@ == b.tween@
    &&& a.tween_done@ == b.tween_done@
    &&& a.effect@ == b.effect@
    &&& a.anim_pos@ == b.anim_pos@
    &&& a.indicator@ == b.indicator@
}

/// The two stores agree on every side table except the hover states.
pub open spec fn same_but_hover(a: World, b: World) -> bool {
    &&& a.alive@ == b.alive@
    &&& a.parent@ == b.parent@
    &&& a.position@ == b.position@
    &&& a.size@ == b.size@
    &&& a.mouse_target@ == b.mouse_target@
    &&& a.plot@ == b.plot@
    &&& a.selector@ == b.selector@
    &&& a.tween@ == b.tween@
    &&& a.tween_done@ == b.tween_done@
    &&& a.effect@ == b.effect@
    &&& a.anim_pos@ == b.anim_pos@
    &&& a.indicator@ == b.indicator@
}

/// The two stores agree on every side table except the plots.
pub open spec fn same_but_plot(a: World, b: World) -> bool {
    &&& a.alive@ == b.alive@
    &&& a.parent@ == b.parent@
    &&& a.position@ == b.position@
    &&& a.size@ == b.size@
    &&& a.mouse_target@ == b.mouse_target@
    &&& a.hover@ == b.hover@
    &&& a.selector@ == b.selector@
    &&& a.tween@ == b.tween@
    &&& a.tween_done@ == b.tween_done@
    &&& a.effect@ == b.effect@
    &&& a.anim_pos@ == b.anim_pos@
    &&& a.indicator@ == b.indicator@
}

/// The two stores agree on every side table except the selectors.
pub open spec fn same_but_selector(a: World, b: World) -> bool {
    &&& a.alive@ == b.alive@
    &&& a.parent@ == b.parent@
    &&& a.position@ == b.position@
    &&& a.size@ == b.size@
    &&& a.mouse_target@ == b.mouse_target@
    &&& a.hover@ == b.hover@
    &&& a.plot@ == b.plot@
    &&& a.tween@ == b.tween@
    &&& a.tween_done@ == b.tween_done@
    &&& a.effect@ == b.effect@
    &&& a.anim_pos@ == b.anim_pos@
    &&& a.indicator@ == b.indicator@
}

/// The two stores agree on every side table except the storage indicators.
pub open spec fn same_but_indicator(a: World, b: World) -> bool {
    &&& a.alive@ == b.alive@
    &&& a.parent@ == b.parent@
    &&& a.position@ == b.position@
    &&& a.size@ == b.size@
    &&& a.mouse_target@ == b.mouse_target@
    &&& a.hover@ == b.hover@
    &&& a.plot@ == b.plot@
    &&& a.selector@ == b.selector@
    &&& a.tween@ == b.tween@
    &&& a.tween_done@ == b.tween_done@
    &&& a.effect@ == b.effect@
    &&& a.anim_pos@ == b.anim_pos@
}

/// The two stores agree on every side table except the animated effect
/// positions and the tween-completion marks.
pub open spec fn same_but_anim(a: World, b: World) -> bool {
    &&& a.alive@ == b.alive@
    &&& a.parent@ == b.parent@
    &&& a.position@ == b.position@
    &&& a.size@ == b.size@
    &&& a.mouse_target@ == b.mouse_target@
    &&& a.hover@ == b.hover@
    &&& a.plot@ == b.plot@
    &&& a.selector@ == b.selector@
    &&& a.tween@ == b.tween@
    &&& a.effect@ == b.effect@
    &&& a.indicator@ == b.indicator@
}

/// The two stores agree on everything held in slot `i`.
pub open spec fn slot_eq(a: World, b: World, i: int) -> bool {
    &&& a.alive@[i] == b.alive@[i]
    &&& a.parent@[i] == b.parent@[i]
    &&& a.position@[i] == b.position@[i]
    &&& a.size@[i] == b.size@[i]
    &&& a.mouse_target@[i] == b.mouse_target@[i]
    &&& a.hover@[i] == b.hover@[i]
    &&& a.plot@[i] == b.plot@[i]
    &&& a.selector@[i] == b.selector@[i]
    &&& a.tween@[i] == b.tween@[i]
    &&& a.tween_done@[i] == b.tween_done@[i]
    &&& a.effect@[i] == b.effect@[i]
    &&& a.anim_pos@[i] == b.anim_pos@[i]
    &&& a.indicator@[i] == b.indicator@[i]
}

/// The entity arena: one `alive` flag per slot and one side table per
/// component type, all of equal length.
pub struct World {
    pub alive: Vec<bool>,
    pub parent: Vec<Option<Entity>>,
    pub position: Vec<Option<Vec2>>,
    pub size: Vec<Option<Vec2>>,
    pub mouse_target: Vec<bool>,
    pub hover: Vec<Option<Vec2>>,
    pub plot: Vec<Option<Plot>>,
    pub selector: Vec<Option<CropSelector>>,
    pub tween: Vec<Option<Tween>>,
    pub tween_done: Vec<bool>,
    pub effect: Vec<Option<CropType>>,
    pub anim_pos: Vec<Option<Vec2>>,
    pub indicator: Vec<Option<Item>>,
}

impl World {
    /// Number of slots ever created.
    pub open spec fn n(self) -> int {
        self.alive@.len() as int
    }

    /// Every side table has one entry per slot.
    pub open spec fn cols_len_ok(self) -> bool {
        &&& self.parent@.len() == self.alive@.len()
        &&& self.position@.len() == self.alive@.len()
        &&& self.size@.len() == self.alive@.len()
        &&& self.mouse_target@.len() == self.alive@.len()
        &&& self.hover@.len() == self.alive@.len()
        &&& self.plot@.len() == self.alive@.len()
        &&& self.selector@.len() == self.alive@.len()
        &&& self.tween@.len() == self.alive@.len()
        &&& self.tween_done@.len() == self.alive@.len()
        &&& self.effect@.len() == self.alive@.len()
        &&& self.anim_pos@.len() == self.alive@.len()
        &&& self.indicator@.len() == self.alive@.len()
    }

    /// Slot `i` carries no component at all.
    pub open spec fn cleared(self, i: int) -> bool {
        &&& self.parent@[i] is None
        &&& self.position@[i] is None
        &&& self.size@[i] is None
        &&& !self.mouse_target@[i]
        &&& self.hover@[i] is None
        &&& self.plot@[i] is None
        &&& self.selector@[i] is None
        &&& self.tween@[i] is None
        &&& !self.tween_done@[i]
        &&& self.effect@[i] is None
        &&& self.anim_pos@[i] is None
        &&& self.indicator@[i] is None
    }

    /// The per-slot invariant: destroyed slots are bare, and every stored
    /// component value is in its accepted range.
    pub open spec fn slot_ok(self, i: int) -> bool {
        &&& (!self.alive@[i] ==> self.cleared(i))
        &&& (self.position@[i] matches Some(p) ==> p.in_range(POS_LIMIT))
        &&& (self.size@[i] matches Some(s) ==> 0 <= s.x <= POS_LIMIT && 0 <= s.y <= POS_LIMIT)
        &&& (self.hover@[i] matches Some(h) ==> h.in_range(POS_LIMIT))
        &&& (self.plot@[i] matches Some(p) ==> plot_wf(p))
        &&& (self.tween@[i] matches Some(t) ==> tween_wf(t))
        &&& (self.anim_pos@[i] matches Some(p) ==> p.in_range(TWEEN_LIMIT))
    }

    /// The store invariant, established by `new` and preserved by every
    /// store operation and every system pass.
    pub open spec fn wf(self) -> bool {
        &&& self.cols_len_ok()
        &&& forall|i: int| 0 <= i < self.n() ==> #[trigger] self.slot_ok(i)
    }

    /// The handle denotes a live slot.
    pub open spec fn spec_valid(self, e: Entity) -> bool {
        e.idx < self.n() && self.alive@[e.idx as int]
    }

    /// An empty store.
    pub fn new() -> (w: World)
        ensures
            w.wf(),
            w.n() == 0,
    {
        World {
            alive: Vec::new(),
            parent: Vec::new(),
            position: Vec::new(),
            size: Vec::new(),
            mouse_target: Vec::new(),
            hover: Vec::new(),
            plot: Vec::new(),
            selector: Vec::new(),
            tween: Vec::new(),
            tween_done: Vec::new(),
            effect: Vec::new(),
            anim_pos: Vec::new(),
            indicator: Vec::new(),
        }
    }

    pub fn num_slots(&self) -> (n: usize)
        ensures
            n == self.n(),
    {
        self.alive.len()
    }

    pub fn valid(&self, e: Entity) -> (b: bool)
        ensures
            b == self.spec_valid(e),
    {
        e.idx < self.alive.len() && self.alive[e.idx]
    }

    /// Creates a fresh entity carrying no components.
    pub fn spawn(&mut self) -> (e: Entity)
        requires
            old(self).wf(),
        ensures
            final(self).wf(),
            e.idx == old(self).n(),
            final(self).n() == old(self).n() + 1,
            final(self).spec_valid(e),
            final(self).cleared(e.idx as int),
            final(self).alive@ == old(self).alive@.push(true),
            final(self).parent@ == old(self).parent@.push(None::<Entity>),
            final(self).position@ == old(self).position@.push(None::<Vec2>),
            final(self).size@ == old(self).size@.push(None::<Vec2>),
            final(self).mouse_target@ == old(self).mouse_target@.push(false),
            final(self).hover@ == old(self).hover@.push(None::<Vec2>),
            final(self).plot@ == old(self).plot@.push(None::<Plot>),
            final(self).selector@ == old(self).selector@.push(None::<CropSelector>),
            final(self).tween@ == old(self).tween@.push(None::<Tween>),
            final(self).tween_done@ == old(self).tween_done@.push(false),
            final(self).effect@ == old(self).effect@.push(None::<CropType>),
            final(self).anim_pos@ == old(self).anim_pos@.push(None::<Vec2>),
            final(self).indicator@ == old(self).indicator@.push(None::<Item>),
    {
        let idx = self.alive.len();
        self.alive.push(true);
        self.parent.push(None);
        self.position.push(None);
        self.size.push(None);
        self.mouse_target.push(false);
        self.hover.push(None);
        self.plot.push(None);
        self.selector.push(None);
        self.tween.push(None);
        self.tween_done.push(false);
        self.effect.push(None);
        self.anim_pos.push(None);
        self.indicator.push(None);
        proof {
            assert forall|i: int| 0 <= i < self.n() implies self.slot_ok(i) by {
                if i < old(self).n() {
                    assert(old(self).slot_ok(i));
                }
            }
        }
        Entity { idx }
    }

    /// Creates a transient deposit-effect entity: it carries the payload
    /// crop kind, a tween that runs from `start` to `end` over the fixed
    /// effect duration beginning at `now`, and an animated position starting
    /// at `start`.
    pub fn spawn_effect(&mut self, crop: CropType, start: Vec2, end: Vec2, now: u64) -> (e:
        Entity)
        requires
            old(self).wf(),
            start.in_range(TWEEN_LIMIT),
            end.in_range(TWEEN_LIMIT),
            now + EFFECT_DURATION_MS <= u64::MAX,
        ensures
            final(self).wf(),
            e.idx == old(self).n(),
            final(self).n() == old(self).n() + 1,
            final(self).spec_valid(e),
            final(self).alive@ == old(self).alive@.push(true),
            final(self).parent@ == old(self).parent@.push(None::<Entity>),
            final(self).position@ == old(self).position@.push(None::<Vec2>),
            final(self).size@ == old(self).size@.push(None::<Vec2>),
            final(self).mouse_target@ == old(self).mouse_target@.push(false),
            final(self).hover@ == old(self).hover@.push(None::<Vec2>),
            final(self).plot@ == old(self).plot@.push(None::<Plot>),
            final(self).selector@ == old(self).selector@.push(None::<CropSelector>),
            final(self).tween@ == old(self).tween@.push(
                Some(
                    Tween {
                        start,
                        end,
                        start_time: now,
                        end_time: (now + EFFECT_DURATION_MS) as u64,
                    },
                ),
            ),
            final(self).tween_done@ == old(self).tween_done@.push(false),
            final(self).effect@ == old(self).effect@.push(Some(crop)),
            final(self).anim_pos@ == old(self).anim_pos@.push(Some(start)),
            final(self).indicator@ == old(self).indicator@.push(None::<Item>),
    {
        let idx = self.alive.len();
        self.alive.push(true);
        self.parent.push(None);
        self.position.push(None);
        self.size.push(None);
        self.mouse_target.push(false);
        self.hover.push(None);
        self.plot.push(None);
        self.selector.push(None);
        self.tween.push(
            Some(Tween { start, end, start_time: now, end_time: now + EFFECT_DURATION_MS }),
        );
        self.tween_done.push(false);
        self.effect.push(Some(crop));
        self.anim_pos.push(Some(start));
        self.indicator.push(None);
        proof {
            assert forall|i: int| 0 <= i < self.n() implies self.slot_ok(i) by {
                if i < old(self).n() {
                    assert(old(self).slot_ok(i));
                }
            }
        }
        Entity { idx }
    }

    /// Inserts or replaces the hierarchy link: `e` becomes a child of `p`.
    pub fn set_parent(&mut self, e: Entity, p: Entity)
        requires
            old(self).wf(),
            old(self).spec_valid(e),
            old(self).spec_valid(p),
        ensures
            final(self).wf(),
            final(self).parent@ == old(self).parent@.update(e.idx as int, Some(p)),
            same_but_parent(*old(self), *final(self)),
    {
        self.parent[e.idx] = Some(p);
        proof {
            assert forall|j: int| 0 <= j < self.n() implies self.slot_ok(j) by {
                assert(old(self).slot_ok(j));
            }
        }
    }

    /// Inserts or replaces the local offset of `e`.
    pub fn set_position(&mut self, e: Entity, v: Vec2)
        requires
            old(self).wf(),
            old(self).spec_valid(e),
            v.in_range(POS_LIMIT),
        ensures
            final(self).wf(),
            final(self).position@ == old(self).position@.update(e.idx as int, Some(v)),
            same_but_position(*old(self), *final(self)),
    {
        self.position[e.idx] = Some(v);
        proof {
            assert forall|j: int| 0 <= j < self.n() implies self.slot_ok(j) by {
                assert(old(self).slot_ok(j));
            }
        }
    }

    /// Inserts or replaces the extent of `e`.
    pub fn set_size(&mut self, e: Entity, v: Vec2)
        requires
            old(self).wf(),
            old(self).spec_valid(e),
            0 <= v.x <= POS_LIMIT,
            0 <= v.y <= POS_LIMIT,
        ensures
            final(self).wf(),
            final(self).size@ == old(self).size@.update(e.idx as int, Some(v)),
            same_but_size(*old(self), *final(self)),
    {
        self.size[e.idx] = Some(v);
        proof {
            assert forall|j: int| 0 <= j < self.n() implies self.slot_ok(j) by {
                assert(old(self).slot_ok(j));
            }
        }
    }

    /// Marks `e` as eligible for pointer hit-testing.
    pub fn set_mouse_target(&mut self, e: Entity)
        requires
            old(self).wf(),
            old(self).spec_valid(e),
        ensures
            final(self).wf(),
            final(self).mouse_target@ == old(self).mouse_target@.update(e.idx as int, true),
            same_but_mouse_target(*old(self), *final(self)),
    {
        self.mouse_target[e.idx] = true;
        proof {
            assert forall|j: int| 0 <= j < self.n() implies self.slot_ok(j) by {
                assert(old(self).slot_ok(j));
            }
        }
    }

    /// Inserts or replaces the plot component of `e`.
    pub fn set_plot(&mut self, e: Entity, p: Plot)
        requires
            old(self).wf(),
            old(self).spec_valid(e),
            plot_wf(p),
        ensures
            final(self).wf(),
            final(self).plot@ == old(self).plot@.update(e.idx as int, Some(p)),
            same_but_plot(*old(self), *final(self)),
    {
        self.plot[e.idx] = Some(p);
        proof {
            assert forall|j: int| 0 <= j < self.n() implies self.slot_ok(j) by {
                assert(old(self).slot_ok(j));
            }
        }
    }

    /// Inserts or replaces the selector component of `e`.
    pub fn set_selector(&mut self, e: Entity, s: CropSelector)
        requires
            old(self).wf(),
            old(self).spec_valid(e),
        ensures
            final(self).wf(),
            final(self).selector@ == old(self).selector@.update(e.idx as int, Some(s)),
            same_but_selector(*old(self), *final(self)),
    {
        self.selector[e.idx] = Some(s);
        proof {
            assert forall|j: int| 0 <= j < self.n() implies self.slot_ok(j) by {
                assert(old(self).slot_ok(j));
            }
        }
    }

    /// Inserts or replaces the storage-indicator component of `e`.
    pub fn set_indicator(&mut self, e: Entity, it: Item)
        requires
            old(self).wf(),
            old(self).spec_valid(e),
        ensures
            final(self).wf(),
            final(self).indicator@ == old(self).indicator@.update(e.idx as int, Some(it)),
            same_but_indicator(*old(self), *final(self)),
    {
        self.indicator[e.idx] = Some(it);
        proof {
            assert forall|j: int| 0 <= j < self.n() implies self.slot_ok(j) by {
                assert(old(self).slot_ok(j));
            }
        }
    }

    /// Reads the hierarchy link of slot `i`.
    pub fn get_parent(&self, i: usize) -> (r: Option<Entity>)
        requires
            self.wf(),
            i < self.n(),
        ensures
            r == self.parent@[i as int],
    {
        self.parent[i]
    }

    /// Reads the local offset of slot `i`.
    pub fn get_position(&self, i: usize) -> (r: Option<Vec2>)
        requires
            self.wf(),
            i < self.n(),
        ensures
            r == self.position@[i as int],
    {
        self.position[i]
    }

    /// Reads the extent of slot `i`.
    pub fn get_size(&self, i: usize) -> (r: Option<Vec2>)
        requires
            self.wf(),
            i < self.n(),
        ensures
            r == self.size@[i as int],
    {
        self.size[i]
    }

    /// Reads the hover state of slot `i`: the pointer position relative to
    /// the entity's top-left corner, if the entity is currently hovered.
    pub fn get_hover(&self, i: usize) -> (r: Option<Vec2>)
        requires
            self.wf(),
            i < self.n(),
        ensures
            r == self.hover@[i as int],
    {
        self.hover[i]
    }

    /// Reads the plot component of slot `i`.
    pub fn get_plot(&self, i: usize) -> (r: Option<Plot>)
        requires
            self.wf(),
            i < self.n(),
        ensures
            r == self.plot@[i as int],
    {
        self.plot[i]
    }

    /// Reads the selector component of slot `i`.
    pub fn get_selector(&self, i: usize) -> (r: Option<CropSelector>)
        requires
            self.wf(),
            i < self.n(),
        ensures
            r == self.selector@[i as int],
    {
        self.selector[i]
    }

    /// Reads the tween component of slot `i`.
    pub fn get_tween(&self, i: usize) -> (r: Option<Tween>)
        requires
            self.wf(),
            i < self.n(),
        ensures
            r == self.tween@[i as int],
    {
        self.tween[i]
    }

    /// Reads the deposit-effect payload of slot `i`.
    pub fn get_effect(&self, i: usize) -> (r: Option<CropType>)
        requires
            self.wf(),
            i < self.n(),
        ensures
            r == self.effect@[i as int],
    {
        self.effect[i]
    }

    /// Reads whether the tween of slot `i` has been marked complete.
    pub fn get_tween_done(&self, i: usize) -> (r: bool)
        requires
            self.wf(),
            i < self.n(),
        ensures
            r == self.tween_done@[i as int],
    {
        self.tween_done[i]
    }

    /// Reads the animated position of the deposit effect in slot `i`.
    pub fn get_anim_pos(&self, i: usize) -> (r: Option<Vec2>)
        requires
            self.wf(),
            i < self.n(),
        ensures
            r == self.anim_pos@[i as int],
    {
        self.anim_pos[i]
    }

    /// Reads the storage-indicator component of slot `i`.
    pub fn get_indicator(&self, i: usize) -> (r: Option<Item>)
        requires
            self.wf(),
            i < self.n(),
        ensures
            r == self.indicator@[i as int],
    {
        self.indicator[i]
    }

    /// Destroys an entity: the slot is marked dead and every component it
    /// owned is removed. The handle is invalid afterwards.
    pub fn despawn(&mut self, e: Entity)
        requires
            old(self).wf(),
            old(self).spec_valid(e),
        ensures
            final(self).wf(),
            final(self).n() == old(self).n(),
            !final(self).spec_valid(e),
            final(self).cleared(e.idx as int),
            final(self).alive@ == old(self).alive@.update(e.idx as int, false),
            final(self).parent@ == old(self).parent@.update(e.idx as int, None::<Entity>),
            final(self).position@ == old(self).position@.update(e.idx as int, None::<Vec2>),
            final(self).size@ == old(self).size@.update(e.idx as int, None::<Vec2>),
            final(self).mouse_target@ == old(self).mouse_target@.update(e.idx as int, false),
            final(self).hover@ == old(self).hover@.update(e.idx as int, None::<Vec2>),
            final(self).plot@ == old(self).plot@.update(e.idx as int, None::<Plot>),
            final(self).selector@ == old(self).selector@.update(
                e.idx as int,
                None::<CropSelector>,
            ),
            final(self).tween@ == old(self).tween@.update(e.idx as int, None::<Tween>),
            final(self).tween_done@ == old(self).tween_done@.update(e.idx as int, false),
            final(self).effect@ == old(self).effect@.update(e.idx as int, None::<CropType>),
            final(self).anim_pos@ == old(self).anim_pos@.update(e.idx as int, None::<Vec2>),
            final(self).indicator@ == old(self).indicator@.update(e.idx as int, None::<Item>),
    {
        let i = e.idx;
        self.alive[i] = false;
        self.parent[i] = None;
        self.position[i] = None;
        self.size[i] = None;
        self.mouse_target[i] = false;
        self.hover[i] = None;
        self.plot[i] = None;
        self.selector[i] = None;
        self.tween[i] = None;
        self.tween_done[i] = false;
        self.effect[i] = None;
        self.anim_pos[i] = None;
        self.indicator[i] = None;
        proof {
            assert forall|j: int| 0 <= j < self.n() implies self.slot_ok(j) by {
                assert(old(self).slot_ok(j));
            }
        }
    }
}

} // verus!

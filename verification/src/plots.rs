//! The plot state machine.
//!
//! A plot is `Empty`, `Growing` or `Grown`. Planting fires while the
//! pointer button is held over an empty plot with a crop kind selected and
//! a matching seed in stock, consuming exactly one seed. Growth advances
//! every frame by the elapsed frame time; a plot whose accumulated time
//! reaches the kind's duration becomes `Grown`, and on the next update pass
//! a `Grown` plot resets to `Empty` and hands exactly one deposit effect to
//! the effect pipeline. All failure cases are silent no-ops.

use vstd::prelude::*;

use crate::crops::{spec_grow_duration, CropType};
use crate::geom::Vec2;
use crate::hierarchy::{lemma_resolved_agrees, resolve_position};
use crate::select::{find_selected_crop, spec_selected_crop};
use crate::storage::{
    find_storage_indicator_position, lemma_indicator_pos_agrees, spec_indicator_pos, Item, Storage,
};
use crate::world::{
    plot_wf, same_but_plot, slot_eq, Entity, Plot, Tween, World, EFFECT_DURATION_MS, MAX_DEPTH,
    TWEEN_LIMIT,
};

verus! {

/// The first slot at or after `i` that carries a plot and is hovered.
pub open spec fn first_hovered_plot_from(w: World, i: int) -> Option<int>
    decreases w.n() - i,
{
    if !(0 <= i < w.n()) {
        None
    } else if w.plot@[i] is Some && w.hover@[i] is Some {
        Some(i)
    } else {
        first_hovered_plot_from(w, i + 1)
    }
}

/// The first hovered plot slot, in creation order.
pub open spec fn first_hovered_plot(w: World) -> Option<int> {
    first_hovered_plot_from(w, 0)
}

/// When the scan finds a slot, that slot lies in range.
pub proof fn lemma_first_hovered_plot_from_range(w: World, i: int)
    requires
        first_hovered_plot_from(w, i) is Some,
    ensures
        i <= first_hovered_plot_from(w, i)->Some_0 < w.n(),
    decreases w.n() - i,
{
    if 0 <= i < w.n() {
        if !(w.plot@[i] is Some && w.hover@[i] is Some) {
            lemma_first_hovered_plot_from_range(w, i + 1);
        }
    }
}

/// How one planting pass transforms store and ledger: with the button held,
/// a crop kind selected, the first hovered plot empty and a matching seed
/// in stock, that plot starts growing from zero and exactly one seed is
/// consumed; in every other case nothing changes at all.
pub open spec fn plant_transition(
    w0: World,
    s0: Storage,
    w1: World,
    s1: Storage,
    held: bool,
) -> bool {
    let sel = spec_selected_crop(w0);
    let tgt = first_hovered_plot(w0);
    if held && sel is Some && tgt is Some && w0.plot@[tgt->Some_0] == Some(Plot::Empty)
        && s0.qty(Item::Seed(sel->Some_0)) > 0 {
        let k = sel->Some_0;
        let i = tgt->Some_0;
        &&& same_but_plot(w0, w1)
        &&& w1.plot@ == w0.plot@.update(i, Some(Plot::Growing { crop: k, elapsed: 0u64 }))
        &&& s1.money == s0.money
        &&& s1.qty(Item::Seed(k)) == s0.qty(Item::Seed(k)) - 1
        &&& forall|o: Item|
            o.spec_slot() != Item::Seed(k).spec_slot() ==> s1.qty(o) == s0.qty(o)
    } else {
        w1 == w0 && s1 == s0
    }
}

/// Scans the slots in creation order for the first hovered plot.
fn find_first_hovered_plot(w: &World) -> (r: Option<usize>)
    requires
        w.wf(),
    ensures
        r matches Some(i) ==> i < w.n() && first_hovered_plot(*w) == Some(i as int),
        r is None ==> first_hovered_plot(*w) is None,
{
    let n = w.alive.len();
    let mut i: usize = 0;
    while i < n
        invariant
            w.wf(),
            n == w.n(),
            i <= n,
            first_hovered_plot(*w) == first_hovered_plot_from(*w, i as int),
        decreases n - i,
    {
        if w.plot[i].is_some() && w.hover[i].is_some() {
            return Some(i);
        }
        i += 1;
    }
    None
}

/// Player-initiated planting: while the button is held, plants the selected
/// crop kind on the first hovered plot if it is empty and a matching seed
/// is in stock, consuming that seed; otherwise a silent no-op.
pub fn manipulate_plots(w: &mut World, storage: &mut Storage, held: bool)
    requires
        old(w).wf(),
        old(storage).wf(),
    ensures
        final(w).wf(),
        final(storage).wf(),
        plant_transition(*old(w), *old(storage), *final(w), *final(storage), held),
{
    if !held {
        return ;
    }
    let sel = find_selected_crop(w);
    let k = match sel {
        None => {
            return ;
        },
        Some(k) => k,
    };
    let tgt = find_first_hovered_plot(w);
    let i = match tgt {
        None => {
            return ;
        },
        Some(i) => i,
    };
    let here = w.plot[i];
    if let Some(Plot::Empty) = here {
        let seeds = storage.amount(Item::Seed(k));
        if seeds > 0 {
            storage.consume_one(Item::Seed(k));
            w.plot[i] = Some(Plot::Growing { crop: k, elapsed: 0 });
            proof {
                assert forall|t: int| 0 <= t < w.n() implies w.slot_ok(t) by {
                    assert(old(w).slot_ok(t));
                }
            }
        }
    }
}

/// A plot never passes from `Empty` to `Growing` without exactly one
/// matching seed being consumed, and never while the matching seed stock is
/// zero; the new plot starts at zero progress and no other plot changes in
/// the same planting pass.
pub proof fn lemma_plant_consumes_seed(
    w0: World,
    s0: Storage,
    w1: World,
    s1: Storage,
    held: bool,
    i: int,
)
    requires
        plant_transition(w0, s0, w1, s1, held),
        w0.cols_len_ok(),
        0 <= i < w0.plot@.len(),
        w0.plot@[i] == Some(Plot::Empty),
        w1.plot@[i] matches Some(Plot::Growing { .. }),
    ensures
        w1.plot@[i]->Some_0 matches Plot::Growing { crop, elapsed } ==> {
            &&& elapsed == 0
            &&& s0.qty(Item::Seed(crop)) > 0
            &&& s1.qty(Item::Seed(crop)) == s0.qty(Item::Seed(crop)) - 1
        },
        forall|j: int| 0 <= j < w0.plot@.len() && j != i ==> w1.plot@[j] == w0.plot@[j],
{
    let sel = spec_selected_crop(w0);
    let tgt = first_hovered_plot(w0);
    if held && sel is Some && tgt is Some && w0.plot@[tgt->Some_0] == Some(Plot::Empty)
        && s0.qty(Item::Seed(sel->Some_0)) > 0 {
        let k = sel->Some_0;
        let t = tgt->Some_0;
        lemma_first_hovered_plot_from_range(w0, 0);
        assert(w1.plot@ == w0.plot@.update(t, Some(Plot::Growing { crop: k, elapsed: 0u64 })));
        if i != t {
            assert(w1.plot@[i] == w0.plot@.update(
                t,
                Some(Plot::Growing { crop: k, elapsed: 0u64 }),
            )[i]);
            assert(w1.plot@[i] == w0.plot@[i]);
        }
    } else {
        assert(w1.plot@[i] == w0.plot@[i]);
    }
}

/// Slot `i` takes part in an update pass: it carries a plot and an extent.
pub open spec fn steps_this_pass(w: World, i: int) -> bool {
    w.plot@[i] is Some && w.size@[i] is Some
}

/// One update step of a single plot, by elapsed frame time `dt`: growth
/// accumulates; a growing plot whose accumulated time reaches its kind's
/// duration becomes grown; a grown plot resets to empty (the pass that
/// applies this also spawns its deposit effect).
pub open spec fn step_plot(p: Plot, dt: u64) -> Plot {
    match p {
        Plot::Empty => Plot::Empty,
        Plot::Growing { crop, elapsed } => if elapsed + dt >= spec_grow_duration(crop) {
            Plot::Grown { crop }
        } else {
            Plot::Growing { crop, elapsed: (elapsed + dt) as u64 }
        },
        Plot::Grown { crop } => Plot::Empty,
    }
}

/// A step never loses accumulated growth: while a plot stays `Growing` its
/// progress is non-decreasing, and it reaches `Grown` exactly when the
/// accumulated time passes the kind's duration.
pub proof fn lemma_growth_monotone(p: Plot, dt: u64)
    ensures
        p matches Plot::Growing { crop, elapsed } ==> {
            &&& step_plot(p, dt) == (if elapsed + dt >= spec_grow_duration(crop) {
                Plot::Grown { crop }
            } else {
                Plot::Growing { crop, elapsed: (elapsed + dt) as u64 }
            })
            &&& (step_plot(p, dt) matches Plot::Growing { crop: c2, elapsed: e2 } ==> c2 == crop
                && e2 >= elapsed)
        },
        plot_wf(p) ==> plot_wf(step_plot(p, dt)),
{
}

/// Slot `i` holds a plot that is ready for harvest in this pass.
pub open spec fn is_harvest(w: World, i: int) -> bool {
    steps_this_pass(w, i) && w.plot@[i] matches Some(Plot::Grown { .. })
}

/// The slots below `i` ready for harvest, in creation order.
pub open spec fn harvests_upto(w: World, i: int) -> Seq<int>
    decreases i,
{
    if i <= 0 {
        Seq::empty()
    } else if is_harvest(w, i - 1) {
        harvests_upto(w, i - 1).push(i - 1)
    } else {
        harvests_upto(w, i - 1)
    }
}

/// The crop kind of the grown plot in slot `i`.
pub open spec fn harvest_crop(w: World, i: int) -> CropType {
    w.plot@[i]->Some_0->Grown_crop
}

/// Where the deposit effect for the plot in slot `i` starts: the plot's
/// resolved center.
pub open spec fn spec_effect_start(w: World, i: int) -> (int, int) {
    let r = w.resolved_spec(Entity { idx: i as usize }, MAX_DEPTH as nat);
    let s = w.size@[i]->Some_0;
    (r.0 + s.x as int / 2, r.1 + s.y as int / 2)
}

/// The tween of the deposit effect spawned for the grown plot in slot `i`:
/// from the plot's resolved center to the display position of the matching
/// crop stock item, over the fixed effect duration starting at `now`.
pub open spec fn spec_harvest_tween(w: World, i: int, now: u64) -> Tween {
    let st = spec_effect_start(w, i);
    let en = spec_indicator_pos(w, Item::Crop(harvest_crop(w, i)));
    Tween {
        start: Vec2 { x: st.0 as i64, y: st.1 as i64 },
        end: Vec2 { x: en.0 as i64, y: en.1 as i64 },
        start_time: now,
        end_time: (now + EFFECT_DURATION_MS) as u64,
    }
}

/// Advances every plot (with an extent) by the elapsed frame time, in one
/// pass over the slots in creation order: growth accumulates, a plot that
/// reaches its duration becomes grown, and each plot observed grown resets
/// to empty while exactly one deposit effect entity is spawned for it,
/// carrying its crop kind and a tween from the plot's center to the
/// matching stock item's display position. The new effect entities are
/// appended after all existing slots, in the order of their plots.
/// `plots_transition` states exactly that as a relation between the store
/// before and after one pass.
pub open spec fn plots_transition(w0: World, w1: World, dt: u64, now: u64) -> bool {
    &&& w1.n() == w0.n() + harvests_upto(w0, w0.n()).len()
    &&& forall|i: int|
        0 <= i < w0.n() ==> w1.plot@[i] == (if steps_this_pass(w0, i) {
            Some(step_plot(w0.plot@[i]->Some_0, dt))
        } else {
            w0.plot@[i]
        })
    &&& forall|i: int|
        0 <= i < w0.n() ==> {
            &&& w1.alive@[i] == w0.alive@[i]
            &&& w1.parent@[i] == w0.parent@[i]
            &&& w1.position@[i] == w0.position@[i]
            &&& w1.size@[i] == w0.size@[i]
            &&& w1.mouse_target@[i] == w0.mouse_target@[i]
            &&& w1.hover@[i] == w0.hover@[i]
            &&& w1.selector@[i] == w0.selector@[i]
            &&& w1.tween@[i] == w0.tween@[i]
            &&& w1.tween_done@[i] == w0.tween_done@[i]
            &&& w1.effect@[i] == w0.effect@[i]
            &&& w1.anim_pos@[i] == w0.anim_pos@[i]
            &&& w1.indicator@[i] == w0.indicator@[i]
        }
    &&& forall|j: int| #![trigger harvests_upto(w0, w0.n())[j]]
        0 <= j < harvests_upto(w0, w0.n()).len() ==> {
            let slot = w0.n() + j;
            let i = harvests_upto(w0, w0.n())[j];
            &&& w1.alive@[slot]
            &&& w1.effect@[slot] == Some(harvest_crop(w0, i))
            &&& w1.tween@[slot] == Some(spec_harvest_tween(w0, i, now))
            &&& w1.anim_pos@[slot] == Some(spec_harvest_tween(w0, i, now).start)
            &&& w1.parent@[slot] is None
            &&& w1.position@[slot] is None
            &&& w1.size@[slot] is None
            &&& !w1.mouse_target@[slot]
            &&& w1.hover@[slot] is None
            &&& w1.plot@[slot] is None
            &&& w1.selector@[slot] is None
            &&& !w1.tween_done@[slot]
            &&& w1.indicator@[slot] is None
        }
}

pub fn update_plots(w: &mut World, dt_ms: u64, now_ms: u64)
    requires
        old(w).wf(),
        now_ms + EFFECT_DURATION_MS <= u64::MAX,
    ensures
        final(w).wf(),
        plots_transition(*old(w), *final(w), dt_ms, now_ms),
{
    let n = w.alive.len();
    let mut pend: Vec<(CropType, Vec2, Vec2)> = Vec::new();
    let mut i: usize = 0;
    while i < n
        invariant
            w.wf(),
            old(w).wf(),
            n == w.n(),
            n == old(w).n(),
            i <= n,
            now_ms + EFFECT_DURATION_MS <= u64::MAX,
            same_but_plot(*old(w), *w),
            forall|t: int|
                0 <= t < i ==> w.plot@[t] == (if steps_this_pass(*old(w), t) {
                    Some(step_plot(old(w).plot@[t]->Some_0, dt_ms))
                } else {
                    old(w).plot@[t]
                }),
            forall|t: int| i <= t < n ==> w.plot@[t] == old(w).plot@[t],
            pend@.len() == harvests_upto(*old(w), i as int).len(),
            forall|j: int| #![trigger harvests_upto(*old(w), i as int)[j]]
                0 <= j < pend@.len() ==> {
                    let t = harvests_upto(*old(w), i as int)[j];
                    let tw = spec_harvest_tween(*old(w), t, now_ms);
                    &&& pend@[j].0 == harvest_crop(*old(w), t)
                    &&& pend@[j].1 == tw.start
                    &&& pend@[j].2 == tw.end
                    &&& pend@[j].1.in_range(TWEEN_LIMIT)
                    &&& pend@[j].2.in_range(TWEEN_LIMIT)
                },
        decreases n - i,
    {
        proof {
            assert(harvests_upto(*old(w), i as int + 1) == (if is_harvest(*old(w), i as int) {
                harvests_upto(*old(w), i as int).push(i as int)
            } else {
                harvests_upto(*old(w), i as int)
            }));
        }
        let here = w.plot[i];
        let size_here = w.size[i];
        match (here, size_here) {
            (Some(p), Some(s)) => {
                match p {
                    Plot::Empty => {
                        w.plot[i] = Some(Plot::Empty);
                    },
                    Plot::Growing { crop, elapsed } => {
                        proof {
                            assert(w.slot_ok(i as int));
                        }
                        let dur = crop.grow_duration();
                        if dt_ms >= dur || elapsed >= dur - dt_ms {
                            w.plot[i] = Some(Plot::Grown { crop });
                        } else {
                            w.plot[i] = Some(Plot::Growing { crop, elapsed: elapsed + dt_ms });
                        }
                    },
                    Plot::Grown { crop } => {
                        proof {
                            assert(w.slot_ok(i as int));
                            lemma_resolved_agrees(
                                *w,
                                *old(w),
                                Entity { idx: i },
                                MAX_DEPTH as nat,
                            );
                            lemma_indicator_pos_agrees(*w, *old(w), Item::Crop(crop), 0);
                        }
                        let rp = resolve_position(w, Entity { idx: i });
                        let start = Vec2 { x: rp.x + s.x / 2, y: rp.y + s.y / 2 };
                        let end = find_storage_indicator_position(w, Item::Crop(crop));
                        pend.push((crop, start, end));
                        w.plot[i] = Some(Plot::Empty);
                    },
                }
                proof {
                    assert forall|t: int| 0 <= t < w.n() implies w.slot_ok(t) by {
                        assert(old(w).slot_ok(t));
                    }
                }
            },
            _ => {},
        }
        i += 1;
    }
    let ghost w_mid = *w;
    let m = pend.len();
    proof {
        assert forall|jj: int|
            0 <= jj < pend@.len() implies pend@[jj].1.in_range(TWEEN_LIMIT)
            && pend@[jj].2.in_range(TWEEN_LIMIT) by {
            let t = harvests_upto(*old(w), n as int)[jj];
        }
    }
    let mut j: usize = 0;
    while j < m
        invariant
            w.wf(),
            w_mid.wf(),
            m == pend@.len(),
            j <= m,
            now_ms + EFFECT_DURATION_MS <= u64::MAX,
            n == w_mid.n(),
            w.n() == n + j,
            forall|t: int| 0 <= t < n ==> slot_eq(w_mid, *w, t),
            forall|jj: int|
                0 <= jj < m ==> {
                    &&& pend@[jj].1.in_range(TWEEN_LIMIT)
                    &&& pend@[jj].2.in_range(TWEEN_LIMIT)
                },
            forall|jj: int| #![trigger pend@[jj]]
                0 <= jj < j ==> {
                    let slot = n + jj;
                    &&& w.alive@[slot]
                    &&& w.effect@[slot] == Some(pend@[jj].0)
                    &&& w.tween@[slot] == Some(
                        Tween {
                            start: pend@[jj].1,
                            end: pend@[jj].2,
                            start_time: now_ms,
                            end_time: (now_ms + EFFECT_DURATION_MS) as u64,
                        },
                    )
                    &&& w.anim_pos@[slot] == Some(pend@[jj].1)
                    &&& w.parent@[slot] is None
                    &&& w.position@[slot] is None
                    &&& w.size@[slot] is None
                    &&& !w.mouse_target@[slot]
                    &&& w.hover@[slot] is None
                    &&& w.plot@[slot] is None
                    &&& w.selector@[slot] is None
                    &&& !w.tween_done@[slot]
                    &&& w.indicator@[slot] is None
                },
        decreases m - j,
    {
        let ghost w_pre = *w;
        let (crop, stv, env) = pend[j];
        w.spawn_effect(crop, stv, env, now_ms);
        proof {
            assert forall|t: int| 0 <= t < n implies slot_eq(w_mid, *w, t) by {
                assert(slot_eq(w_mid, w_pre, t));
            }
        }
        j += 1;
    }
    proof {
        assert forall|i2: int|
            0 <= i2 < old(w).n() implies {
                &&& w.plot@[i2] == (if steps_this_pass(*old(w), i2) {
                    Some(step_plot(old(w).plot@[i2]->Some_0, dt_ms))
                } else {
                    old(w).plot@[i2]
                })
                &&& w.alive@[i2] == old(w).alive@[i2]
                &&& w.parent@[i2] == old(w).parent@[i2]
                &&& w.position@[i2] == old(w).position@[i2]
                &&& w.size@[i2] == old(w).size@[i2]
                &&& w.mouse_target@[i2] == old(w).mouse_target@[i2]
                &&& w.hover@[i2] == old(w).hover@[i2]
                &&& w.selector@[i2] == old(w).selector@[i2]
                &&& w.tween@[i2] == old(w).tween@[i2]
                &&& w.tween_done@[i2] == old(w).tween_done@[i2]
                &&& w.effect@[i2] == old(w).effect@[i2]
                &&& w.anim_pos@[i2] == old(w).anim_pos@[i2]
                &&& w.indicator@[i2] == old(w).indicator@[i2]
            } by {
            assert(slot_eq(w_mid, *w, i2));
        }
        assert forall|j2: int| #![trigger harvests_upto(*old(w), old(w).n())[j2]]
            0 <= j2 < harvests_upto(*old(w), old(w).n()).len() implies {
                let slot = old(w).n() + j2;
                let i2 = harvests_upto(*old(w), old(w).n())[j2];
                &&& w.alive@[slot]
                &&& w.effect@[slot] == Some(harvest_crop(*old(w), i2))
                &&& w.tween@[slot] == Some(spec_harvest_tween(*old(w), i2, now_ms))
                &&& w.anim_pos@[slot] == Some(spec_harvest_tween(*old(w), i2, now_ms).start)
                &&& w.parent@[slot] is None
                &&& w.position@[slot] is None
                &&& w.size@[slot] is None
                &&& !w.mouse_target@[slot]
                &&& w.hover@[slot] is None
                &&& w.plot@[slot] is None
                &&& w.selector@[slot] is None
                &&& !w.tween_done@[slot]
                &&& w.indicator@[slot] is None
            } by {
            let t = harvests_upto(*old(w), old(w).n())[j2];
            assert(0 <= j2 < pend@.len());
            assert(pend@[j2].0 == harvest_crop(*old(w), t));
        }
    }
}

} // verus!

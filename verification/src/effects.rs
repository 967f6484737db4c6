//! The deferred effect pipeline.
//!
//! A deposit effect interpolates linearly from its source to its target
//! over its tween's fixed run time, driven by the wall clock sampled once
//! per frame. The pipeline is mark-then-process: one pass moves every
//! animated position and marks the tweens whose time is up, setting their
//! position to the exact end point; a second pass credits the ledger once
//! for every marked effect and destroys the entity in the same frame, so no
//! completed effect survives into the next frame or is ever processed
//! twice.

use vstd::prelude::*;

use crate::crops::CropType;
use crate::geom::Vec2;
use crate::storage::{Item, Storage};
use crate::world::{
    same_but_anim, slot_eq, tween_wf, Entity, Tween, World, TWEEN_LIMIT, TWEEN_SPAN_MAX,
};

verus! {

/// Linear interpolation of one coordinate: `num/den` of the way from `a`
/// to `b`, with the division rounding the travelled distance toward zero.
pub open spec fn lerp1(a: int, b: int, num: int, den: int) -> int {
    if b >= a {
        a + (b - a) * num / den
    } else {
        a - (a - b) * num / den
    }
}

/// Computes `lerp1` on machine integers; the result stays between the two
/// endpoints.
fn lerp_coord(a: i64, b: i64, num: u64, den: u64) -> (r: i64)
    requires
        -TWEEN_LIMIT <= a <= TWEEN_LIMIT,
        -TWEEN_LIMIT <= b <= TWEEN_LIMIT,
        0 < den <= TWEEN_SPAN_MAX,
        num < den,
    ensures
        r == lerp1(a as int, b as int, num as int, den as int),
        -TWEEN_LIMIT <= r <= TWEEN_LIMIT,
{
    let diff: i64 = if b >= a {
        b - a
    } else {
        a - b
    };
    proof {
        assert(diff as int * num as int <= 200_000_000 * 1_000_000) by (nonlinear_arith)
            requires
                0 <= diff as int <= 200_000_000,
                0 <= num as int <= 1_000_000,
        ;
        vstd::arithmetic::mul::lemma_mul_nonnegative(diff as int, num as int);
        vstd::arithmetic::mul::lemma_mul_inequality(num as int, den as int, diff as int);
        vstd::arithmetic::mul::lemma_mul_is_commutative(diff as int, num as int);
        vstd::arithmetic::mul::lemma_mul_is_commutative(diff as int, den as int);
        vstd::arithmetic::div_mod::lemma_div_is_ordered(
            diff as int * num as int,
            diff as int * den as int,
            den as int,
        );
        vstd::arithmetic::div_mod::lemma_div_multiples_vanish(diff as int, den as int);
        vstd::arithmetic::div_mod::lemma_div_pos_is_pos(diff as int * num as int, den as int);
    }
    let scaled: i64 = (diff * (num as i64)) / (den as i64);
    if b >= a {
        a + scaled
    } else {
        a - scaled
    }
}

/// Slot `i` takes part in a tween pass: it carries a tween and an animated
/// position.
pub open spec fn tweens_this_pass(w: World, i: int) -> bool {
    w.tween@[i] is Some && w.anim_pos@[i] is Some
}

/// Whether slot `i` carries a completion mark after a tween pass at `now`
/// over store `w0`: marks are kept, and a tween whose time is up gains one.
pub open spec fn done_after(w0: World, i: int, now: u64) -> bool {
    w0.tween_done@[i] || (tweens_this_pass(w0, i) && now >= w0.tween@[i]->Some_0.end_time)
}

/// Where a tween stands at time `now`: the exact end point once its time is
/// up, otherwise the linear interpolation of the elapsed fraction (a tween
/// sampled before its own start time stays at its start).
pub open spec fn spec_tween_pos(t: Tween, now: u64) -> Vec2 {
    if now >= t.end_time {
        t.end
    } else {
        let num = if now > t.start_time {
            now - t.start_time
        } else {
            0int
        };
        let den = t.end_time - t.start_time;
        Vec2 {
            x: lerp1(t.start.x as int, t.end.x as int, num, den) as i64,
            y: lerp1(t.start.y as int, t.end.y as int, num, den) as i64,
        }
    }
}

/// How one tween pass at `now` transforms the store: every tweened entity
/// sits at its interpolated position, tweens whose time is up are marked
/// complete, and nothing else changes.
pub open spec fn tween_transition(w0: World, w1: World, now: u64) -> bool {
    &&& same_but_anim(w0, w1)
    &&& w1.anim_pos@.len() == w0.n()
    &&& w1.tween_done@.len() == w0.n()
    &&& forall|i: int|
        0 <= i < w0.n() ==> w1.anim_pos@[i] == (if tweens_this_pass(w0, i) {
            Some(spec_tween_pos(w0.tween@[i]->Some_0, now))
        } else {
            w0.anim_pos@[i]
        })
    &&& forall|i: int| 0 <= i < w0.n() ==> w1.tween_done@[i] == done_after(w0, i, now)
}

/// Advances every tweened entity to its interpolated position at `now`:
/// a tween whose time is up has its position set to the exact end point
/// and is marked complete; completion marks are never taken away here.
pub fn update_tweens(w: &mut World, now_ms: u64)
    requires
        old(w).wf(),
    ensures
        final(w).wf(),
        tween_transition(*old(w), *final(w), now_ms),
{
    let n = w.alive.len();
    let mut i: usize = 0;
    while i < n
        invariant
            w.wf(),
            old(w).wf(),
            n == w.n(),
            n == old(w).n(),
            i <= n,
            same_but_anim(*old(w), *w),
            forall|t: int|
                0 <= t < i ==> w.anim_pos@[t] == (if tweens_this_pass(*old(w), t) {
                    Some(spec_tween_pos(old(w).tween@[t]->Some_0, now_ms))
                } else {
                    old(w).anim_pos@[t]
                }),
            forall|t: int| 0 <= t < i ==> w.tween_done@[t] == done_after(*old(w), t, now_ms),
            forall|t: int| i <= t < n ==> w.anim_pos@[t] == old(w).anim_pos@[t],
            forall|t: int| i <= t < n ==> w.tween_done@[t] == old(w).tween_done@[t],
        decreases n - i,
    {
        let ghost w_pre = *w;
        let tw = w.tween[i];
        let ap = w.anim_pos[i];
        if let Some(t) = tw {
            if ap.is_some() {
                proof {
                    assert(w.slot_ok(i as int));
                    assert(tween_wf(t));
                }
                if now_ms >= t.end_time {
                    w.anim_pos[i] = Some(t.end);
                    w.tween_done[i] = true;
                } else {
                    let num: u64 = if now_ms > t.start_time {
                        now_ms - t.start_time
                    } else {
                        0
                    };
                    let den: u64 = t.end_time - t.start_time;
                    let x = lerp_coord(t.start.x, t.end.x, num, den);
                    let y = lerp_coord(t.start.y, t.end.y, num, den);
                    w.anim_pos[i] = Some(Vec2 { x, y });
                }
                proof {
                    assert forall|t2: int| 0 <= t2 < w.n() implies w.slot_ok(t2) by {
                        assert(w_pre.slot_ok(t2));
                    }
                }
            }
        }
        proof {
            assert forall|t: int|
                0 <= t < i + 1 implies w.tween_done@[t] == done_after(*old(w), t, now_ms) by {
                if t < i {
                    assert(w_pre.tween_done@[t] == done_after(*old(w), t, now_ms));
                } else {
                    assert(w_pre.tween_done@[t] == old(w).tween_done@[t]);
                }
            }
        }
        i += 1;
    }
}

/// Slot `i` holds a deposit effect whose tween has been marked complete.
pub open spec fn effect_done(w: World, i: int) -> bool {
    &&& 0 <= i < w.n()
    &&& w.tween_done@[i]
    &&& w.effect@[i] is Some
}

/// How many completed effects carrying crop kind `k` sit below slot `i`.
pub open spec fn done_count(w: World, k: CropType, i: int) -> int
    decreases i,
{
    if i <= 0 {
        0
    } else {
        done_count(w, k, i - 1) + if effect_done(w, i - 1) && w.effect@[i - 1] == Some(k) {
            1int
        } else {
            0int
        }
    }
}

/// The count is bounded by the number of slots scanned.
pub proof fn lemma_done_count_bound(w: World, k: CropType, i: int)
    requires
        i >= 0,
    ensures
        0 <= done_count(w, k, i) <= i,
    decreases i,
{
    if i > 0 {
        lemma_done_count_bound(w, k, i - 1);
    }
}

/// How one completion pass transforms the store: every slot holding a
/// completed effect is destroyed outright, and every other slot is left
/// exactly as it was.
pub open spec fn finish_transition(w0: World, w1: World) -> bool {
    &&& w1.n() == w0.n()
    &&& w1.cols_len_ok()
    &&& forall|i: int|
        0 <= i < w0.n() && #[trigger] effect_done(w0, i) ==> w1.cleared(i) && !w1.alive@[i]
    &&& forall|i: int|
        0 <= i < w0.n() && !(#[trigger] effect_done(w0, i)) ==> slot_eq(w0, w1, i)
}

/// No completed effect survives its completion pass: afterwards nothing in
/// the store is in the "completed but unprocessed" state, so an effect can
/// never be observed in processing twice, and a destroyed slot never comes
/// back.
pub proof fn lemma_effects_settled(w0: World, w1: World)
    requires
        finish_transition(w0, w1),
    ensures
        forall|i: int| 0 <= i < w1.n() ==> !effect_done(w1, i),
{
    assert forall|i: int| 0 <= i < w1.n() implies !effect_done(w1, i) by {
        if effect_done(w0, i) {
            assert(w1.cleared(i));
        } else {
            assert(slot_eq(w0, w1, i));
        }
    }
}

/// Credits the ledger once for every completed deposit effect — one crop
/// unit of the effect's payload kind — and destroys the effect entity in
/// the same pass. Seeds and currency are untouched; nothing else in the
/// store changes.
pub fn finish_deposit_effects(w: &mut World, storage: &mut Storage)
    requires
        old(w).wf(),
        old(storage).wf(),
        old(storage).qty(Item::Crop(CropType::Potato)) + old(w).n() <= i64::MAX,
        old(storage).qty(Item::Crop(CropType::Onion)) + old(w).n() <= i64::MAX,
    ensures
        final(w).wf(),
        final(storage).wf(),
        finish_transition(*old(w), *final(w)),
        final(storage).money == old(storage).money,
        forall|k: CropType| #[trigger]
            final(storage).qty(Item::Seed(k)) == old(storage).qty(Item::Seed(k)),
        forall|k: CropType| #[trigger]
            final(storage).qty(Item::Crop(k)) == old(storage).qty(Item::Crop(k)) + done_count(
                *old(w),
                k,
                old(w).n(),
            ),
{
    let n = w.alive.len();
    let mut i: usize = 0;
    while i < n
        invariant
            w.wf(),
            old(w).wf(),
            storage.wf(),
            old(storage).wf(),
            n == w.n(),
            n == old(w).n(),
            i <= n,
            old(storage).qty(Item::Crop(CropType::Potato)) + n <= i64::MAX,
            old(storage).qty(Item::Crop(CropType::Onion)) + n <= i64::MAX,
            forall|t: int|
                0 <= t < i && #[trigger] effect_done(*old(w), t) ==> w.cleared(t)
                    && !w.alive@[t],
            forall|t: int|
                0 <= t < i && !(#[trigger] effect_done(*old(w), t)) ==> slot_eq(*old(w), *w, t),
            forall|t: int| i <= t < n ==> #[trigger] slot_eq(*old(w), *w, t),
            storage.money == old(storage).money,
            forall|k: CropType| #[trigger]
                storage.qty(Item::Seed(k)) == old(storage).qty(Item::Seed(k)),
            forall|k: CropType| #[trigger]
                storage.qty(Item::Crop(k)) == old(storage).qty(Item::Crop(k)) + done_count(
                    *old(w),
                    k,
                    i as int,
                ),
        decreases n - i,
    {
        let ghost w_pre = *w;
        let ghost st_pre = *storage;
        let done = w.tween_done[i];
        let eff = w.effect[i];
        proof {
            assert(slot_eq(*old(w), *w, i as int));
        }
        if done {
            if let Some(k) = eff {
                proof {
                    assert(w.slot_ok(i as int));
                    lemma_done_count_bound(*old(w), k, i as int);
                }
                storage.credit_one(Item::Crop(k));
                w.despawn(Entity { idx: i });
                proof {
                    assert forall|t: int|
                        i < t < n implies #[trigger] slot_eq(*old(w), *w, t) by {
                        assert(slot_eq(*old(w), w_pre, t));
                    }
                    assert forall|t: int|
                        0 <= t < i && !(#[trigger] effect_done(*old(w), t)) implies slot_eq(
                        *old(w),
                        *w,
                        t,
                    ) by {
                        assert(slot_eq(*old(w), w_pre, t));
                    }
                    assert forall|t: int|
                        0 <= t < i && #[trigger] effect_done(*old(w), t) implies w.cleared(t)
                        && !w.alive@[t] by {
                        assert(w_pre.cleared(t) && !w_pre.alive@[t]);
                    }
                }
            }
        }
        i += 1;
    }
}

} // verus!

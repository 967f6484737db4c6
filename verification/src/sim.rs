//! The frame orchestrator and the initial game world.
//!
//! The systems run once per rendered frame, in a fixed order: hover
//! detection, selection, planting, plot update, tween update. Between that
//! and the effect-completion pass the rendering layer may wire pointer
//! events on the storage indicators to the ledger's buy and sell actions;
//! the frame then ends with `finish_deposit_effects`, which consumes the
//! completion marks the tween pass set earlier in the same frame. Nothing
//! may be reordered: later passes depend on component writes made by
//! earlier ones.

use vstd::prelude::*;

use crate::crops::CropType;
use crate::effects::{tween_transition, update_tweens};
use crate::geom::{Vec2, POS_LIMIT};
use crate::mouse::{handle_mouse, hover_transition};
use crate::plots::{manipulate_plots, plant_transition, plots_transition, update_plots};
use crate::select::{
    at_most_one_selected, is_selected, select_crop_type, select_transition,
};
use crate::storage::{Item, Storage};
use crate::world::{CropSelector, Plot, World, EFFECT_DURATION_MS};

verus! {

/// The plain values one frame consumes from the input surface: the pointer
/// position in pixels, the press edge and the held level of the primary
/// button, the current time and the elapsed frame time in milliseconds.
#[derive(Clone, Copy, PartialEq, Eq, Structural, Debug)]
pub struct FrameInput {
    pub pointer: Vec2,
    pub pressed: bool,
    pub held: bool,
    pub now_ms: u64,
    pub dt_ms: u64,
}

/// How one simulation frame transforms store and ledger: the composition,
/// in the fixed frame order, of the hover, selection, planting, plot and
/// tween passes.
pub open spec fn sim_transition(
    w0: World,
    s0: Storage,
    w1: World,
    s1: Storage,
    inp: FrameInput,
) -> bool {
    exists|wa: World, wb: World, wc: World, wd: World|
        {
            &&& #[trigger] hover_transition(w0, wa, inp.pointer)
            &&& #[trigger] select_transition(wa, wb, inp.pressed)
            &&& #[trigger] plant_transition(wb, s0, wc, s1, inp.held)
            &&& #[trigger] plots_transition(wc, wd, inp.dt_ms, inp.now_ms)
            &&& tween_transition(wd, w1, inp.now_ms)
        }
}

/// Runs the input-driven half of one frame in the fixed order: hover
/// detection, selection, planting, plot update, tween update. The caller
/// follows up with its ledger wiring and `finish_deposit_effects`.
pub fn frame_sim(w: &mut World, storage: &mut Storage, inp: FrameInput)
    requires
        old(w).wf(),
        old(storage).wf(),
        inp.pointer.in_range(POS_LIMIT),
        inp.now_ms + EFFECT_DURATION_MS <= u64::MAX,
    ensures
        final(w).wf(),
        final(storage).wf(),
        sim_transition(*old(w), *old(storage), *final(w), *final(storage), inp),
{
    handle_mouse(w, inp.pointer);
    let ghost wa = *w;
    select_crop_type(w, inp.pressed);
    let ghost wb = *w;
    manipulate_plots(w, storage, inp.held);
    let ghost wc = *w;
    update_plots(w, inp.dt_ms, inp.now_ms);
    let ghost wd = *w;
    update_tweens(w, inp.now_ms);
    proof {
        assert(hover_transition(*old(w), wa, inp.pointer));
        assert(select_transition(wa, wb, inp.pressed));
        assert(plant_transition(wb, *old(storage), wc, *storage, inp.held));
        assert(plots_transition(wc, wd, inp.dt_ms, inp.now_ms));
        assert(tween_transition(wd, *w, inp.now_ms));
    }
}

/// The layout the game starts from: a five-by-five grid of
/// empty plots hanging off one anchor, one selector per crop kind, one
/// storage indicator per stock item, and a ledger holding one hundred
/// currency and no stock. All layout values are integer pixels.
pub fn new_game_world() -> (r: (World, Storage))
    ensures
        r.0.wf(),
        r.1.wf(),
        r.1.money == 100,
        forall|it: Item| r.1.qty(it) == 0,
        at_most_one_selected(r.0),
{
    let mut w = World::new();
    let grid = w.spawn();
    w.set_position(grid, Vec2 { x: 10, y: 40 });
    let mut y: usize = 0;
    while y < 5
        invariant
            w.wf(),
            forall|t: int| 0 <= t < w.n() ==> !is_selected(w, t),
            w.spec_valid(grid),
        decreases 5 - y,
    {
        let mut x: usize = 0;
        while x < 5
            invariant
                w.wf(),
                forall|t: int| 0 <= t < w.n() ==> !is_selected(w, t),
                x <= 5,
                y < 5,
                w.spec_valid(grid),
            decreases 5 - x,
        {
            let ghost w0 = w;
            let plot = w.spawn();
            w.set_plot(plot, Plot::Empty);
            w.set_parent(plot, grid);
            let px: i64 = (x as i64) * 64;
            let py: i64 = (y as i64) * 64;
            w.set_position(plot, Vec2 { x: px, y: py });
            w.set_size(plot, Vec2 { x: 64, y: 64 });
            w.set_mouse_target(plot);
            proof {
                assert forall|t: int| 0 <= t < w.n() implies !is_selected(w, t) by {
                    if t < w0.n() {
                        assert(!is_selected(w0, t));
                    }
                }
            }
            x += 1;
        }
        y += 1;
    }
    let ghost w_oa = w;
    let sel_anchor = w.spawn();
    w.set_position(sel_anchor, Vec2 { x: 400, y: 40 });
    proof {
        assert forall|t: int| 0 <= t < w.n() implies !is_selected(w, t) by {
            if t < w_oa.n() {
                assert(!is_selected(w_oa, t));
            }
        }
    }
    let mut ci: usize = 0;
    while ci < 2
        invariant
            w.wf(),
            forall|t: int| 0 <= t < w.n() ==> !is_selected(w, t),
            ci <= 2,
            w.spec_valid(sel_anchor),
        decreases 2 - ci,
    {
        let crop = if ci == 0 {
            CropType::Potato
        } else {
            CropType::Onion
        };
        let ghost w0 = w;
        let s = w.spawn();
        w.set_selector(s, CropSelector { crop, selected: false });
        w.set_parent(s, sel_anchor);
        w.set_position(s, Vec2 { x: 0, y: (ci as i64) * 77 });
        w.set_size(s, Vec2 { x: 64, y: 64 });
        w.set_mouse_target(s);
        proof {
            assert forall|t: int| 0 <= t < w.n() implies !is_selected(w, t) by {
                if t < w0.n() {
                    assert(!is_selected(w0, t));
                }
            }
        }
        ci += 1;
    }
    let ghost w_ob = w;
    let ind_anchor = w.spawn();
    w.set_position(ind_anchor, Vec2 { x: 10, y: 400 });
    proof {
        assert forall|t: int| 0 <= t < w.n() implies !is_selected(w, t) by {
            if t < w_ob.n() {
                assert(!is_selected(w_ob, t));
            }
        }
    }
    let mut ii: usize = 0;
    while ii < 2
        invariant
            w.wf(),
            forall|t: int| 0 <= t < w.n() ==> !is_selected(w, t),
            ii <= 2,
            w.spec_valid(ind_anchor),
        decreases 2 - ii,
    {
        let mut ji: usize = 0;
        while ji < 2
            invariant
                w.wf(),
                forall|t: int| 0 <= t < w.n() ==> !is_selected(w, t),
                ii < 2,
                ji <= 2,
                w.spec_valid(ind_anchor),
            decreases 2 - ji,
        {
            let crop = if ji == 0 {
                CropType::Potato
            } else {
                CropType::Onion
            };
            let item = if ii == 0 {
                Item::Seed(crop)
            } else {
                Item::Crop(crop)
            };
            let ghost w0 = w;
            let e = w.spawn();
            w.set_indicator(e, item);
            w.set_parent(e, ind_anchor);
            w.set_position(
                e,
                Vec2 { x: (ji as i64) * 140, y: (ii as i64) * 77 },
            );
            w.set_size(e, Vec2 { x: 100, y: 64 });
            w.set_mouse_target(e);
            proof {
                assert forall|t: int| 0 <= t < w.n() implies !is_selected(w, t) by {
                    if t < w0.n() {
                        assert(!is_selected(w0, t));
                    }
                }
            }
            ji += 1;
        }
        ii += 1;
    }
    let storage = Storage::new(100);
    proof {
        assert forall|i2: int, j2: int|
            #[trigger] is_selected(w, i2) && #[trigger] is_selected(w, j2) implies i2 == j2 by {}
    }
    (w, storage)
}

} // verus!

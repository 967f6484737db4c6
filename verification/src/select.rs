//! The selection system.
//!
//! On the edge of a press, the first entity (in creation order, the
//! deterministic store order) that is simultaneously hovered and carries a
//! selector is promoted to "selected" and every other selector is cleared
//! in the same unconditional rewrite, so exclusive single-selection holds
//! even under ties.

use vstd::prelude::*;

use crate::crops::CropType;
use crate::world::{same_but_selector, CropSelector, World};

verus! {

/// The first slot at or after `i` that is hovered and carries a selector.
pub open spec fn first_hovered_selector_from(w: World, i: int) -> Option<int>
    decreases w.n() - i,
{
    if !(0 <= i < w.n()) {
        None
    } else if w.hover@[i] is Some && w.selector@[i] is Some {
        Some(i)
    } else {
        first_hovered_selector_from(w, i + 1)
    }
}

/// The first hovered selector slot, in creation order.
pub open spec fn first_hovered_selector(w: World) -> Option<int> {
    first_hovered_selector_from(w, 0)
}

/// The selector value of slot `i` after a rewrite that selects exactly the
/// slot `on` points at.
pub open spec fn selector_after(s: Option<CropSelector>, on: bool) -> Option<CropSelector> {
    match s {
        Option::None => None,
        Option::Some(c) => Some(CropSelector { crop: c.crop, selected: on }),
    }
}

/// How one selection pass transforms the store: without a press, or with no
/// hovered selector, nothing changes; otherwise every selector is rewritten
/// so that exactly the first hovered selector slot has its flag set.
pub open spec fn select_transition(w0: World, w1: World, pressed: bool) -> bool {
    if !pressed {
        w1 == w0
    } else {
        match first_hovered_selector(w0) {
            Option::None => w1 == w0,
            Option::Some(k) => {
                &&& same_but_selector(w0, w1)
                &&& w1.selector@.len() == w0.selector@.len()
                &&& forall|i: int|
                    0 <= i < w0.selector@.len() ==> w1.selector@[i] == selector_after(
                        w0.selector@[i],
                        i == k,
                    )
            },
        }
    }
}

/// Slot `i` carries a selector whose flag is set.
pub open spec fn is_selected(w: World, i: int) -> bool {
    &&& 0 <= i < w.n()
    &&& w.selector@[i] matches Some(s) && s.selected
}

/// The exclusivity invariant: at most one selector has its flag set.
pub open spec fn at_most_one_selected(w: World) -> bool {
    forall|i: int, j: int|
        #[trigger] is_selected(w, i) && #[trigger] is_selected(w, j) ==> i == j
}

/// Selection keeps the exclusivity invariant across any press: a pass that
/// rewrites promotes exactly one slot, and a pass that changes nothing
/// preserves what held before.
pub proof fn lemma_selection_exclusive(w0: World, w1: World, pressed: bool)
    requires
        w0.cols_len_ok(),
        select_transition(w0, w1, pressed),
        at_most_one_selected(w0),
    ensures
        at_most_one_selected(w1),
{
    if pressed {
        match first_hovered_selector(w0) {
            Option::None => {},
            Option::Some(k) => {
                assert forall|i: int, j: int|
                    #[trigger] is_selected(w1, i) && #[trigger] is_selected(w1, j) implies i
                    == j by {
                    assert(w1.selector@[i] == selector_after(w0.selector@[i], i == k));
                    assert(w1.selector@[j] == selector_after(w0.selector@[j], j == k));
                }
            },
        }
    }
}

/// On a press, promotes the first hovered selector entity to "selected" and
/// demotes every other selector in one unconditional rewrite; without a
/// press, or with nothing both hovered and selectable, a no-op.
pub fn select_crop_type(w: &mut World, pressed: bool)
    requires
        old(w).wf(),
    ensures
        final(w).wf(),
        select_transition(*old(w), *final(w), pressed),
{
    if !pressed {
        return ;
    }
    let n = w.alive.len();
    let found = find_first_hovered_selector(w);
    let k: usize = match found {
        None => {
            return ;
        },
        Some(k) => k,
    };
    let mut j: usize = 0;
    while j < n
        invariant
            w.cols_len_ok(),
            same_but_selector(*old(w), *w),
            n == w.n(),
            j <= n,
            k < n,
            first_hovered_selector(*old(w)) == Some(k as int),
            w.selector@.len() == old(w).selector@.len(),
            forall|t: int|
                0 <= t < j ==> w.selector@[t] == selector_after(old(w).selector@[t], t == k),
            forall|t: int| j <= t < n ==> w.selector@[t] == old(w).selector@[t],
            forall|t: int| 0 <= t < n ==> #[trigger] old(w).slot_ok(t),
        decreases n - j,
    {
        if let Some(s) = w.selector[j] {
            w.selector[j] = Some(CropSelector { crop: s.crop, selected: j == k });
        }
        j += 1;
    }
    proof {
        assert forall|t: int| 0 <= t < w.n() implies w.slot_ok(t) by {
            assert(old(w).slot_ok(t));
        }
    }
}

/// Scans the slots in creation order for the first that is both hovered
/// and selectable.
fn find_first_hovered_selector(w: &World) -> (r: Option<usize>)
    requires
        w.wf(),
    ensures
        r matches Some(k) ==> k < w.n() && first_hovered_selector(*w) == Some(k as int),
        r is None ==> first_hovered_selector(*w) is None,
{
    let n = w.alive.len();
    let mut i: usize = 0;
    while i < n
        invariant
            w.wf(),
            n == w.n(),
            i <= n,
            first_hovered_selector(*w) == first_hovered_selector_from(*w, i as int),
        decreases n - i,
    {
        if w.hover[i].is_some() && w.selector[i].is_some() {
            return Some(i);
        }
        i += 1;
    }
    None
}

/// The crop kind of the first selector whose flag is set, scanning from `i`.
pub open spec fn selected_crop_from(w: World, i: int) -> Option<CropType>
    decreases w.n() - i,
{
    if !(0 <= i < w.n()) {
        None
    } else if w.selector@[i] matches Some(s) && s.selected {
        Some(w.selector@[i]->Some_0.crop)
    } else {
        selected_crop_from(w, i + 1)
    }
}

/// The crop kind currently selected, if any.
pub open spec fn spec_selected_crop(w: World) -> Option<CropType> {
    selected_crop_from(w, 0)
}

/// Finds the currently selected crop kind, if any selector has its flag
/// set; creation order decides among several (exclusivity makes that moot).
pub fn find_selected_crop(w: &World) -> (r: Option<CropType>)
    requires
        w.wf(),
    ensures
        r == spec_selected_crop(*w),
{
    let n = w.alive.len();
    let mut i: usize = 0;
    while i < n
        invariant
            w.wf(),
            n == w.n(),
            i <= n,
            spec_selected_crop(*w) == selected_crop_from(*w, i as int),
        decreases n - i,
    {
        if let Some(s) = w.selector[i] {
            if s.selected {
                return Some(s.crop);
            }
        }
        i += 1;
    }
    None
}

} // verus!

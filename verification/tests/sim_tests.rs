use farmsim::crops::CropType;
use farmsim::geom::Vec2;
use farmsim::hierarchy::resolve_position;
use farmsim::mouse::{handle_mouse, is_hovered};
use farmsim::plots::{manipulate_plots, update_plots};
use farmsim::select::{find_selected_crop, select_crop_type};
use farmsim::storage::{
    buy_zone_hit, find_storage_indicator_position, sell_zone_hit, Item, Storage,
};
use farmsim::world::{CropSelector, Plot, World};

fn v(x: i64, y: i64) -> Vec2 {
    Vec2 { x, y }
}

#[test]
fn resolved_position_sums_offsets_along_chain() {
    let mut w = World::new();
    let root = w.spawn();
    w.set_position(root, v(10, 40));
    let mid = w.spawn();
    w.set_position(mid, v(100, 200));
    w.set_parent(mid, root);
    let leaf = w.spawn();
    w.set_position(leaf, v(1, 2));
    w.set_parent(leaf, mid);
    assert_eq!(resolve_position(&w, root), v(10, 40));
    assert_eq!(resolve_position(&w, mid), v(110, 240));
    assert_eq!(resolve_position(&w, leaf), v(111, 242));
}

#[test]
fn entity_without_offset_resolves_to_zero() {
    let mut w = World::new();
    let root = w.spawn();
    w.set_position(root, v(10, 40));
    let child = w.spawn();
    w.set_parent(child, root);
    assert_eq!(resolve_position(&w, child), v(0, 0));
}

#[test]
fn hover_set_iff_pointer_in_box() {
    let mut w = World::new();
    let e = w.spawn();
    w.set_position(e, v(10, 10));
    w.set_size(e, v(64, 64));
    w.set_mouse_target(e);
    handle_mouse(&mut w, v(20, 30));
    assert!(is_hovered(&w, e));
    assert_eq!(w.get_hover(e.idx), Some(v(10, 20)));
    handle_mouse(&mut w, v(500, 500));
    assert!(!is_hovered(&w, e));
    assert_eq!(w.get_hover(e.idx), None);
}

#[test]
fn hover_box_is_half_open() {
    let mut w = World::new();
    let e = w.spawn();
    w.set_position(e, v(10, 10));
    w.set_size(e, v(64, 64));
    w.set_mouse_target(e);
    handle_mouse(&mut w, v(10, 10));
    assert!(is_hovered(&w, e), "top-left corner is inside");
    handle_mouse(&mut w, v(74, 10));
    assert!(!is_hovered(&w, e), "right edge is outside");
    handle_mouse(&mut w, v(10, 74));
    assert!(!is_hovered(&w, e), "bottom edge is outside");
    handle_mouse(&mut w, v(73, 73));
    assert!(is_hovered(&w, e));
}

#[test]
fn hover_marks_all_overlapping_boxes() {
    let mut w = World::new();
    let a = w.spawn();
    w.set_position(a, v(0, 0));
    w.set_size(a, v(100, 100));
    w.set_mouse_target(a);
    let b = w.spawn();
    w.set_position(b, v(50, 50));
    w.set_size(b, v(100, 100));
    w.set_mouse_target(b);
    handle_mouse(&mut w, v(60, 60));
    assert!(is_hovered(&w, a));
    assert!(is_hovered(&w, b));
}

#[test]
fn unhoverable_entity_is_never_hovered() {
    let mut w = World::new();
    let e = w.spawn();
    w.set_position(e, v(0, 0));
    w.set_size(e, v(100, 100));
    handle_mouse(&mut w, v(5, 5));
    assert!(!is_hovered(&w, e), "no hoverable marker, no hover state");
}

fn selector_world() -> (World, farmsim::world::Entity, farmsim::world::Entity) {
    let mut w = World::new();
    let a = w.spawn();
    w.set_position(a, v(0, 0));
    w.set_size(a, v(64, 64));
    w.set_mouse_target(a);
    w.set_selector(a, CropSelector { crop: CropType::Potato, selected: false });
    let b = w.spawn();
    w.set_position(b, v(100, 0));
    w.set_size(b, v(64, 64));
    w.set_mouse_target(b);
    w.set_selector(b, CropSelector { crop: CropType::Onion, selected: false });
    (w, a, b)
}

#[test]
fn press_selects_hovered_selector_exclusively() {
    let (mut w, a, b) = selector_world();
    handle_mouse(&mut w, v(10, 10));
    select_crop_type(&mut w, true);
    assert!(w.get_selector(a.idx).unwrap().selected);
    assert!(!w.get_selector(b.idx).unwrap().selected);
    assert_eq!(find_selected_crop(&w), Some(CropType::Potato));

    handle_mouse(&mut w, v(110, 10));
    select_crop_type(&mut w, true);
    assert!(!w.get_selector(a.idx).unwrap().selected);
    assert!(w.get_selector(b.idx).unwrap().selected);
    assert_eq!(find_selected_crop(&w), Some(CropType::Onion));
}

#[test]
fn selection_without_press_or_hover_is_a_no_op() {
    let (mut w, a, b) = selector_world();
    handle_mouse(&mut w, v(10, 10));
    select_crop_type(&mut w, false);
    assert_eq!(find_selected_crop(&w), None);
    handle_mouse(&mut w, v(500, 500));
    select_crop_type(&mut w, true);
    assert_eq!(find_selected_crop(&w), None);
    assert!(!w.get_selector(a.idx).unwrap().selected);
    assert!(!w.get_selector(b.idx).unwrap().selected);
}

/// A world with one selectable crop, one plot under the pointer, and a
/// ledger; the pointer hovers the plot and the kind is selected.
fn planting_world(selected: CropType, seeds: i64) -> (World, Storage, farmsim::world::Entity) {
    let mut w = World::new();
    let sel = w.spawn();
    w.set_position(sel, v(400, 0));
    w.set_size(sel, v(64, 64));
    w.set_mouse_target(sel);
    w.set_selector(sel, CropSelector { crop: selected, selected: false });
    let plot = w.spawn();
    w.set_position(plot, v(0, 0));
    w.set_size(plot, v(64, 64));
    w.set_mouse_target(plot);
    w.set_plot(plot, Plot::Empty);
    let mut storage = Storage::new(100);
    let mut i = 0;
    while i < seeds {
        storage.credit_one(Item::Seed(selected));
        i += 1;
    }
    handle_mouse(&mut w, v(410, 10));
    select_crop_type(&mut w, true);
    handle_mouse(&mut w, v(10, 10));
    (w, storage, plot)
}

#[test]
fn planting_consumes_one_seed_and_starts_growth() {
    let (mut w, mut storage, plot) = planting_world(CropType::Potato, 1);
    manipulate_plots(&mut w, &mut storage, true);
    assert_eq!(
        w.get_plot(plot.idx),
        Some(Plot::Growing { crop: CropType::Potato, elapsed: 0 })
    );
    assert_eq!(storage.amount(Item::Seed(CropType::Potato)), 0);

    // A second attempt is a no-op: the plot is already growing.
    manipulate_plots(&mut w, &mut storage, true);
    assert_eq!(
        w.get_plot(plot.idx),
        Some(Plot::Growing { crop: CropType::Potato, elapsed: 0 })
    );
    assert_eq!(storage.amount(Item::Seed(CropType::Potato)), 0);
}

#[test]
fn planting_without_seed_is_a_no_op() {
    let (mut w, mut storage, plot) = planting_world(CropType::Onion, 0);
    manipulate_plots(&mut w, &mut storage, true);
    assert_eq!(w.get_plot(plot.idx), Some(Plot::Empty));
    assert_eq!(storage.amount(Item::Seed(CropType::Onion)), 0);
}

#[test]
fn planting_needs_button_held_and_selection() {
    let (mut w, mut storage, plot) = planting_world(CropType::Potato, 1);
    manipulate_plots(&mut w, &mut storage, false);
    assert_eq!(w.get_plot(plot.idx), Some(Plot::Empty));
    assert_eq!(storage.amount(Item::Seed(CropType::Potato)), 1);
}

#[test]
fn growth_accumulates_and_reaches_grown_at_duration() {
    let mut w = World::new();
    let plot = w.spawn();
    w.set_size(plot, v(64, 64));
    w.set_plot(plot, Plot::Growing { crop: CropType::Potato, elapsed: 0 });
    update_plots(&mut w, 2000, 0);
    assert_eq!(
        w.get_plot(plot.idx),
        Some(Plot::Growing { crop: CropType::Potato, elapsed: 2000 })
    );
    update_plots(&mut w, 2999, 2000);
    assert_eq!(
        w.get_plot(plot.idx),
        Some(Plot::Growing { crop: CropType::Potato, elapsed: 4999 })
    );
    update_plots(&mut w, 1, 4999);
    assert_eq!(w.get_plot(plot.idx), Some(Plot::Grown { crop: CropType::Potato }));
}

#[test]
fn nearly_grown_plot_crosses_the_line_with_a_small_step() {
    // Progress 0.999 advanced by 0.002 of the duration crosses 1.
    let mut w = World::new();
    let plot = w.spawn();
    w.set_size(plot, v(64, 64));
    w.set_plot(plot, Plot::Growing { crop: CropType::Potato, elapsed: 4995 });
    update_plots(&mut w, 10, 0);
    assert_eq!(w.get_plot(plot.idx), Some(Plot::Grown { crop: CropType::Potato }));

    // The next update pass resets the plot and spawns exactly one effect.
    let slots_before = w.num_slots();
    update_plots(&mut w, 10, 100);
    assert_eq!(w.get_plot(plot.idx), Some(Plot::Empty));
    assert_eq!(w.num_slots(), slots_before + 1);
    let effect_slot = slots_before;
    assert_eq!(w.get_effect(effect_slot), Some(CropType::Potato));
    let tween = w.get_tween(effect_slot).unwrap();
    assert_eq!(tween.start_time, 100);
    assert_eq!(tween.end_time, 600);
}

#[test]
fn harvest_effect_runs_to_indicator_and_credits_once() {
    let mut w = World::new();
    let plot = w.spawn();
    w.set_position(plot, v(0, 0));
    w.set_size(plot, v(64, 64));
    w.set_plot(plot, Plot::Grown { crop: CropType::Potato });
    let ind = w.spawn();
    w.set_position(ind, v(200, 300));
    w.set_size(ind, v(100, 64));
    w.set_indicator(ind, Item::Crop(CropType::Potato));
    let mut storage = Storage::new(0);

    update_plots(&mut w, 0, 1000);
    let effect_slot = 2;
    assert_eq!(w.get_effect(effect_slot), Some(CropType::Potato));
    let tween = w.get_tween(effect_slot).unwrap();
    assert_eq!(tween.start, v(32, 32), "effect starts at the plot center");
    assert_eq!(tween.end, v(250, 332), "effect ends at the indicator center");
    assert_eq!(w.get_anim_pos(effect_slot), Some(v(32, 32)));

    // Halfway through, the position is the midpoint.
    farmsim::effects::update_tweens(&mut w, 1250);
    assert_eq!(w.get_anim_pos(effect_slot), Some(v(141, 182)));
    assert!(!w.get_tween_done(effect_slot));

    // At the end the position snaps to the target and the mark is set.
    farmsim::effects::update_tweens(&mut w, 1500);
    assert_eq!(w.get_anim_pos(effect_slot), Some(v(250, 332)));
    assert!(w.get_tween_done(effect_slot));

    farmsim::effects::finish_deposit_effects(&mut w, &mut storage);
    assert_eq!(storage.amount(Item::Crop(CropType::Potato)), 1);
    assert!(!w.valid(farmsim::world::Entity { idx: effect_slot }));
    assert_eq!(w.get_effect(effect_slot), None);

    // Running the pass again credits nothing: the effect is gone.
    farmsim::effects::finish_deposit_effects(&mut w, &mut storage);
    assert_eq!(storage.amount(Item::Crop(CropType::Potato)), 1);
}

#[test]
fn missing_indicator_sends_effect_to_origin() {
    let mut w = World::new();
    let e = w.spawn();
    assert_eq!(
        find_storage_indicator_position(&w, Item::Crop(CropType::Onion)),
        v(0, 0)
    );
    let _ = e;
}

#[test]
fn indicator_position_is_resolved_center() {
    let mut w = World::new();
    let anchor = w.spawn();
    w.set_position(anchor, v(10, 400));
    let ind = w.spawn();
    w.set_parent(ind, anchor);
    w.set_position(ind, v(140, 77));
    w.set_size(ind, v(100, 64));
    w.set_indicator(ind, Item::Seed(CropType::Onion));
    assert_eq!(
        find_storage_indicator_position(&w, Item::Seed(CropType::Onion)),
        v(10 + 140 + 50, 400 + 77 + 32)
    );
}

#[test]
fn buy_purchases_capped_units_atomically() {
    let mut s = Storage::new(100);
    // Potato seeds cost 1: 100 currency affords 100, capped at 10.
    s.buy(Item::Seed(CropType::Potato));
    assert_eq!(s.amount(Item::Seed(CropType::Potato)), 10);
    assert_eq!(s.money, 90);

    // Onion seeds cost 8: 90 div 8 = 11, capped at 10, debit 80.
    s.buy(Item::Seed(CropType::Onion));
    assert_eq!(s.amount(Item::Seed(CropType::Onion)), 10);
    assert_eq!(s.money, 10);

    // Onion crops cost 16 > 10: a no-op.
    s.buy(Item::Crop(CropType::Onion));
    assert_eq!(s.amount(Item::Crop(CropType::Onion)), 0);
    assert_eq!(s.money, 10);

    // 10 div 8 = 1: exactly one unit.
    s.buy(Item::Seed(CropType::Onion));
    assert_eq!(s.amount(Item::Seed(CropType::Onion)), 11);
    assert_eq!(s.money, 2);
}

#[test]
fn sell_liquidates_everything_at_unit_cost() {
    let mut s = Storage::new(5);
    for _ in 0..7 {
        s.credit_one(Item::Crop(CropType::Potato));
    }
    // Potato crops cost 2: 7 units bring 14.
    s.sell(Item::Crop(CropType::Potato));
    assert_eq!(s.amount(Item::Crop(CropType::Potato)), 0);
    assert_eq!(s.money, 19);

    // Selling an empty stock is a no-op.
    s.sell(Item::Crop(CropType::Onion));
    assert_eq!(s.amount(Item::Crop(CropType::Onion)), 0);
    assert_eq!(s.money, 19);
}

#[test]
fn shop_zones_split_the_lower_half() {
    let size = v(100, 64);
    // Lower-left: buy.
    assert!(buy_zone_hit(v(10, 40), size));
    assert!(!sell_zone_hit(v(10, 40), size));
    // Lower-right: sell.
    assert!(sell_zone_hit(v(60, 40), size));
    assert!(!buy_zone_hit(v(60, 40), size));
    // Upper half: neither.
    assert!(!buy_zone_hit(v(10, 10), size));
    assert!(!sell_zone_hit(v(60, 10), size));
}

#[test]
fn item_costs_names_and_durations_are_fixed() {
    assert_eq!(Item::Seed(CropType::Potato).cost(), 1);
    assert_eq!(Item::Seed(CropType::Onion).cost(), 8);
    assert_eq!(Item::Crop(CropType::Potato).cost(), 2);
    assert_eq!(Item::Crop(CropType::Onion).cost(), 16);
    assert_eq!(CropType::Potato.name(), "Potato");
    assert_eq!(CropType::Onion.name(), "Onion");
    assert_eq!(Item::Seed(CropType::Potato).name(), "Potato seed");
    assert_eq!(Item::Crop(CropType::Onion).name(), "Onion");
    assert_eq!(CropType::Potato.grow_duration(), 5000);
    assert_eq!(CropType::Onion.grow_duration(), 8000);
}

#[test]
fn destroyed_entity_loses_its_components() {
    let mut w = World::new();
    let e = w.spawn();
    w.set_position(e, v(1, 2));
    w.set_size(e, v(3, 4));
    assert!(w.valid(e));
    w.despawn(e);
    assert!(!w.valid(e));
    assert_eq!(w.get_position(e.idx), None);
    assert_eq!(w.get_size(e.idx), None);
}

#[test]
fn onion_takes_eight_seconds() {
    let mut w = World::new();
    let plot = w.spawn();
    w.set_size(plot, v(64, 64));
    w.set_plot(plot, Plot::Growing { crop: CropType::Onion, elapsed: 0 });
    update_plots(&mut w, 7999, 0);
    assert_eq!(
        w.get_plot(plot.idx),
        Some(Plot::Growing { crop: CropType::Onion, elapsed: 7999 })
    );
    update_plots(&mut w, 1, 0);
    assert_eq!(w.get_plot(plot.idx), Some(Plot::Grown { crop: CropType::Onion }));
}

#[test]
fn plot_without_extent_does_not_grow() {
    let mut w = World::new();
    let plot = w.spawn();
    w.set_plot(plot, Plot::Growing { crop: CropType::Potato, elapsed: 0 });
    update_plots(&mut w, 1000, 0);
    assert_eq!(
        w.get_plot(plot.idx),
        Some(Plot::Growing { crop: CropType::Potato, elapsed: 0 })
    );
}

#[test]
fn repeated_press_keeps_selection_exclusive() {
    let (mut w, a, b) = selector_world();
    handle_mouse(&mut w, v(10, 10));
    select_crop_type(&mut w, true);
    select_crop_type(&mut w, true);
    assert!(w.get_selector(a.idx).unwrap().selected);
    assert!(!w.get_selector(b.idx).unwrap().selected);
}

#[test]
fn planting_on_grown_plot_is_a_no_op() {
    let (mut w, mut storage, plot) = planting_world(CropType::Potato, 3);
    w.set_plot(plot, Plot::Grown { crop: CropType::Onion });
    manipulate_plots(&mut w, &mut storage, true);
    assert_eq!(w.get_plot(plot.idx), Some(Plot::Grown { crop: CropType::Onion }));
    assert_eq!(storage.amount(Item::Seed(CropType::Potato)), 3);
}

#[test]
fn tween_before_its_start_stays_at_start() {
    let mut w = World::new();
    let e = w.spawn();
    let _ = e;
    w.spawn_effect(CropType::Potato, v(10, 20), v(110, 220), 1000);
    farmsim::effects::update_tweens(&mut w, 500);
    assert_eq!(w.get_anim_pos(1), Some(v(10, 20)));
    assert!(!w.get_tween_done(1));
}

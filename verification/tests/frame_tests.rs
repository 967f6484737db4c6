use farmsim::crops::CropType;
use farmsim::effects::finish_deposit_effects;
use farmsim::geom::Vec2;
use farmsim::sim::{frame_sim, new_game_world, FrameInput};
use farmsim::storage::Item;
use farmsim::world::Plot;

fn frame(pointer: Vec2, pressed: bool, held: bool, now_ms: u64, dt_ms: u64) -> FrameInput {
    FrameInput { pointer, pressed, held, now_ms, dt_ms }
}

#[test]
fn new_game_world_has_demo_layout() {
    let (w, storage) = new_game_world();
    assert_eq!(storage.money, 100);
    let mut plots = 0;
    let mut selectors = 0;
    let mut indicators = 0;
    for i in 0..w.num_slots() {
        if w.get_plot(i).is_some() {
            plots += 1;
            assert_eq!(w.get_plot(i), Some(Plot::Empty));
        }
        if let Some(s) = w.get_selector(i) {
            selectors += 1;
            assert!(!s.selected);
        }
        if w.get_indicator(i).is_some() {
            indicators += 1;
        }
    }
    assert_eq!(plots, 25);
    assert_eq!(selectors, 2);
    assert_eq!(indicators, 4);
    assert_eq!(storage.amount(Item::Seed(CropType::Potato)), 0);
    assert_eq!(storage.amount(Item::Crop(CropType::Onion)), 0);
}

#[test]
fn full_frames_select_plant_grow_and_deposit() {
    let (mut w, mut storage) = new_game_world();
    storage.buy(Item::Seed(CropType::Potato));
    assert_eq!(storage.amount(Item::Seed(CropType::Potato)), 10);
    assert_eq!(storage.money, 90);

    // Click the potato selector at (400, 40).
    frame_sim(&mut w, &mut storage, frame(Vec2 { x: 410, y: 50 }, true, true, 1000, 16));
    finish_deposit_effects(&mut w, &mut storage);

    // Hold the button over the first plot, whose box starts at (10, 40).
    frame_sim(&mut w, &mut storage, frame(Vec2 { x: 20, y: 50 }, false, true, 1016, 16));
    finish_deposit_effects(&mut w, &mut storage);
    assert_eq!(storage.amount(Item::Seed(CropType::Potato)), 9);
    let plot_slot = (0..w.num_slots()).find(|&i| w.get_plot(i).is_some()).unwrap();
    match w.get_plot(plot_slot) {
        Some(Plot::Growing { crop, .. }) => assert_eq!(crop, CropType::Potato),
        other => panic!("expected a growing plot, found {:?}", other),
    }

    // Let five seconds pass; the plot matures, resets, and an effect flies.
    frame_sim(&mut w, &mut storage, frame(Vec2 { x: 0, y: 0 }, false, false, 7000, 5984));
    finish_deposit_effects(&mut w, &mut storage);
    assert_eq!(w.get_plot(plot_slot), Some(Plot::Grown { crop: CropType::Potato }));
    let before = w.num_slots();
    frame_sim(&mut w, &mut storage, frame(Vec2 { x: 0, y: 0 }, false, false, 7016, 16));
    finish_deposit_effects(&mut w, &mut storage);
    assert_eq!(w.get_plot(plot_slot), Some(Plot::Empty));
    assert_eq!(w.num_slots(), before + 1);
    assert_eq!(storage.amount(Item::Crop(CropType::Potato)), 0, "still in flight");

    // Once the effect's half second is over, the crop lands in the ledger
    // and the effect entity is gone.
    frame_sim(&mut w, &mut storage, frame(Vec2 { x: 0, y: 0 }, false, false, 7600, 584));
    finish_deposit_effects(&mut w, &mut storage);
    assert_eq!(storage.amount(Item::Crop(CropType::Potato)), 1);
    let effect_slot = before;
    assert_eq!(w.get_effect(effect_slot), None);
}

use status_display::layout::LayoutCache;
use status_display::render::{render, DrawCommand, FontSize};
use status_display::state::{ModifierFamily, ModifierMask, StatusState};

fn cache_128x32() -> LayoutCache {
    LayoutCache::new(128, 32)
}

fn no_modifiers() -> ModifierMask {
    ModifierMask::all_clear()
}

#[test]
fn layout_of_128x32_surface() {
    let cache = cache_128x32();
    assert_eq!(cache.width, 128);
    assert_eq!(cache.height, 32);
    // The anchor is measured from the widest label in the 9x18 font: six
    // 9-pixel columns, so the box spans 0..54 and its center is 26.
    assert_eq!(cache.anchor_x, 26);
    assert_eq!(cache.anchor_y, 15);
    assert_eq!(cache.center_x, 63);
    assert_eq!(cache.center_y, 15);
}

#[test]
fn first_layer_empty_battery_no_modifiers() {
    // First layer: only the current and next-layer labels are drawn, the
    // battery gauge is empty, and every icon rests without a bar.
    let cache = cache_128x32();
    let state = StatusState { layer: 0, modifiers: no_modifiers(), battery: 0 };
    let frame = render(&cache, &state, 8);
    let expected = vec![
        DrawCommand::Clear,
        DrawCommand::Label { index: 1, x: 26, y: 27, font: FontSize::Small },
        DrawCommand::Label { index: 0, x: 26, y: 15, font: FontSize::Primary },
        DrawCommand::Icon { family: ModifierFamily::Shift, x: 63, y: 15 },
        DrawCommand::Icon { family: ModifierFamily::Ctrl, x: 78, y: 15 },
        DrawCommand::Icon { family: ModifierFamily::Alt, x: 93, y: 15 },
        DrawCommand::Icon { family: ModifierFamily::Gui, x: 108, y: 15 },
        DrawCommand::Outline { x0: 123, y0: 0, x1: 127, y1: 31 },
        DrawCommand::Fill { x0: 124, y0: 32, x1: 126, y1: 31 },
        DrawCommand::Flush,
    ];
    assert_eq!(frame, expected);
}

#[test]
fn last_layer_full_battery_left_shift() {
    // Last layer: only the current and previous-layer labels are drawn, the
    // gauge is full, the shift icon is raised with its underline bar, and
    // the other three icons rest without bars.
    let cache = cache_128x32();
    let mut modifiers = no_modifiers();
    modifiers.left_shift = true;
    let state = StatusState { layer: 7, modifiers, battery: 100 };
    let frame = render(&cache, &state, 8);
    let expected = vec![
        DrawCommand::Clear,
        DrawCommand::Label { index: 6, x: 26, y: 3, font: FontSize::Small },
        DrawCommand::Label { index: 7, x: 26, y: 15, font: FontSize::Primary },
        DrawCommand::Icon { family: ModifierFamily::Shift, x: 63, y: 11 },
        DrawCommand::Bar { x: 63, y: 20, width: 12, height: 2 },
        DrawCommand::Icon { family: ModifierFamily::Ctrl, x: 78, y: 15 },
        DrawCommand::Icon { family: ModifierFamily::Alt, x: 93, y: 15 },
        DrawCommand::Icon { family: ModifierFamily::Gui, x: 108, y: 15 },
        DrawCommand::Outline { x0: 123, y0: 0, x1: 127, y1: 31 },
        DrawCommand::Fill { x0: 124, y0: 0, x1: 126, y1: 31 },
        DrawCommand::Flush,
    ];
    assert_eq!(frame, expected);
}

#[test]
fn middle_layer_shows_both_neighbours() {
    let cache = cache_128x32();
    let state = StatusState { layer: 3, modifiers: no_modifiers(), battery: 50 };
    let frame = render(&cache, &state, 8);
    assert_eq!(
        frame[1],
        DrawCommand::Label { index: 2, x: 26, y: 3, font: FontSize::Small }
    );
    assert_eq!(
        frame[2],
        DrawCommand::Label { index: 4, x: 26, y: 27, font: FontSize::Small }
    );
    assert_eq!(
        frame[3],
        DrawCommand::Label { index: 3, x: 26, y: 15, font: FontSize::Primary }
    );
}

#[test]
fn right_variant_raises_icon_too() {
    let cache = cache_128x32();
    let mut modifiers = no_modifiers();
    modifiers.right_ctrl = true;
    let state = StatusState { layer: 0, modifiers, battery: 0 };
    let frame = render(&cache, &state, 8);
    assert!(frame.contains(&DrawCommand::Icon { family: ModifierFamily::Ctrl, x: 78, y: 11 }));
    assert!(frame.contains(&DrawCommand::Bar { x: 78, y: 20, width: 12, height: 2 }));
    // The other families rest and have no bar anywhere near their slots.
    assert!(frame.contains(&DrawCommand::Icon { family: ModifierFamily::Shift, x: 63, y: 15 }));
    let bars = frame
        .iter()
        .filter(|c| matches!(c, DrawCommand::Bar { .. }))
        .count();
    assert_eq!(bars, 1);
}

fn fill_top_for_battery(battery: u8) -> i32 {
    let cache = cache_128x32();
    let state = StatusState { layer: 0, modifiers: no_modifiers(), battery };
    let frame = render(&cache, &state, 8);
    for c in frame {
        if let DrawCommand::Fill { y0, .. } = c {
            return y0;
        }
    }
    panic!("frame holds no battery fill");
}

#[test]
fn battery_fill_grows_monotonically() {
    // The filled height is 32 - y0: zero at 0%, the full 32 rows at 100%,
    // and never shrinking as the percentage grows.
    assert_eq!(fill_top_for_battery(0), 32);
    // 1% of 32 rows rounds down to nothing; 99% leaves a single empty row.
    assert_eq!(fill_top_for_battery(1), 32);
    assert_eq!(fill_top_for_battery(50), 16);
    assert_eq!(fill_top_for_battery(99), 1);
    assert_eq!(fill_top_for_battery(100), 0);
    let mut last_height = -1;
    for battery in 0..=100u8 {
        let height = 32 - fill_top_for_battery(battery);
        assert!(height >= last_height);
        last_height = height;
    }
}

#[test]
fn same_snapshot_renders_identically() {
    let cache = cache_128x32();
    let mut modifiers = no_modifiers();
    modifiers.left_alt = true;
    modifiers.right_gui = true;
    let state = StatusState { layer: 2, modifiers, battery: 73 };
    let first = render(&cache, &state, 8);
    let second = render(&cache, &state, 8);
    assert_eq!(first, second);
}

#[test]
fn single_layer_shows_no_neighbours() {
    let cache = cache_128x32();
    let state = StatusState { layer: 0, modifiers: no_modifiers(), battery: 0 };
    let frame = render(&cache, &state, 1);
    let labels: Vec<&DrawCommand> = frame
        .iter()
        .filter(|c| matches!(c, DrawCommand::Label { .. }))
        .collect();
    assert_eq!(labels.len(), 1);
    assert_eq!(
        *labels[0],
        DrawCommand::Label { index: 0, x: 26, y: 15, font: FontSize::Primary }
    );
}

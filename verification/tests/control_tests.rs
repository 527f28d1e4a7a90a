use status_display::controller::DisplayController;
use status_display::lifecycle::{DisplayLifecycle, HardwareOutcome};
use status_display::render::DrawCommand;
use status_display::state::{ControllerEvent, ModifierMask, StatusState};

fn layer_names() -> Vec<String> {
    ["BASE", "NAV", "SYM", "NUM", "ACC", "COM", "GAME", "GAME"]
        .iter()
        .map(|s| s.to_string())
        .collect()
}

fn controller() -> DisplayController<u32> {
    DisplayController::new(128, 32, layer_names())
}

#[test]
fn controller_starts_dark_on_first_layer() {
    let c = controller();
    assert_eq!(c.status, StatusState::initial());
    assert_eq!(c.status.layer, 0);
    assert_eq!(c.status.battery, 0);
    assert_eq!(c.status.modifiers, ModifierMask::all_clear());
    assert!(!c.lifecycle.ready());
    assert_eq!(c.num_layers(), 8);
    assert_eq!(c.layer_name(0).as_str(), "BASE");
    assert_eq!(c.layer_name(7).as_str(), "GAME");
}

#[test]
fn events_overwrite_their_own_field() {
    let mut c = controller();
    c.process_event(ControllerEvent::Layer(3));
    assert_eq!(c.status.layer, 3);
    assert_eq!(c.status.battery, 0);
    c.process_event(ControllerEvent::Battery(88));
    assert_eq!(c.status.layer, 3);
    assert_eq!(c.status.battery, 88);
    let mut m = ModifierMask::all_clear();
    m.left_shift = true;
    c.process_event(ControllerEvent::Modifier(m));
    assert_eq!(c.status.modifiers, m);
    c.process_event(ControllerEvent::Ignored);
    assert_eq!(c.status.layer, 3);
    assert_eq!(c.status.battery, 88);
    assert_eq!(c.status.modifiers, m);
}

#[test]
fn modifier_events_replace_the_whole_mask() {
    let mut c = controller();
    let mut first = ModifierMask::all_clear();
    first.left_ctrl = true;
    c.process_event(ControllerEvent::Modifier(first));
    let mut second = ModifierMask::all_clear();
    second.right_alt = true;
    c.process_event(ControllerEvent::Modifier(second));
    // Replaced wholesale, not merged.
    assert!(!c.status.modifiers.left_ctrl);
    assert!(c.status.modifiers.right_alt);
}

#[test]
fn drain_applies_in_order_last_wins() {
    let mut c = controller();
    let events = vec![
        ControllerEvent::Layer(1),
        ControllerEvent::Battery(10),
        ControllerEvent::Layer(5),
        ControllerEvent::Ignored,
        ControllerEvent::Battery(60),
    ];
    c.drain(&events);
    assert_eq!(c.status.layer, 5);
    assert_eq!(c.status.battery, 60);
}

#[test]
fn backpressure_skips_redraw_at_depth_two() {
    let mut c = controller();
    assert!(c.should_redraw(0));
    assert!(c.should_redraw(1));
    assert!(!c.should_redraw(2));
    assert!(!c.should_redraw(3));
    // Even a tick that changed the snapshot yields no redraw while the
    // queue is backed up.
    let events = vec![ControllerEvent::Layer(2), ControllerEvent::Battery(40)];
    let redraw = c.tick(&events, 2);
    assert!(!redraw);
    assert_eq!(c.status.layer, 2);
    let redraw = c.tick(&vec![], 1);
    assert!(redraw);
}

#[test]
fn render_frame_follows_the_snapshot() {
    let mut c = controller();
    c.process_event(ControllerEvent::Battery(100));
    let frame = c.render_frame();
    assert!(frame.contains(&DrawCommand::Fill { x0: 124, y0: 0, x1: 126, y1: 31 }));
    assert_eq!(frame.first(), Some(&DrawCommand::Clear));
    assert_eq!(frame.last(), Some(&DrawCommand::Flush));
}

#[test]
fn successful_bring_up_reaches_ready() {
    let mut lc: DisplayLifecycle<u32> = DisplayLifecycle::new();
    assert!(!lc.ready());
    let handle = lc.begin_tick();
    assert_eq!(handle, None);
    lc.complete(HardwareOutcome::Success(7));
    assert!(lc.ready());
    // The stored handle is the one the bring-up produced.
    let handle = lc.begin_tick();
    assert_eq!(handle, Some(7));
    lc.complete(HardwareOutcome::Success(7));
    assert!(lc.ready());
}

#[test]
fn failed_bring_up_stays_uninitialized() {
    let mut lc: DisplayLifecycle<u32> = DisplayLifecycle::new();
    let handle = lc.begin_tick();
    assert_eq!(handle, None);
    lc.complete(HardwareOutcome::Timeout);
    assert!(!lc.ready());
    lc.begin_tick();
    lc.complete(HardwareOutcome::TransportError);
    assert!(!lc.ready());
}

#[test]
fn ready_draw_timeout_discards_handle() {
    // A redraw that times out drops the handle: the state falls back to
    // Uninitialized and the next tick attempts bring-up again.
    let mut lc: DisplayLifecycle<u32> = DisplayLifecycle::new();
    lc.begin_tick();
    lc.complete(HardwareOutcome::Success(42));
    assert!(lc.ready());
    let handle = lc.begin_tick();
    assert_eq!(handle, Some(42));
    lc.complete(HardwareOutcome::Timeout);
    assert!(!lc.ready());
    assert_eq!(lc.begin_tick(), None);
}

#[test]
fn ready_transport_error_discards_handle() {
    let mut lc: DisplayLifecycle<u32> = DisplayLifecycle::new();
    lc.begin_tick();
    lc.complete(HardwareOutcome::Success(9));
    lc.begin_tick();
    lc.complete(HardwareOutcome::TransportError);
    assert!(!lc.ready());
}

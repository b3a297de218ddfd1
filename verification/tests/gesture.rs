use fourdeers::gesture::{DragStep, PointerTracker};
use fourdeers::input::DragView;

type Tracker = PointerTracker<(f32, f32), f64>;

fn fresh() -> Tracker {
    PointerTracker::new()
}

#[test]
fn new_tracker_is_idle() {
    let t = fresh();
    assert!(t.down.is_none());
    assert!(!t.drag_mode);
    assert!(t.drag_view.is_none());
    assert!(t.last_drag.is_none());
    assert!(t.last_tap.is_none());
}

#[test]
fn quick_press_and_release_is_a_tap() {
    let mut t = fresh();
    t.press((5.0, 5.0), 1.0);
    assert_eq!(t.down, Some(((5.0, 5.0), 1.0)));
    assert!(t.release(1.1, true, false, false));
    assert!(t.down.is_none());
    assert_eq!(t.last_tap, Some(1.1));
}

#[test]
fn release_outside_tap_limits_is_no_tap() {
    let mut t = fresh();
    t.press((5.0, 5.0), 1.0);
    assert!(!t.release(2.0, false, false, false));
    assert!(t.down.is_none());
    assert!(t.last_tap.is_none());
}

#[test]
fn release_claimed_by_ui_is_no_tap() {
    let mut t = fresh();
    t.press((5.0, 5.0), 1.0);
    assert!(!t.release(1.1, true, true, false));
    assert!(t.last_tap.is_none());
}

#[test]
fn release_without_press_is_no_tap() {
    let mut t = fresh();
    assert!(!t.release(1.0, true, false, false));
    assert!(t.last_tap.is_none());
}

#[test]
fn second_tap_within_suppression_window_is_dropped() {
    let mut t = fresh();
    t.press((1.0, 1.0), 1.0);
    assert!(t.release(1.05, true, false, false));
    t.press((1.0, 1.0), 1.1);
    assert!(!t.release(1.15, true, false, true));
    assert_eq!(t.last_tap, Some(1.05));
    t.press((1.0, 1.0), 2.0);
    assert!(t.release(2.05, true, false, false));
    assert_eq!(t.last_tap, Some(2.05));
}

#[test]
fn held_pointer_past_threshold_starts_a_drag() {
    let mut t = fresh();
    t.press((10.0, 10.0), 0.0);
    match t.track(true, Some((30.0, 10.0)), true, Some(true)) {
        DragStep::Drag { started, from } => {
            assert_eq!(started, Some(DragView::Left));
            assert_eq!(from, Some((30.0, 10.0)));
        }
        _ => panic!("expected a drag"),
    }
    assert!(t.drag_mode);
    assert_eq!(t.drag_view, Some(DragView::Left));
    match t.track(true, Some((40.0, 12.0)), true, Some(true)) {
        DragStep::Drag { started, from } => {
            assert_eq!(started, None);
            assert_eq!(from, Some((30.0, 10.0)));
        }
        _ => panic!("expected a drag"),
    }
    assert_eq!(t.last_drag, Some((40.0, 12.0)));
}

#[test]
fn drag_started_right_of_center() {
    let mut t = fresh();
    t.press((500.0, 10.0), 0.0);
    match t.track(true, Some((530.0, 10.0)), true, Some(false)) {
        DragStep::Drag { started, .. } => assert_eq!(started, Some(DragView::Right)),
        _ => panic!("expected a drag"),
    }
}

#[test]
fn drag_without_known_view_area_has_no_view() {
    let mut t = fresh();
    t.press((500.0, 10.0), 0.0);
    match t.track(true, Some((530.0, 10.0)), true, None) {
        DragStep::Drag { started, from } => {
            assert_eq!(started, None);
            assert_eq!(from, Some((530.0, 10.0)));
        }
        _ => panic!("expected a drag"),
    }
    assert!(t.drag_mode);
    assert!(t.drag_view.is_none());
}

#[test]
fn held_pointer_within_threshold_is_a_hold() {
    let mut t = fresh();
    t.press((10.0, 10.0), 0.0);
    assert!(matches!(t.track(true, Some((12.0, 10.0)), false, Some(true)), DragStep::Hold));
    assert!(!t.drag_mode);
}

#[test]
fn drag_persists_after_coming_back_within_threshold() {
    let mut t = fresh();
    t.press((10.0, 10.0), 0.0);
    t.track(true, Some((40.0, 10.0)), true, Some(true));
    assert!(matches!(t.track(true, Some((11.0, 10.0)), false, Some(true)), DragStep::Drag { .. }));
}

#[test]
fn letting_go_clears_the_drag() {
    let mut t = fresh();
    t.press((10.0, 10.0), 0.0);
    t.track(true, Some((40.0, 10.0)), true, Some(false));
    assert!(matches!(t.track(false, Some((40.0, 10.0)), true, Some(false)), DragStep::Cleared));
    assert!(!t.drag_mode);
    assert!(t.drag_view.is_none());
    assert!(t.last_drag.is_none());
    assert!(t.down.is_some());
}

#[test]
fn held_without_press_or_position_is_idle() {
    let mut t = fresh();
    assert!(matches!(t.track(true, Some((1.0, 1.0)), true, Some(true)), DragStep::Idle));
    t.press((1.0, 1.0), 0.0);
    assert!(matches!(t.track(true, None, true, Some(true)), DragStep::Idle));
    assert!(!t.drag_mode);
}

use fourdeers::camera::Direction4D;
use fourdeers::input::camera_controls::{CameraControls, DragAdjustment};
use fourdeers::input::overlay::{ControlOverlay, ControlOverlayBuilder, ZoneBindings};
use fourdeers::input::zones::{zone_4way, zone_9way};
use fourdeers::input::{
    is_menu_tap, zone_to_movement_action, DragState, DragView, MovementKey, TetraId, Zone, ZoneMode,
};
use fourdeers::tap;

#[test]
fn test_is_cardinal() {
    assert!(Zone::North.is_cardinal());
    assert!(Zone::East.is_cardinal());
    assert!(Zone::South.is_cardinal());
    assert!(Zone::West.is_cardinal());
    assert!(!Zone::NorthWest.is_cardinal());
    assert!(!Zone::NorthEast.is_cardinal());
    assert!(!Zone::Center.is_cardinal());
    assert!(!Zone::SouthWest.is_cardinal());
    assert!(!Zone::SouthEast.is_cardinal());
}

#[test]
fn test_zone_mode_default() {
    assert_eq!(ZoneMode::default(), ZoneMode::FourZones);
}

#[test]
fn test_zone_to_movement_action_cardinal() {
    assert_eq!(zone_to_movement_action(Zone::North), Some(Direction4D::Up));
    assert_eq!(zone_to_movement_action(Zone::South), Some(Direction4D::Down));
    assert_eq!(zone_to_movement_action(Zone::West), Some(Direction4D::Left));
    assert_eq!(zone_to_movement_action(Zone::East), Some(Direction4D::Right));
}

#[test]
fn test_zone_to_movement_action_diagonal() {
    assert_eq!(zone_to_movement_action(Zone::NorthEast), Some(Direction4D::Forward));
    assert_eq!(zone_to_movement_action(Zone::SouthWest), Some(Direction4D::Backward));
    assert_eq!(zone_to_movement_action(Zone::NorthWest), Some(Direction4D::Kata));
    assert_eq!(zone_to_movement_action(Zone::SouthEast), Some(Direction4D::Ana));
}

#[test]
fn test_zone_to_movement_action_none() {
    assert_eq!(zone_to_movement_action(Zone::Center), None);
}

#[test]
fn test_zone_display() {
    assert_eq!(Zone::North.to_string(), "North");
    assert_eq!(Zone::SouthEast.to_string(), "SouthEast");
    assert_eq!(Zone::Center.to_string(), "Center");
}

#[test]
fn test_zone_to_action_left_view() {
    assert_eq!(tap::zone_to_action(tap::Zone::North, true), tap::CameraAction::MoveUp);
    assert_eq!(tap::zone_to_action(tap::Zone::South, true), tap::CameraAction::MoveDown);
    assert_eq!(tap::zone_to_action(tap::Zone::West, true), tap::CameraAction::StrafeLeft);
    assert_eq!(tap::zone_to_action(tap::Zone::East, true), tap::CameraAction::StrafeRight);
}

#[test]
fn test_zone_to_action_right_view() {
    assert_eq!(tap::zone_to_action(tap::Zone::North, false), tap::CameraAction::MoveSliceForward);
    assert_eq!(tap::zone_to_action(tap::Zone::South, false), tap::CameraAction::MoveSliceBackward);
    assert_eq!(
        tap::zone_to_action(tap::Zone::West, false),
        tap::CameraAction::MoveSliceOrthogonalNeg
    );
    assert_eq!(
        tap::zone_to_action(tap::Zone::East, false),
        tap::CameraAction::MoveSliceOrthogonalPos
    );
}

#[test]
fn zone_from_diagonals_sides() {
    assert_eq!(tap::zone_from_diagonals(true, true), tap::Zone::North);
    assert_eq!(tap::zone_from_diagonals(false, false), tap::Zone::South);
    assert_eq!(tap::zone_from_diagonals(true, false), tap::Zone::West);
    assert_eq!(tap::zone_from_diagonals(false, true), tap::Zone::East);
    assert_eq!(zone_4way(true, true), Zone::North);
    assert_eq!(zone_4way(false, false), Zone::South);
    assert_eq!(zone_4way(true, false), Zone::West);
    assert_eq!(zone_4way(false, true), Zone::East);
}

#[test]
fn zone_grid_matches_all_order() {
    let all = Zone::all();
    for row in 0..3 {
        for col in 0..3 {
            let z = zone_9way(row, col);
            assert_eq!(all[3 * row + col], z);
            assert_eq!(z.grid_cell(), (row, col));
        }
    }
    assert_eq!(zone_9way(0, 1), Zone::North);
    assert_eq!(zone_9way(1, 1), Zone::Center);
    assert_eq!(zone_9way(2, 2), Zone::SouthEast);
}

#[test]
fn cardinals_are_the_cardinal_zones() {
    assert_eq!(Zone::cardinals(), [Zone::North, Zone::East, Zone::South, Zone::West]);
    let cardinal_count = Zone::all().iter().filter(|z| z.is_cardinal()).count();
    assert_eq!(cardinal_count, 4);
    for z in Zone::cardinals() {
        assert!(z.is_cardinal());
    }
}

#[test]
fn movement_keys_map_to_distinct_directions() {
    assert_eq!(MovementKey::ArrowUp.direction(), Direction4D::Up);
    assert_eq!(MovementKey::ArrowDown.direction(), Direction4D::Down);
    assert_eq!(MovementKey::ArrowLeft.direction(), Direction4D::Left);
    assert_eq!(MovementKey::ArrowRight.direction(), Direction4D::Right);
    assert_eq!(MovementKey::PageUp.direction(), Direction4D::Forward);
    assert_eq!(MovementKey::PageDown.direction(), Direction4D::Backward);
    assert_eq!(MovementKey::Period.direction(), Direction4D::Kata);
    assert_eq!(MovementKey::Comma.direction(), Direction4D::Ana);
    let keys = MovementKey::all();
    for i in 0..keys.len() {
        for j in 0..keys.len() {
            assert_eq!(i == j, keys[i].direction() == keys[j].direction());
        }
    }
}

#[test]
fn drag_state_clear() {
    let mut s = DragState::new();
    assert_eq!(s.drag_view, None);
    s.drag_view = Some(DragView::Right);
    s.clear();
    assert_eq!(s.drag_view, None);
    assert_eq!(DragState::default().drag_view, None);
}

#[test]
fn tetra_id_equality() {
    let a = TetraId { is_left_view: true, zone: Zone::North };
    let b = TetraId { is_left_view: false, zone: Zone::North };
    assert_ne!(a, b);
    assert_eq!(a, TetraId { is_left_view: true, zone: Zone::North });
}

#[test]
fn menu_tap_is_left_north_west_only() {
    assert!(is_menu_tap(true, Some(Zone::NorthWest)));
    assert!(!is_menu_tap(false, Some(Zone::NorthWest)));
    assert!(!is_menu_tap(true, Some(Zone::North)));
    assert!(!is_menu_tap(true, None));
}

#[test]
fn zone_bindings_trigger_bound_action() {
    let b: ZoneBindings<u32> = ZoneBindings::new();
    assert!(!b.has_binding(Zone::North));
    assert_eq!(b.trigger(Zone::North), None);
    let b = b.north(1).east(2).center(3).zone(Zone::SouthWest, 4);
    assert!(b.has_binding(Zone::North));
    assert!(b.has_binding(Zone::SouthWest));
    assert!(!b.has_binding(Zone::South));
    assert_eq!(b.trigger(Zone::North), Some(&1));
    assert_eq!(b.trigger(Zone::East), Some(&2));
    assert_eq!(b.trigger(Zone::Center), Some(&3));
    assert_eq!(b.trigger(Zone::SouthWest), Some(&4));
    assert_eq!(b.trigger(Zone::West), None);
    let b = b.north(10);
    assert_eq!(b.trigger(Zone::North), Some(&10));
    assert_eq!(b.trigger(Zone::East), Some(&2));
}

#[test]
fn zone_bindings_each_named_binder() {
    let b: ZoneBindings<&str> = ZoneBindings::default()
        .north("n")
        .east("e")
        .south("s")
        .west("w")
        .north_west("nw")
        .north_east("ne")
        .center("c")
        .south_west("sw")
        .south_east("se");
    for (z, name) in Zone::all().iter().zip(["nw", "n", "ne", "w", "c", "e", "sw", "s", "se"]) {
        assert_eq!(b.trigger(*z), Some(&name));
    }
}

#[test]
fn control_overlay_routes_by_view_half() {
    let overlay: ControlOverlay<u8, &str> = ControlOverlay::new()
        .zone_mode(ZoneMode::NineZones)
        .left_bindings(ZoneBindings::new().north(1))
        .right_bindings(ZoneBindings::new().north(2).south(3))
        .right_drag("rotate");
    assert_eq!(overlay.get_zone_mode(), ZoneMode::NineZones);
    assert_eq!(overlay.trigger(true, Zone::North), Some(&1));
    assert_eq!(overlay.trigger(false, Zone::North), Some(&2));
    assert_eq!(overlay.trigger(true, Zone::South), None);
    assert_eq!(overlay.trigger(false, Zone::South), Some(&3));
    assert_eq!(overlay.handle_drag(true), None);
    assert_eq!(overlay.handle_drag(false), Some(&"rotate"));
}

#[test]
fn control_overlay_builder_builds_bindings() {
    let overlay: ControlOverlay<u8, u8> = ControlOverlayBuilder::new()
        .zone_mode(ZoneMode::FourZones)
        .left_zone(Zone::West, 7)
        .right_zone(Zone::East, 8)
        .left_drag(1)
        .build();
    assert_eq!(overlay.trigger(true, Zone::West), Some(&7));
    assert_eq!(overlay.trigger(false, Zone::West), None);
    assert_eq!(overlay.trigger(false, Zone::East), Some(&8));
    assert_eq!(overlay.handle_drag(true), Some(&1));
    assert_eq!(overlay.handle_drag(false), None);
    let default_overlay: ControlOverlay<u8, u8> = ControlOverlay::default();
    assert_eq!(default_overlay.get_zone_mode(), ZoneMode::FourZones);
    let empty: ControlOverlay<u8, u8> = ControlOverlayBuilder::default().build();
    assert_eq!(empty.trigger(true, Zone::Center), None);
}

#[test]
fn control_overlay_bindings_mut_replaces_half() {
    let mut overlay: ControlOverlay<u8, u8> = ControlOverlay::new();
    *overlay.left_bindings_mut() = ZoneBindings::new().center(5);
    *overlay.right_bindings_mut() = ZoneBindings::new().north(6);
    assert_eq!(overlay.trigger(true, Zone::Center), Some(&5));
    assert_eq!(overlay.trigger(false, Zone::North), Some(&6));
    assert_eq!(overlay.trigger(false, Zone::Center), None);
}

#[test]
fn camera_controls_toggle_and_zone_movement() {
    let mut c = CameraControls::default();
    assert!(c.rotation_3d);
    c.toggle_rotation_mode();
    assert!(!c.rotation_3d);
    c.toggle_rotation_mode();
    assert!(c.rotation_3d);
    assert!(!CameraControls::new(false).rotation_3d);
    assert_eq!(CameraControls::handle_zone_movement(false, Some(Zone::North)), Some(Direction4D::Up));
    assert_eq!(CameraControls::handle_zone_movement(true, Some(Zone::North)), None);
    assert_eq!(CameraControls::handle_zone_movement(false, Some(Zone::Center)), None);
    assert_eq!(CameraControls::handle_zone_movement(false, None), None);
}

#[test]
fn drags_adjust_by_view_half_and_rotation_mode() {
    let mut c = CameraControls::new(true);
    assert_eq!(c.handle_drag(Some(DragView::Left)), Some(DragAdjustment::SliceSettings));
    assert_eq!(c.handle_drag(Some(DragView::Right)), Some(DragAdjustment::Rotate3D));
    assert_eq!(c.handle_drag(None), None);
    c.toggle_rotation_mode();
    assert_eq!(c.handle_drag(Some(DragView::Right)), Some(DragAdjustment::Rotate4D));
    assert_eq!(c.handle_drag(Some(DragView::Left)), Some(DragAdjustment::SliceSettings));
}

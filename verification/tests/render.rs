use fourdeers::input::Zone;
use fourdeers::map::{map_pointer_effect, MapPointerEffect};
use fourdeers::camera::Direction4D;
use fourdeers::render::tesseract::{compute_zone_layout, zone_label_text, zone_to_direction_label};
use fourdeers::input::zone_to_movement_action;
use fourdeers::render::tetra::{compass_vertex_label, tetra_vertex_label};
use fourdeers::render::{pack_rgb, unpack_rgb, CompassFrameMode, ProjectionMode, TetraLabelMode};

#[test]
fn render_test_compass_frame_mode_display_label() {
    assert_eq!(CompassFrameMode::World.display_label(), "Frame: World");
    assert_eq!(CompassFrameMode::Camera.display_label(), "Frame: Camera");
}

#[test]
fn render_test_compass_frame_mode_other() {
    assert_eq!(CompassFrameMode::World.other(), CompassFrameMode::Camera);
    assert_eq!(CompassFrameMode::Camera.other(), CompassFrameMode::World);
}

#[test]
fn style_test_compass_frame_mode_display_label() {
    assert_eq!(CompassFrameMode::World.display_label(), "Frame: World");
    assert_eq!(CompassFrameMode::Camera.display_label(), "Frame: Camera");
}

#[test]
fn style_test_compass_frame_mode_other() {
    assert_eq!(CompassFrameMode::World.other(), CompassFrameMode::Camera);
    assert_eq!(CompassFrameMode::Camera.other(), CompassFrameMode::World);
}

#[test]
fn frame_mode_toggle_twice_restores() {
    for m in [CompassFrameMode::World, CompassFrameMode::Camera] {
        assert_eq!(m.other().other(), m);
    }
    assert_eq!(CompassFrameMode::default(), CompassFrameMode::World);
    assert_eq!(ProjectionMode::default(), ProjectionMode::Perspective);
    assert_ne!(TetraLabelMode::Compass(CompassFrameMode::World), TetraLabelMode::Raw);
}

#[test]
fn packed_colors_round_trip() {
    assert_eq!(pack_rgb(0x12, 0x34, 0x56), 0x0012_3456);
    assert_eq!(pack_rgb(255, 115, 0), 0x00FF_7300);
    assert_eq!(unpack_rgb(0x00FF_7300), (255, 115, 0));
    assert_eq!(unpack_rgb(0xAB12_3456), (0x12, 0x34, 0x56));
    for (r, g, b) in [(0, 0, 0), (255, 255, 255), (1, 2, 3), (128, 0, 255)] {
        assert_eq!(unpack_rgb(pack_rgb(r, g, b)), (r, g, b));
    }
}

#[test]
fn zone_labels() {
    assert_eq!(zone_to_direction_label(Zone::North), "U");
    assert_eq!(zone_to_direction_label(Zone::NorthWest), "K");
    assert_eq!(zone_to_direction_label(Zone::SouthEast), "A");
    assert_eq!(zone_to_direction_label(Zone::Center), "");
    assert_eq!(zone_label_text(Zone::North), ("\u{2191}", "Up"));
    assert_eq!(zone_label_text(Zone::NorthEast), ("\u{2197}", "Fwd"));
    assert_eq!(zone_label_text(Zone::SouthWest), ("\u{2199}", "Back"));
    assert_eq!(zone_label_text(Zone::Center), ("", ""));
}

#[test]
fn compass_labels_by_frame() {
    assert_eq!(compass_vertex_label(CompassFrameMode::World, 0, true, "X"), "X");
    assert_eq!(compass_vertex_label(CompassFrameMode::Camera, 0, true, "X"), "R");
    assert_eq!(compass_vertex_label(CompassFrameMode::Camera, 0, false, "X"), "L");
    assert_eq!(compass_vertex_label(CompassFrameMode::Camera, 1, false, "Y"), "D");
    assert_eq!(compass_vertex_label(CompassFrameMode::Camera, 2, true, "Z"), "F");
    assert_eq!(compass_vertex_label(CompassFrameMode::Camera, 3, false, "W"), "A");
    assert_eq!(compass_vertex_label(CompassFrameMode::Camera, 4, true, "?"), "?");
}

#[test]
fn map_pointer_effects() {
    assert_eq!(map_pointer_effect(false, true, Some(Zone::South), Some(2)), MapPointerEffect::SelectWaypoint(2));
    assert_eq!(map_pointer_effect(true, true, Some(Zone::South), Some(2)), MapPointerEffect::Nothing);
    assert_eq!(map_pointer_effect(false, true, Some(Zone::South), None), MapPointerEffect::ToggleFrameMode);
    assert_eq!(map_pointer_effect(false, true, Some(Zone::North), None), MapPointerEffect::ToggleLabels);
    assert_eq!(map_pointer_effect(false, true, Some(Zone::SouthEast), None), MapPointerEffect::ResetToFit);
    assert_eq!(map_pointer_effect(false, true, Some(Zone::East), None), MapPointerEffect::Nothing);
    assert_eq!(map_pointer_effect(false, false, Some(Zone::Center), None), MapPointerEffect::ToggleRotationMode);
    assert_eq!(map_pointer_effect(true, false, Some(Zone::Center), None), MapPointerEffect::Nothing);
    assert_eq!(map_pointer_effect(true, false, Some(Zone::North), Some(1)), MapPointerEffect::Move(Direction4D::Up));
    assert_eq!(map_pointer_effect(false, false, Some(Zone::NorthEast), None), MapPointerEffect::Move(Direction4D::Forward));
    assert_eq!(map_pointer_effect(false, false, None, None), MapPointerEffect::Nothing);
}

#[test]
fn vertex_labels_follow_label_mode() {
    assert_eq!(tetra_vertex_label(TetraLabelMode::Hidden, 0, true, "X"), None);
    assert_eq!(tetra_vertex_label(TetraLabelMode::Raw, 2, false, "Z"), Some("Z"));
    assert_eq!(tetra_vertex_label(TetraLabelMode::Compass(CompassFrameMode::World), 3, false, "W"), Some("W"));
    assert_eq!(tetra_vertex_label(TetraLabelMode::Compass(CompassFrameMode::Camera), 3, false, "W"), Some("A"));
    assert_eq!(tetra_vertex_label(TetraLabelMode::Compass(CompassFrameMode::Camera), 2, true, "Z"), Some("F"));
}

#[test]
fn zone_layout_order_and_basis_vectors() {
    let layout = compute_zone_layout();
    let zones: Vec<Zone> = layout.iter().map(|e| e.0).collect();
    assert_eq!(
        zones,
        vec![
            Zone::North,
            Zone::South,
            Zone::West,
            Zone::East,
            Zone::NorthEast,
            Zone::SouthWest,
            Zone::NorthWest,
            Zone::SouthEast
        ]
    );
    assert_eq!((layout[2].1.axis, layout[2].1.positive), (0, false));
    assert_eq!((layout[6].1.axis, layout[6].1.positive), (3, true));
    for (zone, axis) in layout {
        let direction = zone_to_movement_action(zone).expect("layout zones move the camera");
        assert_eq!(direction.basis_axis(), axis);
    }
}

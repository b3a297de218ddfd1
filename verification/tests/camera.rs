use fourdeers::camera::{CameraAction, CameraMovement, Direction4D, SignedAxis, SliceDirection};

#[test]
fn test_camera_action_display() {
    assert_eq!(CameraAction::MoveForward.to_string(), "MoveForward");
    assert_eq!(CameraAction::MoveUp.to_string(), "MoveUp");
    assert_eq!(CameraAction::MoveKata.to_string(), "MoveKata");
}

#[test]
fn direction_display_names() {
    assert_eq!(Direction4D::Forward.to_string(), "Forward");
    assert_eq!(Direction4D::Kata.to_string(), "Kata");
    assert_eq!(Direction4D::Ana.to_string(), "Ana");
}

#[test]
fn direction_basis_axes() {
    assert_eq!(Direction4D::Forward.basis_axis(), SignedAxis { axis: 2, positive: true });
    assert_eq!(Direction4D::Backward.basis_axis(), SignedAxis { axis: 2, positive: false });
    assert_eq!(Direction4D::Left.basis_axis(), SignedAxis { axis: 0, positive: false });
    assert_eq!(Direction4D::Right.basis_axis(), SignedAxis { axis: 0, positive: true });
    assert_eq!(Direction4D::Up.basis_axis(), SignedAxis { axis: 1, positive: true });
    assert_eq!(Direction4D::Down.basis_axis(), SignedAxis { axis: 1, positive: false });
    assert_eq!(Direction4D::Kata.basis_axis(), SignedAxis { axis: 3, positive: true });
    assert_eq!(Direction4D::Ana.basis_axis(), SignedAxis { axis: 3, positive: false });
}

#[test]
fn directions_cover_each_signed_axis_once() {
    let all = [
        Direction4D::Forward,
        Direction4D::Backward,
        Direction4D::Left,
        Direction4D::Right,
        Direction4D::Up,
        Direction4D::Down,
        Direction4D::Kata,
        Direction4D::Ana,
    ];
    for (i, a) in all.iter().enumerate() {
        for (j, b) in all.iter().enumerate() {
            assert_eq!(i == j, a.basis_axis() == b.basis_axis());
        }
    }
}

#[test]
fn slice_direction_axes_match_directions() {
    assert_eq!(SliceDirection::WPositive.basis_axis(), Direction4D::Kata.basis_axis());
    assert_eq!(SliceDirection::WNegative.basis_axis(), Direction4D::Ana.basis_axis());
    assert_eq!(SliceDirection::Left.basis_axis(), Direction4D::Left.basis_axis());
    assert_eq!(SliceDirection::Up.basis_axis(), SignedAxis { axis: 1, positive: true });
}

#[test]
fn camera_action_movements() {
    assert_eq!(
        CameraAction::MoveForward.movement(),
        CameraMovement::View { axis: SignedAxis { axis: 2, positive: true } }
    );
    assert_eq!(
        CameraAction::MoveLeft.movement(),
        CameraMovement::View { axis: SignedAxis { axis: 0, positive: false } }
    );
    assert_eq!(CameraAction::DecreaseW.movement(), CameraMovement::WorldW { positive: false });
    assert_eq!(CameraAction::MoveKata.movement(), CameraMovement::SliceW { positive: true });
    assert_eq!(CameraAction::MoveAna.movement(), CameraMovement::SliceW { positive: false });
    assert_eq!(CameraAction::MoveSliceBackward.movement(), CameraAction::MoveBackward.movement());
}

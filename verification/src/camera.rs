//! Discrete camera vocabulary: movement directions, slice directions and camera actions,
//! and how each of them selects an axis of the camera's 4D frame.
use vstd::prelude::*;

verus! {

/// Index of the camera frame's right axis (the first basis vector).
pub const AXIS_RIGHT: usize = 0;

/// Index of the camera frame's up axis (the second basis vector).
pub const AXIS_UP: usize = 1;

/// Index of the camera frame's forward axis (the third basis vector).
pub const AXIS_FORWARD: usize = 2;

/// Index of the slice's w axis (the fourth basis vector).
pub const AXIS_W: usize = 3;

/// An axis of a 4D frame (0 = right/x, 1 = up/y, 2 = forward/z, 3 = w) and the sign
/// with which it is followed.
#[derive(Debug, Clone, Copy, PartialEq, Eq, Structural)]
pub struct SignedAxis {
    pub axis: usize,
    pub positive: bool,
}

/// Movement directions in the camera's 4D frame.
#[derive(Debug, Clone, Copy, PartialEq, Eq, Structural)]
pub enum Direction4D {
    Forward,
    Backward,
    Left,
    Right,
    Up,
    Down,
    Kata,
    Ana,
}

/// The signed frame axis that a direction follows: forward/backward along the third basis
/// vector, left/right along the first, up/down along the second, kata/ana along w.
pub open spec fn direction_axis(d: Direction4D) -> SignedAxis {
    match d {
        Direction4D::Forward => SignedAxis { axis: 2, positive: true },
        Direction4D::Backward => SignedAxis { axis: 2, positive: false },
        Direction4D::Left => SignedAxis { axis: 0, positive: false },
        Direction4D::Right => SignedAxis { axis: 0, positive: true },
        Direction4D::Up => SignedAxis { axis: 1, positive: true },
        Direction4D::Down => SignedAxis { axis: 1, positive: false },
        Direction4D::Kata => SignedAxis { axis: 3, positive: true },
        Direction4D::Ana => SignedAxis { axis: 3, positive: false },
    }
}

/// The name under which a direction is displayed.
pub open spec fn direction_name(d: Direction4D) -> Seq<char> {
    match d {
        Direction4D::Forward => "Forward"@,
        Direction4D::Backward => "Backward"@,
        Direction4D::Left => "Left"@,
        Direction4D::Right => "Right"@,
        Direction4D::Up => "Up"@,
        Direction4D::Down => "Down"@,
        Direction4D::Kata => "Kata"@,
        Direction4D::Ana => "Ana"@,
    }
}

impl Direction4D {
    /// The signed basis vector of the camera frame that this direction moves along.
    pub fn basis_axis(self) -> (r: SignedAxis)
        ensures
            r == direction_axis(self),
            r.axis < 4,
    {
        match self {
            Direction4D::Forward => SignedAxis { axis: AXIS_FORWARD, positive: true },
            Direction4D::Backward => SignedAxis { axis: AXIS_FORWARD, positive: false },
            Direction4D::Left => SignedAxis { axis: AXIS_RIGHT, positive: false },
            Direction4D::Right => SignedAxis { axis: AXIS_RIGHT, positive: true },
            Direction4D::Up => SignedAxis { axis: AXIS_UP, positive: true },
            Direction4D::Down => SignedAxis { axis: AXIS_UP, positive: false },
            Direction4D::Kata => SignedAxis { axis: AXIS_W, positive: true },
            Direction4D::Ana => SignedAxis { axis: AXIS_W, positive: false },
        }
    }

    /// The display name of the direction.
    pub fn to_string(&self) -> (r: String)
        ensures
            r@ == direction_name(*self),
    {
        match self {
            Direction4D::Forward => "Forward".to_owned(),
            Direction4D::Backward => "Backward".to_owned(),
            Direction4D::Left => "Left".to_owned(),
            Direction4D::Right => "Right".to_owned(),
            Direction4D::Up => "Up".to_owned(),
            Direction4D::Down => "Down".to_owned(),
            Direction4D::Kata => "Kata".to_owned(),
            Direction4D::Ana => "Ana".to_owned(),
        }
    }
}

/// Every direction follows a different signed axis, and every signed axis of the 4D frame
/// is followed by some direction: the eight directions are exactly the two senses of the
/// four frame axes.
pub proof fn law_directions_are_signed_axes(d1: Direction4D, d2: Direction4D, a: SignedAxis)
    ensures
        direction_axis(d1) == direction_axis(d2) ==> d1 == d2,
        a.axis < 4 ==> exists|d: Direction4D| direction_axis(d) == a,
{
    if a.axis < 4 {
        if a.axis == 0 {
            if a.positive {
                assert(direction_axis(Direction4D::Right) == a);
            } else {
                assert(direction_axis(Direction4D::Left) == a);
            }
        } else if a.axis == 1 {
            if a.positive {
                assert(direction_axis(Direction4D::Up) == a);
            } else {
                assert(direction_axis(Direction4D::Down) == a);
            }
        } else if a.axis == 2 {
            if a.positive {
                assert(direction_axis(Direction4D::Forward) == a);
            } else {
                assert(direction_axis(Direction4D::Backward) == a);
            }
        } else {
            if a.positive {
                assert(direction_axis(Direction4D::Kata) == a);
            } else {
                assert(direction_axis(Direction4D::Ana) == a);
            }
        }
    }
}

/// Directions in which a 4D label for the current slice can be requested.
#[derive(Debug, Clone, Copy, PartialEq, Eq, Structural)]
pub enum SliceDirection {
    Forward,
    Backward,
    Left,
    Right,
    Up,
    Down,
    WPositive,
    WNegative,
}

/// The signed slice basis vector that a slice direction names.
pub open spec fn slice_direction_axis(d: SliceDirection) -> SignedAxis {
    match d {
        SliceDirection::Forward => SignedAxis { axis: 2, positive: true },
        SliceDirection::Backward => SignedAxis { axis: 2, positive: false },
        SliceDirection::Left => SignedAxis { axis: 0, positive: false },
        SliceDirection::Right => SignedAxis { axis: 0, positive: true },
        SliceDirection::Up => SignedAxis { axis: 1, positive: true },
        SliceDirection::Down => SignedAxis { axis: 1, positive: false },
        SliceDirection::WPositive => SignedAxis { axis: 3, positive: true },
        SliceDirection::WNegative => SignedAxis { axis: 3, positive: false },
    }
}

impl SliceDirection {
    /// The signed basis vector of the slice frame whose 4D coordinates label this direction.
    pub fn basis_axis(self) -> (r: SignedAxis)
        ensures
            r == slice_direction_axis(self),
            r.axis < 4,
    {
        match self {
            SliceDirection::Forward => SignedAxis { axis: AXIS_FORWARD, positive: true },
            SliceDirection::Backward => SignedAxis { axis: AXIS_FORWARD, positive: false },
            SliceDirection::Left => SignedAxis { axis: AXIS_RIGHT, positive: false },
            SliceDirection::Right => SignedAxis { axis: AXIS_RIGHT, positive: true },
            SliceDirection::Up => SignedAxis { axis: AXIS_UP, positive: true },
            SliceDirection::Down => SignedAxis { axis: AXIS_UP, positive: false },
            SliceDirection::WPositive => SignedAxis { axis: AXIS_W, positive: true },
            SliceDirection::WNegative => SignedAxis { axis: AXIS_W, positive: false },
        }
    }
}

/// Camera movement actions.
#[derive(Debug, Clone, Copy, PartialEq, Eq, Structural)]
pub enum CameraAction {
    MoveForward,
    MoveBackward,
    MoveLeft,
    MoveRight,
    MoveUp,
    MoveDown,
    IncreaseW,
    DecreaseW,
    MoveSliceForward,
    MoveSliceBackward,
    MoveKata,
    MoveAna,
}

/// How a camera action moves the camera position, independent of speed.
#[derive(Debug, Clone, Copy, PartialEq, Eq, Structural)]
pub enum CameraMovement {
    /// Along a 3D view vector (right, up or forward) lifted into 4D by the slice basis.
    View { axis: SignedAxis },
    /// Along the world's w coordinate only.
    WorldW { positive: bool },
    /// Along the slice's w basis vector.
    SliceW { positive: bool },
}

/// The movement that each camera action performs.
pub open spec fn action_movement(a: CameraAction) -> CameraMovement {
    match a {
        CameraAction::MoveForward => CameraMovement::View { axis: SignedAxis { axis: 2, positive: true } },
        CameraAction::MoveBackward => CameraMovement::View { axis: SignedAxis { axis: 2, positive: false } },
        CameraAction::MoveLeft => CameraMovement::View { axis: SignedAxis { axis: 0, positive: false } },
        CameraAction::MoveRight => CameraMovement::View { axis: SignedAxis { axis: 0, positive: true } },
        CameraAction::MoveUp => CameraMovement::View { axis: SignedAxis { axis: 1, positive: true } },
        CameraAction::MoveDown => CameraMovement::View { axis: SignedAxis { axis: 1, positive: false } },
        CameraAction::IncreaseW => CameraMovement::WorldW { positive: true },
        CameraAction::DecreaseW => CameraMovement::WorldW { positive: false },
        CameraAction::MoveSliceForward => CameraMovement::View { axis: SignedAxis { axis: 2, positive: true } },
        CameraAction::MoveSliceBackward => CameraMovement::View { axis: SignedAxis { axis: 2, positive: false } },
        CameraAction::MoveKata => CameraMovement::SliceW { positive: true },
        CameraAction::MoveAna => CameraMovement::SliceW { positive: false },
    }
}

/// The name under which a camera action is displayed (its variant name).
pub open spec fn action_name(a: CameraAction) -> Seq<char> {
    match a {
        CameraAction::MoveForward => "MoveForward"@,
        CameraAction::MoveBackward => "MoveBackward"@,
        CameraAction::MoveLeft => "MoveLeft"@,
        CameraAction::MoveRight => "MoveRight"@,
        CameraAction::MoveUp => "MoveUp"@,
        CameraAction::MoveDown => "MoveDown"@,
        CameraAction::IncreaseW => "IncreaseW"@,
        CameraAction::DecreaseW => "DecreaseW"@,
        CameraAction::MoveSliceForward => "MoveSliceForward"@,
        CameraAction::MoveSliceBackward => "MoveSliceBackward"@,
        CameraAction::MoveKata => "MoveKata"@,
        CameraAction::MoveAna => "MoveAna"@,
    }
}

impl CameraAction {
    /// The movement this action applies to the camera position; the caller scales it by
    /// the movement speed.
    pub fn movement(self) -> (r: CameraMovement)
        ensures
            r == action_movement(self),
            r matches CameraMovement::View { axis } ==> axis.axis < 3,
    {
        match self {
            CameraAction::MoveForward => CameraMovement::View { axis: SignedAxis { axis: AXIS_FORWARD, positive: true } },
            CameraAction::MoveBackward => CameraMovement::View { axis: SignedAxis { axis: AXIS_FORWARD, positive: false } },
            CameraAction::MoveLeft => CameraMovement::View { axis: SignedAxis { axis: AXIS_RIGHT, positive: false } },
            CameraAction::MoveRight => CameraMovement::View { axis: SignedAxis { axis: AXIS_RIGHT, positive: true } },
            CameraAction::MoveUp => CameraMovement::View { axis: SignedAxis { axis: AXIS_UP, positive: true } },
            CameraAction::MoveDown => CameraMovement::View { axis: SignedAxis { axis: AXIS_UP, positive: false } },
            CameraAction::IncreaseW => CameraMovement::WorldW { positive: true },
            CameraAction::DecreaseW => CameraMovement::WorldW { positive: false },
            CameraAction::MoveSliceForward => CameraMovement::View { axis: SignedAxis { axis: AXIS_FORWARD, positive: true } },
            CameraAction::MoveSliceBackward => CameraMovement::View { axis: SignedAxis { axis: AXIS_FORWARD, positive: false } },
            CameraAction::MoveKata => CameraMovement::SliceW { positive: true },
            CameraAction::MoveAna => CameraMovement::SliceW { positive: false },
        }
    }

    /// The display name of the action.
    pub fn to_string(&self) -> (r: String)
        ensures
            r@ == action_name(*self),
    {
        match self {
            CameraAction::MoveForward => "MoveForward".to_owned(),
            CameraAction::MoveBackward => "MoveBackward".to_owned(),
            CameraAction::MoveLeft => "MoveLeft".to_owned(),
            CameraAction::MoveRight => "MoveRight".to_owned(),
            CameraAction::MoveUp => "MoveUp".to_owned(),
            CameraAction::MoveDown => "MoveDown".to_owned(),
            CameraAction::IncreaseW => "IncreaseW".to_owned(),
            CameraAction::DecreaseW => "DecreaseW".to_owned(),
            CameraAction::MoveSliceForward => "MoveSliceForward".to_owned(),
            CameraAction::MoveSliceBackward => "MoveSliceBackward".to_owned(),
            CameraAction::MoveKata => "MoveKata".to_owned(),
            CameraAction::MoveAna => "MoveAna".to_owned(),
        }
    }
}

/// The paired actions move in opposite senses: forward/backward, left/right, up/down,
/// w increase/decrease, slice forward/backward and kata/ana each follow the same axis with
/// opposite signs, and slice forward/backward move exactly as forward/backward.
pub proof fn law_opposite_actions()
    ensures
        opposite_movements(action_movement(CameraAction::MoveForward), action_movement(CameraAction::MoveBackward)),
        opposite_movements(action_movement(CameraAction::MoveLeft), action_movement(CameraAction::MoveRight)),
        opposite_movements(action_movement(CameraAction::MoveUp), action_movement(CameraAction::MoveDown)),
        opposite_movements(action_movement(CameraAction::IncreaseW), action_movement(CameraAction::DecreaseW)),
        opposite_movements(action_movement(CameraAction::MoveSliceForward), action_movement(CameraAction::MoveSliceBackward)),
        opposite_movements(action_movement(CameraAction::MoveKata), action_movement(CameraAction::MoveAna)),
        action_movement(CameraAction::MoveSliceForward) == action_movement(CameraAction::MoveForward),
        action_movement(CameraAction::MoveSliceBackward) == action_movement(CameraAction::MoveBackward),
{
}

/// Two movements along the same line in opposite senses.
pub open spec fn opposite_movements(m1: CameraMovement, m2: CameraMovement) -> bool {
    match (m1, m2) {
        (CameraMovement::View { axis: a1 }, CameraMovement::View { axis: a2 }) =>
            a1.axis == a2.axis && a1.positive != a2.positive,
        (CameraMovement::WorldW { positive: p1 }, CameraMovement::WorldW { positive: p2 }) => p1 != p2,
        (CameraMovement::SliceW { positive: p1 }, CameraMovement::SliceW { positive: p2 }) => p1 != p2,
        _ => false,
    }
}

/// Each view action follows the signed axis of the movement direction it names: forward
/// and backward, left and right, up and down (and the slice-forward/backward actions as
/// forward and backward).
pub proof fn law_actions_follow_named_directions()
    ensures
        action_movement(CameraAction::MoveForward) == (CameraMovement::View { axis: direction_axis(Direction4D::Forward) }),
        action_movement(CameraAction::MoveBackward) == (CameraMovement::View { axis: direction_axis(Direction4D::Backward) }),
        action_movement(CameraAction::MoveLeft) == (CameraMovement::View { axis: direction_axis(Direction4D::Left) }),
        action_movement(CameraAction::MoveRight) == (CameraMovement::View { axis: direction_axis(Direction4D::Right) }),
        action_movement(CameraAction::MoveUp) == (CameraMovement::View { axis: direction_axis(Direction4D::Up) }),
        action_movement(CameraAction::MoveDown) == (CameraMovement::View { axis: direction_axis(Direction4D::Down) }),
        action_movement(CameraAction::MoveSliceForward) == (CameraMovement::View {
            axis: direction_axis(Direction4D::Forward),
        }),
        action_movement(CameraAction::MoveSliceBackward) == (CameraMovement::View {
            axis: direction_axis(Direction4D::Backward),
        }),
{
}

/// Kata and ana move along the slice's w axis in the sense of the kata and ana directions,
/// and the w actions along world w, increasing or decreasing it.
pub proof fn law_w_actions_follow_named_directions()
    ensures
        action_movement(CameraAction::MoveKata) == (CameraMovement::SliceW {
            positive: direction_axis(Direction4D::Kata).positive,
        }),
        action_movement(CameraAction::MoveAna) == (CameraMovement::SliceW {
            positive: direction_axis(Direction4D::Ana).positive,
        }),
        action_movement(CameraAction::IncreaseW) == (CameraMovement::WorldW { positive: true }),
        action_movement(CameraAction::DecreaseW) == (CameraMovement::WorldW { positive: false }),
{
}

/// Each slice direction names the same signed axis as the movement direction of the same
/// name, with the w directions as kata (positive) and ana (negative).
pub proof fn law_slice_directions_match_movements()
    ensures
        slice_direction_axis(SliceDirection::Forward) == direction_axis(Direction4D::Forward),
        slice_direction_axis(SliceDirection::Backward) == direction_axis(Direction4D::Backward),
        slice_direction_axis(SliceDirection::Left) == direction_axis(Direction4D::Left),
        slice_direction_axis(SliceDirection::Right) == direction_axis(Direction4D::Right),
        slice_direction_axis(SliceDirection::Up) == direction_axis(Direction4D::Up),
        slice_direction_axis(SliceDirection::Down) == direction_axis(Direction4D::Down),
        slice_direction_axis(SliceDirection::WPositive) == direction_axis(Direction4D::Kata),
        slice_direction_axis(SliceDirection::WNegative) == direction_axis(Direction4D::Ana),
{
}

} // verus!

//! Four-zone tap handling of the stereo view: each half is cut by its diagonals into
//! north/east/south/west zones, and a tap on a zone maps to a camera action that depends on
//! the view half.
use vstd::prelude::*;

verus! {

/// Directional zone of a view half.
#[derive(Debug, Clone, Copy, PartialEq, Eq, Hash, Structural)]
pub enum Zone {
    North,
    East,
    South,
    West,
}

/// Camera movement action selected by a tap.
#[derive(Debug, Clone, Copy, PartialEq, Eq, Structural)]
pub enum CameraAction {
    MoveForward,
    MoveBackward,
    StrafeLeft,
    StrafeRight,
    MoveUp,
    MoveDown,
    IncreaseW,
    DecreaseW,
    MoveSliceForward,
    MoveSliceBackward,
    MoveSliceOrthogonalPos,
    MoveSliceOrthogonalNeg,
}

/// The action of a tap: the left view moves the camera up/down and strafes it, the right
/// view moves the slice forward/backward and orthogonally.
pub open spec fn tap_action(zone: Zone, is_left_view: bool) -> CameraAction {
    if is_left_view {
        match zone {
            Zone::North => CameraAction::MoveUp,
            Zone::South => CameraAction::MoveDown,
            Zone::West => CameraAction::StrafeLeft,
            Zone::East => CameraAction::StrafeRight,
        }
    } else {
        match zone {
            Zone::North => CameraAction::MoveSliceForward,
            Zone::South => CameraAction::MoveSliceBackward,
            Zone::West => CameraAction::MoveSliceOrthogonalNeg,
            Zone::East => CameraAction::MoveSliceOrthogonalPos,
        }
    }
}

/// Map a zone and view to a camera action.
pub fn zone_to_action(zone: Zone, is_left_view: bool) -> (r: CameraAction)
    ensures
        r == tap_action(zone, is_left_view),
{
    if is_left_view {
        match zone {
            Zone::North => CameraAction::MoveUp,
            Zone::South => CameraAction::MoveDown,
            Zone::West => CameraAction::StrafeLeft,
            Zone::East => CameraAction::StrafeRight,
        }
    } else {
        match zone {
            Zone::North => CameraAction::MoveSliceForward,
            Zone::South => CameraAction::MoveSliceBackward,
            Zone::West => CameraAction::MoveSliceOrthogonalNeg,
            Zone::East => CameraAction::MoveSliceOrthogonalPos,
        }
    }
}

/// The zone of a point from its side of the two diagonals of the rect: north lies above
/// both, south below both, west above the NW-SE diagonal only, east above the NE-SW
/// diagonal only.
pub open spec fn diagonal_zone(above_nw_se: bool, above_ne_sw: bool) -> Zone {
    if above_nw_se && above_ne_sw {
        Zone::North
    } else if !above_nw_se && !above_ne_sw {
        Zone::South
    } else if above_nw_se && !above_ne_sw {
        Zone::West
    } else {
        Zone::East
    }
}

/// Determine the zone of a point within a rectangle, given on which side of each diagonal it
/// lies (the rectangle is divided by two diagonal lines creating an X pattern).
pub fn zone_from_diagonals(above_nw_se: bool, above_ne_sw: bool) -> (r: Zone)
    ensures
        r == diagonal_zone(above_nw_se, above_ne_sw),
{
    if above_nw_se && above_ne_sw {
        Zone::North
    } else if !above_nw_se && !above_ne_sw {
        Zone::South
    } else if above_nw_se && !above_ne_sw {
        Zone::West
    } else {
        Zone::East
    }
}

/// A tap never selects the same action in both view halves, and within one half different
/// zones select different actions; every zone is reached by exactly one pair of diagonal
/// sides.
pub proof fn law_tap_actions_distinct(z1: Zone, l1: bool, z2: Zone, l2: bool, zone: Zone)
    ensures
        tap_action(z1, l1) == tap_action(z2, l2) ==> z1 == z2 && l1 == l2,
        exists|a: bool, b: bool| diagonal_zone(a, b) == zone,
{
    match zone {
        Zone::North => assert(diagonal_zone(true, true) == zone),
        Zone::South => assert(diagonal_zone(false, false) == zone),
        Zone::West => assert(diagonal_zone(true, false) == zone),
        Zone::East => assert(diagonal_zone(false, true) == zone),
    }
}

} // verus!

//! Edge labelling on the tesseract map: the coordinate axis that a tesseract edge runs along.
use vstd::prelude::*;

use crate::camera::Direction4D;
use crate::input::zones::{zone_movement_spec, Zone};
use crate::polytopes::{coords, cube_vertex, eight_cell_edge_spec, pairs_satisfy};

verus! {

/// Number of edges of the tesseract drawn on the map.
pub const TESSERACT_EDGE_COUNT: usize = 32;

/// Number of vertices of the tesseract's cross-section by a w slice (a cube).
pub const TESSERACT_CROSS_SECTION_VERTEX_COUNT: usize = 8;

/// Number of edges of the tesseract's cross-section by a w slice (a cube).
pub const TESSERACT_CROSS_SECTION_EDGE_COUNT: usize = 12;

/// Whether `a` and `b` differ in coordinate `k` and in no other of the four coordinates.
pub open spec fn differs_only_in(a: Seq<int>, b: Seq<int>, k: int) -> bool {
    &&& 0 <= k < 4
    &&& a[k] != b[k]
    &&& forall|m: int| 0 <= m < 4 && m != k ==> a[m] == b[m]
}

/// The single coordinate axis along which the edge from vertex `i0` to vertex `i1` runs, or
/// `None` when the two vertices coincide or differ in more than one coordinate.
pub fn edge_axis(vertices: &Vec<[i8; 4]>, i0: usize, i1: usize) -> (r: Option<usize>)
    requires
        i0 < vertices@.len(),
        i1 < vertices@.len(),
    ensures
        r matches Some(k) ==> differs_only_in(coords(vertices@[i0 as int]), coords(vertices@[i1 as int]), k as int),
        r is None ==> forall|k: int| !differs_only_in(
            coords(vertices@[i0 as int]),
            coords(vertices@[i1 as int]),
            k,
        ),
{
    let v0 = vertices[i0];
    let v1 = vertices[i1];
    let ghost a = coords(v0);
    let ghost b = coords(v1);
    let mut diff_axis: Option<usize> = None;
    let mut ax: usize = 0;
    while ax < 4
        invariant
            ax <= 4,
            v0 == vertices@[i0 as int],
            v1 == vertices@[i1 as int],
            a == coords(v0),
            b == coords(v1),
            diff_axis is None ==> forall|m: int| 0 <= m < ax ==> a[m] == b[m],
            diff_axis matches Some(k) ==> k < ax && a[k as int] != b[k as int] && forall|m: int|
                0 <= m < ax && m != k ==> a[m] == b[m],
        decreases 4 - ax,
    {
        if v0[ax] != v1[ax] {
            if diff_axis.is_some() {
                proof {
                    let k = diff_axis->Some_0;
                    assert forall|j: int| !differs_only_in(a, b, j) by {
                        if differs_only_in(a, b, j) {
                            if j == ax as int {
                                assert(a[k as int] == b[k as int]);
                            } else {
                                assert(a[ax as int] == b[ax as int]);
                            }
                        }
                    }
                }
                return None;
            }
            diff_axis = Some(ax);
        }
        ax = ax + 1;
    }
    diff_axis
}

/// Every edge of the tesseract runs along exactly one coordinate axis, so `edge_axis`
/// labels every tesseract edge with an axis.
pub proof fn law_tesseract_edges_are_axis_parallel()
    ensures
        pairs_satisfy(
            eight_cell_edge_spec(),
            |a: int, b: int| exists|k: int| differs_only_in(cube_vertex(a), cube_vertex(b), k),
        ),
{
    crate::polytopes::lemma_tesseract_edge_axes();
}

/// What a tap or hold on the map view does.
#[derive(Debug, Clone, Copy, PartialEq, Eq, Structural)]
pub enum MapPointerEffect {
    /// Select the waypoint with this index (reported to the app).
    SelectWaypoint(usize),
    /// Switch the compass frame between world and camera.
    ToggleFrameMode,
    /// Show or hide the map labels.
    ToggleLabels,
    /// Re-fit the map to the scene camera and the waypoints.
    ResetToFit,
    /// Switch right-view drags between 3D and 4D rotation.
    ToggleRotationMode,
    /// Move the map camera in this direction.
    Move(Direction4D),
    /// Nothing happens.
    Nothing,
}

/// The effect of a pointer event on the map view. Taps on a waypoint select it; taps on the
/// left view toggle the frame (south), toggle the labels (north) or re-fit the map
/// (south-east); taps on the right view's center toggle the rotation mode; other taps and
/// holds on the right view move the map camera by their zone; left-view holds do nothing.
pub open spec fn map_pointer_spec(
    is_hold: bool,
    is_left_view: bool,
    zone: Option<Zone>,
    tapped_waypoint: Option<usize>,
) -> MapPointerEffect {
    if !is_hold && tapped_waypoint is Some {
        MapPointerEffect::SelectWaypoint(tapped_waypoint->Some_0)
    } else if is_left_view {
        if is_hold {
            MapPointerEffect::Nothing
        } else {
            match zone {
                Some(Zone::South) => MapPointerEffect::ToggleFrameMode,
                Some(Zone::North) => MapPointerEffect::ToggleLabels,
                Some(Zone::SouthEast) => MapPointerEffect::ResetToFit,
                _ => MapPointerEffect::Nothing,
            }
        }
    } else if !is_hold && zone == Some(Zone::Center) {
        MapPointerEffect::ToggleRotationMode
    } else {
        match zone {
            Some(z) => match zone_movement_spec(z) {
                Some(d) => MapPointerEffect::Move(d),
                None => MapPointerEffect::Nothing,
            },
            None => MapPointerEffect::Nothing,
        }
    }
}

/// Decides what a pointer event on the map view does. `tapped_waypoint` is the waypoint
/// under a tap, if any; it is ignored for holds.
pub fn map_pointer_effect(
    is_hold: bool,
    is_left_view: bool,
    zone: Option<Zone>,
    tapped_waypoint: Option<usize>,
) -> (r: MapPointerEffect)
    ensures
        r == map_pointer_spec(is_hold, is_left_view, zone, tapped_waypoint),
{
    if !is_hold {
        if let Some(idx) = tapped_waypoint {
            return MapPointerEffect::SelectWaypoint(idx);
        }
    }
    if is_left_view {
        if let Some(zone) = zone {
            if !is_hold {
                match zone {
                    Zone::South => {
                        return MapPointerEffect::ToggleFrameMode;
                    },
                    Zone::North => {
                        return MapPointerEffect::ToggleLabels;
                    },
                    Zone::SouthEast => {
                        return MapPointerEffect::ResetToFit;
                    },
                    _ => {},
                }
            }
        }
        MapPointerEffect::Nothing
    } else {
        if !is_hold && zone == Some(Zone::Center) {
            return MapPointerEffect::ToggleRotationMode;
        }
        match crate::input::camera_controls::CameraControls::handle_zone_movement(false, zone) {
            Some(d) => MapPointerEffect::Move(d),
            None => MapPointerEffect::Nothing,
        }
    }
}

/// Holds on the map view never toggle a setting or select a waypoint: they move the camera
/// or do nothing, and only the right view moves it.
pub proof fn law_map_holds_only_move(is_left_view: bool, zone: Option<Zone>, tapped: Option<usize>)
    ensures
        map_pointer_spec(true, is_left_view, zone, tapped) is Move || map_pointer_spec(true, is_left_view, zone, tapped) is Nothing,
        map_pointer_spec(true, true, zone, tapped) is Nothing,
        forall|h: bool| !(#[trigger] map_pointer_spec(h, true, zone, None) is Move),
{
}

/// On the right view half, unless a tap lands on a waypoint, a tap or hold on any zone but
/// the center moves the map camera in that zone's direction; a tap and a hold there have
/// the same effect.
pub proof fn law_right_view_moves_by_zone(is_hold: bool, z: Zone, tapped: Option<usize>)
    requires
        z != Zone::Center,
        is_hold || tapped is None,
    ensures
        zone_movement_spec(z) matches Some(d) && map_pointer_spec(is_hold, false, Some(z), tapped)
            == MapPointerEffect::Move(d),
        map_pointer_spec(true, false, Some(z), tapped) == map_pointer_spec(false, false, Some(z), None),
{
}

/// Taps on the right view's center toggle the rotation mode, and holds there do nothing.
pub proof fn law_right_center(tapped: Option<usize>)
    ensures
        map_pointer_spec(false, false, Some(Zone::Center), None) == MapPointerEffect::ToggleRotationMode,
        map_pointer_spec(true, false, Some(Zone::Center), tapped) == MapPointerEffect::Nothing,
{
}

} // verus!

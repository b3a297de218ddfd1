//! How the vertices of a rendered tetrahedron are labelled.
use vstd::prelude::*;

use super::style::CompassFrameMode;
use crate::camera::{direction_axis, Direction4D};
use crate::render::tesseract::direction_initial;

verus! {

/// Vertex labels of a rendered tetrahedron.
#[derive(Debug, Clone, Copy, PartialEq, Eq, Structural)]
pub enum TetraLabelMode {
    /// Compass directions in the given frame.
    Compass(CompassFrameMode),
    /// The vertices' own axis labels.
    Raw,
    /// No labels.
    Hidden,
}

/// The letter of the camera-frame direction along signed axis `(component, positive)`:
/// R/L for the first axis, U/D for the second, F/B for the third and K/A for w.
pub open spec fn camera_axis_letter(component: int, positive: bool) -> Seq<char> {
    if component == 0 {
        if positive { "R"@ } else { "L"@ }
    } else if component == 1 {
        if positive { "U"@ } else { "D"@ }
    } else if component == 2 {
        if positive { "F"@ } else { "B"@ }
    } else {
        if positive { "K"@ } else { "A"@ }
    }
}

/// The label of compass vertex `component_index`: its world label in the world frame, and
/// in the camera frame the letter of the camera direction that the component's sign points
/// to (`positive` tells whether the component is non-negative). Components beyond w keep
/// their world label.
pub fn compass_vertex_label<'a>(
    frame_mode: CompassFrameMode,
    component_index: usize,
    positive: bool,
    world_label: &'a str,
) -> (r: &'a str)
    ensures
        r@ == if frame_mode == CompassFrameMode::World || component_index >= 4 {
            world_label@
        } else {
            camera_axis_letter(component_index as int, positive)
        },
{
    if matches!(frame_mode, CompassFrameMode::World) {
        return world_label;
    }
    match component_index {
        0 => {
            if positive {
                "R"
            } else {
                "L"
            }
        },
        1 => {
            if positive {
                "U"
            } else {
                "D"
            }
        },
        2 => {
            if positive {
                "F"
            } else {
                "B"
            }
        },
        3 => {
            if positive {
                "K"
            } else {
                "A"
            }
        },
        _ => world_label,
    }
}

/// The label drawn at vertex `index` of a tetrahedron under a label mode: nothing when
/// labels are hidden, the vertex's own label in raw mode, and its compass label (see
/// `compass_vertex_label`) in compass mode.
pub fn tetra_vertex_label<'a>(mode: TetraLabelMode, index: usize, positive: bool, own_label: &'a str) -> (r:
    Option<&'a str>)
    ensures
        match mode {
            TetraLabelMode::Hidden => r is None,
            TetraLabelMode::Raw => r matches Some(l) && l@ == own_label@,
            TetraLabelMode::Compass(frame) => r matches Some(l) && l@ == if frame == CompassFrameMode::World
                || index >= 4 {
                own_label@
            } else {
                camera_axis_letter(index as int, positive)
            },
        },
{
    match mode {
        TetraLabelMode::Hidden => None,
        TetraLabelMode::Raw => Some(own_label),
        TetraLabelMode::Compass(frame) => Some(compass_vertex_label(frame, index, positive, own_label)),
    }
}

/// In the camera frame, a compass vertex is labelled with the initial of the movement
/// direction that runs along the same signed axis.
pub proof fn law_camera_labels_name_directions(d: Direction4D)
    ensures
        camera_axis_letter(direction_axis(d).axis as int, direction_axis(d).positive) == direction_initial(d),
{
}

} // verus!

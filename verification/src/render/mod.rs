//! Rendering vocabulary: projection and compass frame modes, tetrahedron label modes, zone
//! labels and the packed colors of the w color table.
pub mod style;
pub mod tesseract;
pub mod tetra;

use vstd::prelude::*;

pub use style::{pack_rgb, unpack_rgb, CompassFrameMode};
pub use tetra::TetraLabelMode;

verus! {

/// How the stereo projector maps 3D points to the screen.
#[derive(Debug, Clone, Copy, PartialEq, Eq, Structural)]
pub enum ProjectionMode {
    Perspective,
    Orthographic,
}

impl Default for ProjectionMode {
    fn default() -> (r: Self)
        ensures
            r == ProjectionMode::Perspective,
    {
        ProjectionMode::Perspective
    }
}

} // verus!

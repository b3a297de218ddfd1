//! The six coordinate planes of 4D rotations and how a plane rotation is encoded in the
//! left/right unit quaternion pair.
//!
//! A rotation by angle `a` in a plane inside the 3D slice (XY, XZ, YZ) uses the same
//! half-angle quaternion on both sides; a rotation in a plane that involves w (XW, YW, ZW)
//! uses a full-angle quaternion on the left and the identity on the right. In both cases the
//! quaternion's imaginary part lies along one component (i, j or k), with a sign.
use vstd::prelude::*;

use crate::camera::SignedAxis;

verus! {

/// A coordinate plane of 4D space.
#[derive(Debug, Clone, Copy, PartialEq, Eq, Structural)]
pub enum RotationPlane {
    XY,
    XZ,
    YZ,
    XW,
    YW,
    ZW,
}

/// Whether the plane lies inside the 3D slice (does not involve w).
pub open spec fn plane_is_spatial(p: RotationPlane) -> bool {
    p == RotationPlane::XY || p == RotationPlane::XZ || p == RotationPlane::YZ
}

/// The imaginary quaternion component (0 = i, 1 = j, 2 = k) that carries the sine of the
/// angle for a rotation in the plane, with its sign.
pub open spec fn plane_component(p: RotationPlane) -> SignedAxis {
    match p {
        RotationPlane::XY => SignedAxis { axis: 2, positive: true },
        RotationPlane::XZ => SignedAxis { axis: 1, positive: true },
        RotationPlane::YZ => SignedAxis { axis: 0, positive: true },
        RotationPlane::XW => SignedAxis { axis: 0, positive: false },
        RotationPlane::YW => SignedAxis { axis: 1, positive: false },
        RotationPlane::ZW => SignedAxis { axis: 2, positive: false },
    }
}

impl RotationPlane {
    /// Whether the plane lies inside the 3D slice; such rotations act on both quaternion
    /// sides with the half angle.
    pub fn is_spatial(self) -> (r: bool)
        ensures
            r == plane_is_spatial(self),
    {
        matches!(self, RotationPlane::XY | RotationPlane::XZ | RotationPlane::YZ)
    }

    /// The signed imaginary quaternion component that encodes a rotation in this plane.
    pub fn quaternion_component(self) -> (r: SignedAxis)
        ensures
            r == plane_component(self),
            r.axis < 3,
    {
        match self {
            RotationPlane::XY => SignedAxis { axis: 2, positive: true },
            RotationPlane::XZ => SignedAxis { axis: 1, positive: true },
            RotationPlane::YZ => SignedAxis { axis: 0, positive: true },
            RotationPlane::XW => SignedAxis { axis: 0, positive: false },
            RotationPlane::YW => SignedAxis { axis: 1, positive: false },
            RotationPlane::ZW => SignedAxis { axis: 2, positive: false },
        }
    }
}

/// The encoding is one to one: no two planes share a signed component, the spatial planes
/// are exactly those with a positive component, and every component carries one spatial and
/// one w plane.
pub proof fn law_plane_encoding_distinct(p1: RotationPlane, p2: RotationPlane, c: int)
    requires
        0 <= c < 3,
    ensures
        plane_component(p1) == plane_component(p2) ==> p1 == p2,
        plane_is_spatial(p1) == plane_component(p1).positive,
        exists|p: RotationPlane| plane_is_spatial(p) && #[trigger] plane_component(p).axis == c,
        exists|p: RotationPlane| !plane_is_spatial(p) && #[trigger] plane_component(p).axis == c,
{
    if c == 0 {
        assert(plane_component(RotationPlane::YZ).axis == c);
        assert(plane_component(RotationPlane::XW).axis == c);
    } else if c == 1 {
        assert(plane_component(RotationPlane::XZ).axis == c);
        assert(plane_component(RotationPlane::YW).axis == c);
    } else {
        assert(plane_component(RotationPlane::XY).axis == c);
        assert(plane_component(RotationPlane::ZW).axis == c);
    }
}

} // verus!

//! Camera controls: the rotation mode of right-view drags and which taps move the camera.
use vstd::prelude::*;

use crate::camera::Direction4D;

use super::zones::{zone_movement_spec, zone_to_movement_action, DragView, Zone};

verus! {

/// What a drag adjusts.
#[derive(Debug, Clone, Copy, PartialEq, Eq, Structural)]
pub enum DragAdjustment {
    /// Left-view drags adjust the slice thickness (horizontally) and the dichoptic
    /// intensity (vertically).
    SliceSettings,
    /// Right-view drags rotate the camera within its 3D slice.
    Rotate3D,
    /// Right-view drags tilt the slice in 4D.
    Rotate4D,
}

/// Camera control settings shared by the input handlers.
pub struct CameraControls {
    /// Right-view drags rotate the camera within its 3D slice when set, and tilt the slice
    /// in 4D otherwise.
    pub rotation_3d: bool,
}

impl CameraControls {
    pub fn new(rotation_3d: bool) -> (r: Self)
        ensures
            r.rotation_3d == rotation_3d,
    {
        Self { rotation_3d }
    }

    /// Switches right-view drags between 3D and 4D rotation.
    pub fn toggle_rotation_mode(&mut self)
        ensures
            final(self).rotation_3d == !old(self).rotation_3d,
    {
        self.rotation_3d = !self.rotation_3d;
    }

    /// What a drag in the given view half adjusts: left-view drags adjust the slice
    /// settings, right-view drags rotate in 3D or 4D by the rotation mode, and a drag with
    /// no view half adjusts nothing.
    pub fn handle_drag(&self, drag_view: Option<DragView>) -> (r: Option<DragAdjustment>)
        ensures
            r == match drag_view {
                Some(DragView::Left) => Some(DragAdjustment::SliceSettings),
                Some(DragView::Right) => Some(
                    if self.rotation_3d {
                        DragAdjustment::Rotate3D
                    } else {
                        DragAdjustment::Rotate4D
                    },
                ),
                None => None,
            },
    {
        match drag_view {
            Some(DragView::Left) => Some(DragAdjustment::SliceSettings),
            Some(DragView::Right) => if self.rotation_3d {
                Some(DragAdjustment::Rotate3D)
            } else {
                Some(DragAdjustment::Rotate4D)
            },
            None => None,
        }
    }

    /// The movement a tap or hold on a zone applies: taps in the right view half move the
    /// camera in the zone's direction; the left view half and the center zone do not move it.
    pub fn handle_zone_movement(is_left_view: bool, zone: Option<Zone>) -> (r: Option<Direction4D>)
        ensures
            r == (if is_left_view {
                None
            } else {
                match zone {
                    Some(z) => zone_movement_spec(z),
                    None => None,
                }
            }),
    {
        if !is_left_view {
            if let Some(zone) = zone {
                return zone_to_movement_action(zone);
            }
        }
        None
    }
}

impl Default for CameraControls {
    fn default() -> (r: Self)
        ensures
            r.rotation_3d,
    {
        Self::new(true)
    }
}

} // verus!

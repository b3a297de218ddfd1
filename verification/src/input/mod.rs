//! Input handling for stereoscopic view tap zones: zones, the keyboard movement keys, the
//! drag gesture state, zone bindings and camera controls.
use vstd::prelude::*;

use crate::camera::Direction4D;

pub mod camera_controls;
pub mod overlay;
pub mod zones;

pub use zones::{zone_to_movement_action, DragView, TetraId, Zone, ZoneMode};

verus! {

/// Keys that move the camera while held down.
#[derive(Debug, Clone, Copy, PartialEq, Eq, Structural)]
pub enum MovementKey {
    ArrowUp,
    ArrowDown,
    ArrowLeft,
    ArrowRight,
    PageUp,
    PageDown,
    Period,
    Comma,
}

/// The direction a held movement key moves the camera: the arrows move up/down/left/right,
/// PageUp/PageDown forward/backward, Period kata and Comma ana.
pub open spec fn key_direction(key: MovementKey) -> Direction4D {
    match key {
        MovementKey::ArrowUp => Direction4D::Up,
        MovementKey::ArrowDown => Direction4D::Down,
        MovementKey::ArrowLeft => Direction4D::Left,
        MovementKey::ArrowRight => Direction4D::Right,
        MovementKey::PageUp => Direction4D::Forward,
        MovementKey::PageDown => Direction4D::Backward,
        MovementKey::Period => Direction4D::Kata,
        MovementKey::Comma => Direction4D::Ana,
    }
}

impl MovementKey {
    /// The movement keys in the order in which they are polled each frame.
    pub fn all() -> (r: [MovementKey; 8])
        ensures
            r@ == seq![
                MovementKey::ArrowUp,
                MovementKey::ArrowDown,
                MovementKey::ArrowLeft,
                MovementKey::ArrowRight,
                MovementKey::PageUp,
                MovementKey::PageDown,
                MovementKey::Period,
                MovementKey::Comma,
            ],
    {
        [
            MovementKey::ArrowUp,
            MovementKey::ArrowDown,
            MovementKey::ArrowLeft,
            MovementKey::ArrowRight,
            MovementKey::PageUp,
            MovementKey::PageDown,
            MovementKey::Period,
            MovementKey::Comma,
        ]
    }

    /// The movement direction applied while this key is held.
    pub fn direction(self) -> (r: Direction4D)
        ensures
            r == key_direction(self),
    {
        match self {
            MovementKey::ArrowUp => Direction4D::Up,
            MovementKey::ArrowDown => Direction4D::Down,
            MovementKey::ArrowLeft => Direction4D::Left,
            MovementKey::ArrowRight => Direction4D::Right,
            MovementKey::PageUp => Direction4D::Forward,
            MovementKey::PageDown => Direction4D::Backward,
            MovementKey::Period => Direction4D::Kata,
            MovementKey::Comma => Direction4D::Ana,
        }
    }
}

/// Every movement direction has exactly one key: the key mapping is one to one and onto.
pub proof fn law_keys_cover_directions(k1: MovementKey, k2: MovementKey, d: Direction4D)
    ensures
        key_direction(k1) == key_direction(k2) ==> k1 == k2,
        exists|k: MovementKey| key_direction(k) == d,
{
    match d {
        Direction4D::Up => assert(key_direction(MovementKey::ArrowUp) == d),
        Direction4D::Down => assert(key_direction(MovementKey::ArrowDown) == d),
        Direction4D::Left => assert(key_direction(MovementKey::ArrowLeft) == d),
        Direction4D::Right => assert(key_direction(MovementKey::ArrowRight) == d),
        Direction4D::Forward => assert(key_direction(MovementKey::PageUp) == d),
        Direction4D::Backward => assert(key_direction(MovementKey::PageDown) == d),
        Direction4D::Kata => assert(key_direction(MovementKey::Period) == d),
        Direction4D::Ana => assert(key_direction(MovementKey::Comma) == d),
    }
}

/// Whether a tap opens or closes the menu instead of reaching the active toy: taps on the
/// north-west zone of the left view half.
pub fn is_menu_tap(is_left_view: bool, zone: Option<Zone>) -> (r: bool)
    ensures
        r == (is_left_view && zone == Some(Zone::NorthWest)),
{
    if is_left_view {
        if let Some(zone) = zone {
            if zone == Zone::NorthWest {
                return true;
            }
        }
    }
    false
}

/// Tracks the active drag gesture state.
#[derive(Debug, Clone)]
pub struct DragState {
    pub drag_view: Option<DragView>,
}

impl DragState {
    /// No drag in progress.
    pub fn new() -> (r: Self)
        ensures
            r.drag_view is None,
    {
        Self { drag_view: None }
    }

    /// Ends the drag in progress, if any.
    pub fn clear(&mut self)
        ensures
            final(self).drag_view is None,
    {
        self.drag_view = None;
    }
}

impl Default for DragState {
    fn default() -> (r: Self)
        ensures
            r.drag_view is None,
    {
        Self::new()
    }
}

} // verus!

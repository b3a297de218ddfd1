//! Toys: the interactive scenes of the app, their display order, and the manager that keeps
//! one of them active.
pub mod manager;
pub mod registry;

use vstd::prelude::*;

use crate::input::ZoneMode;

pub use manager::{ToyEntry, ToyManager};
pub use registry::toy_id_order;

verus! {

/// Action returned by a view's input handler for the app to process.
#[derive(Debug, Clone, PartialEq, Eq, Structural)]
pub enum ViewAction {
    NoAction,
    ToggleMenu,
    SelectWaypoint(usize),
}

impl Default for ViewAction {
    fn default() -> (r: Self)
        ensures
            r == ViewAction::NoAction,
    {
        ViewAction::NoAction
    }
}

/// The extension point for interactive toys: what the manager and the pointer loop ask of
/// each toy. Rendering and input handling on the screen live outside this library.
pub trait Toy {
    /// Whether the toy is in its default state, the one a reset puts it in.
    spec fn in_default_state(&self) -> bool;

    /// Reset the toy to its default state.
    fn reset(&mut self)
        ensures
            final(self).in_default_state(),
    ;

    /// The zone mode of a view half (left when `is_left_view`); four zones unless a toy
    /// says otherwise.
    fn zone_mode_for_view(&self, is_left_view: bool) -> (r: ZoneMode)
        default_ensures
            r == ZoneMode::FourZones,
    {
        ZoneMode::FourZones
    }

    /// Clear any ongoing interaction state (e.g. after a mode switch).
    fn clear_interaction_state(&mut self) {
    }
}

} // verus!

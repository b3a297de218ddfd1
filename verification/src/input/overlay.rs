//! Pluggable control overlay for zone-based input: which action is bound to which zone of
//! each stereo view half, and which drag handler serves each half.
//!
//! The actions and handlers are values of the caller's choosing (callbacks, or identifiers
//! of callbacks); the overlay decides which one a tap or drag selects.
use vstd::prelude::*;

use super::zones::{zone_index, Zone, ZoneMode};

verus! {

/// Number of zones a view half can be divided into.
pub const ZONE_COUNT: usize = 9;

/// Position of a zone in the binding table.
fn zone_slot(zone: Zone) -> (r: usize)
    ensures
        r == zone_index(zone),
        r < ZONE_COUNT,
{
    let (row, col) = zone.grid_cell();
    3 * row + col
}

/// The action bound to `zone` in a binding map, if any.
pub open spec fn bound_action<A>(m: Map<Zone, A>, zone: Zone) -> Option<A> {
    if m.dom().contains(zone) {
        Some(m[zone])
    } else {
        None
    }
}

/// Actions bound to the zones of one view half; at most one action per zone.
pub struct ZoneBindings<A> {
    bindings: Vec<Option<A>>,
}

impl<A> View for ZoneBindings<A> {
    type V = Map<Zone, A>;

    /// The zones that carry an action, each with its action.
    closed spec fn view(&self) -> Map<Zone, A> {
        Map::new(
            |z: Zone| self.bindings@[zone_index(z)] is Some,
            |z: Zone| self.bindings@[zone_index(z)]->Some_0,
        )
    }
}

impl<A> ZoneBindings<A> {
    /// One slot per zone.
    #[verifier::type_invariant]
    closed spec fn well_formed(&self) -> bool {
        self.bindings@.len() == ZONE_COUNT
    }

    /// No zone bound.
    pub fn new() -> (r: Self)
        ensures
            r@ == Map::<Zone, A>::empty(),
    {
        let mut bindings: Vec<Option<A>> = Vec::new();
        let mut i: usize = 0;
        while i < ZONE_COUNT
            invariant
                i <= ZONE_COUNT,
                bindings@.len() == i,
                forall|j: int| 0 <= j < i ==> bindings@[j] is None,
            decreases ZONE_COUNT - i,
        {
            bindings.push(None);
            i = i + 1;
        }
        let r = Self { bindings };
        assert(r@ =~= Map::<Zone, A>::empty());
        r
    }

    /// Binds `action` to `zone`, replacing any earlier binding of that zone.
    pub fn zone(self, zone: Zone, action: A) -> (r: Self)
        ensures
            r@ == self@.insert(zone, action),
    {
        proof {
            use_type_invariant(&self);
        }
        let mut bindings = self.bindings;
        let slot = zone_slot(zone);
        bindings.set(slot, Some(action));
        let r = Self { bindings };
        proof {
            assert forall|z: Zone| zone_index(z) == zone_index(zone) implies z == zone by {
                assert(zone_index(z) == zone_index(zone));
            }
        }
        assert(r@ =~= self@.insert(zone, action));
        r
    }

    /// Binds `action` to the north zone.
    pub fn north(self, action: A) -> (r: Self)
        ensures
            r@ == self@.insert(Zone::North, action),
    {
        self.zone(Zone::North, action)
    }

    /// Binds `action` to the east zone.
    pub fn east(self, action: A) -> (r: Self)
        ensures
            r@ == self@.insert(Zone::East, action),
    {
        self.zone(Zone::East, action)
    }

    /// Binds `action` to the south zone.
    pub fn south(self, action: A) -> (r: Self)
        ensures
            r@ == self@.insert(Zone::South, action),
    {
        self.zone(Zone::South, action)
    }

    /// Binds `action` to the west zone.
    pub fn west(self, action: A) -> (r: Self)
        ensures
            r@ == self@.insert(Zone::West, action),
    {
        self.zone(Zone::West, action)
    }

    /// Binds `action` to the north-west zone.
    pub fn north_west(self, action: A) -> (r: Self)
        ensures
            r@ == self@.insert(Zone::NorthWest, action),
    {
        self.zone(Zone::NorthWest, action)
    }

    /// Binds `action` to the north-east zone.
    pub fn north_east(self, action: A) -> (r: Self)
        ensures
            r@ == self@.insert(Zone::NorthEast, action),
    {
        self.zone(Zone::NorthEast, action)
    }

    /// Binds `action` to the center zone.
    pub fn center(self, action: A) -> (r: Self)
        ensures
            r@ == self@.insert(Zone::Center, action),
    {
        self.zone(Zone::Center, action)
    }

    /// Binds `action` to the south-west zone.
    pub fn south_west(self, action: A) -> (r: Self)
        ensures
            r@ == self@.insert(Zone::SouthWest, action),
    {
        self.zone(Zone::SouthWest, action)
    }

    /// Binds `action` to the south-east zone.
    pub fn south_east(self, action: A) -> (r: Self)
        ensures
            r@ == self@.insert(Zone::SouthEast, action),
    {
        self.zone(Zone::SouthEast, action)
    }

    /// The action that a tap on `zone` triggers: the one bound to it, or none.
    pub fn trigger(&self, zone: Zone) -> (r: Option<&A>)
        ensures
            r matches Some(a) ==> bound_action(self@, zone) == Some(*a),
            r is None <==> bound_action(self@, zone) is None,
    {
        proof {
            use_type_invariant(self);
        }
        let slot = zone_slot(zone);
        match &self.bindings[slot] {
            Some(a) => Some(a),
            None => None,
        }
    }

    /// Whether an action is bound to `zone`.
    pub fn has_binding(&self, zone: Zone) -> (r: bool)
        ensures
            r == self@.dom().contains(zone),
    {
        proof {
            use_type_invariant(self);
        }
        let slot = zone_slot(zone);
        self.bindings[slot].is_some()
    }
}

impl<A> Default for ZoneBindings<A> {
    fn default() -> (r: Self)
        ensures
            r@ == Map::<Zone, A>::empty(),
    {
        Self::new()
    }
}

/// A tap on a zone triggers the action last bound to that zone, and binding one zone leaves
/// what every other zone triggers unchanged.
pub proof fn law_bound_action_read_after_write<A>(m: Map<Zone, A>, zone: Zone, action: A, other: Zone)
    ensures
        bound_action(m.insert(zone, action), zone) == Some(action),
        other != zone ==> bound_action(m.insert(zone, action), other) == bound_action(m, other),
        bound_action(Map::<Zone, A>::empty(), other) is None,
{
}

/// Abstract state of a control overlay.
pub ghost struct OverlayState<A, H> {
    pub zone_mode: ZoneMode,
    pub left_bindings: Map<Zone, A>,
    pub right_bindings: Map<Zone, A>,
    pub left_drag_handler: Option<H>,
    pub right_drag_handler: Option<H>,
}

/// Zone bindings and drag handlers for the two halves of a stereo view.
pub struct ControlOverlay<A, H> {
    zone_mode: ZoneMode,
    left_bindings: ZoneBindings<A>,
    right_bindings: ZoneBindings<A>,
    left_drag_handler: Option<H>,
    right_drag_handler: Option<H>,
}

impl<A, H> View for ControlOverlay<A, H> {
    type V = OverlayState<A, H>;

    closed spec fn view(&self) -> OverlayState<A, H> {
        OverlayState {
            zone_mode: self.zone_mode,
            left_bindings: self.left_bindings@,
            right_bindings: self.right_bindings@,
            left_drag_handler: self.left_drag_handler,
            right_drag_handler: self.right_drag_handler,
        }
    }
}

impl<A, H> ControlOverlay<A, H> {
    /// Default zone mode, nothing bound, no drag handlers.
    pub fn new() -> (r: Self)
        ensures
            r@.zone_mode == ZoneMode::FourZones,
            r@.left_bindings == Map::<Zone, A>::empty(),
            r@.right_bindings == Map::<Zone, A>::empty(),
            r@.left_drag_handler is None,
            r@.right_drag_handler is None,
    {
        Self {
            zone_mode: ZoneMode::default(),
            left_bindings: ZoneBindings::new(),
            right_bindings: ZoneBindings::new(),
            left_drag_handler: None,
            right_drag_handler: None,
        }
    }

    /// Sets the zone mode.
    pub fn zone_mode(self, mode: ZoneMode) -> (r: Self)
        ensures
            r@ == (OverlayState { zone_mode: mode, ..self@ }),
    {
        let mut s = self;
        s.zone_mode = mode;
        s
    }

    /// Replaces the bindings of the left view half.
    pub fn left_bindings(self, bindings: ZoneBindings<A>) -> (r: Self)
        ensures
            r@ == (OverlayState { left_bindings: bindings@, ..self@ }),
    {
        let mut s = self;
        s.left_bindings = bindings;
        s
    }

    /// Replaces the bindings of the right view half.
    pub fn right_bindings(self, bindings: ZoneBindings<A>) -> (r: Self)
        ensures
            r@ == (OverlayState { right_bindings: bindings@, ..self@ }),
    {
        let mut s = self;
        s.right_bindings = bindings;
        s
    }

    /// Sets the drag handler of the left view half.
    pub fn left_drag(self, handler: H) -> (r: Self)
        ensures
            r@ == (OverlayState { left_drag_handler: Some(handler), ..self@ }),
    {
        let mut s = self;
        s.left_drag_handler = Some(handler);
        s
    }

    /// Sets the drag handler of the right view half.
    pub fn right_drag(self, handler: H) -> (r: Self)
        ensures
            r@ == (OverlayState { right_drag_handler: Some(handler), ..self@ }),
    {
        let mut s = self;
        s.right_drag_handler = Some(handler);
        s
    }

    /// The zone mode in use.
    pub fn get_zone_mode(&self) -> (r: ZoneMode)
        ensures
            r == self@.zone_mode,
    {
        self.zone_mode
    }

    /// The action that a tap on `zone` of the given view half triggers, if any.
    pub fn trigger(&self, is_left_view: bool, zone: Zone) -> (r: Option<&A>)
        ensures
            r matches Some(a) ==> bound_action(
                if is_left_view { self@.left_bindings } else { self@.right_bindings },
                zone,
            ) == Some(*a),
            r is None <==> bound_action(
                if is_left_view { self@.left_bindings } else { self@.right_bindings },
                zone,
            ) is None,
    {
        if is_left_view {
            self.left_bindings.trigger(zone)
        } else {
            self.right_bindings.trigger(zone)
        }
    }

    /// The handler that a drag in the given view half is handed to, if any.
    pub fn handle_drag(&self, is_left_view: bool) -> (r: Option<&H>)
        ensures
            r matches Some(h) ==> (if is_left_view {
                self@.left_drag_handler
            } else {
                self@.right_drag_handler
            }) == Some(*h),
            r is None <==> (if is_left_view {
                self@.left_drag_handler
            } else {
                self@.right_drag_handler
            }) is None,
    {
        let handler = if is_left_view {
            &self.left_drag_handler
        } else {
            &self.right_drag_handler
        };
        match handler {
            Some(h) => Some(h),
            None => None,
        }
    }

    /// Mutable access to the bindings of the left view half.
    pub fn left_bindings_mut(&mut self) -> (r: &mut ZoneBindings<A>)
        ensures
            r@ == old(self)@.left_bindings,
            final(self)@ == (OverlayState { left_bindings: final(r)@, ..old(self)@ }),
    {
        &mut self.left_bindings
    }

    /// Mutable access to the bindings of the right view half.
    pub fn right_bindings_mut(&mut self) -> (r: &mut ZoneBindings<A>)
        ensures
            r@ == old(self)@.right_bindings,
            final(self)@ == (OverlayState { right_bindings: final(r)@, ..old(self)@ }),
    {
        &mut self.right_bindings
    }
}

impl<A, H> Default for ControlOverlay<A, H> {
    fn default() -> (r: Self)
        ensures
            r@.zone_mode == ZoneMode::FourZones,
            r@.left_bindings == Map::<Zone, A>::empty(),
            r@.right_bindings == Map::<Zone, A>::empty(),
            r@.left_drag_handler is None,
            r@.right_drag_handler is None,
    {
        Self::new()
    }
}

/// Builds a control overlay zone by zone.
pub struct ControlOverlayBuilder<A, H> {
    overlay: ControlOverlay<A, H>,
}

impl<A, H> View for ControlOverlayBuilder<A, H> {
    type V = OverlayState<A, H>;

    closed spec fn view(&self) -> OverlayState<A, H> {
        self.overlay@
    }
}

impl<A, H> ControlOverlayBuilder<A, H> {
    /// Starts from an empty overlay.
    pub fn new() -> (r: Self)
        ensures
            r@.zone_mode == ZoneMode::FourZones,
            r@.left_bindings == Map::<Zone, A>::empty(),
            r@.right_bindings == Map::<Zone, A>::empty(),
            r@.left_drag_handler is None,
            r@.right_drag_handler is None,
    {
        Self { overlay: ControlOverlay::new() }
    }

    /// Sets the zone mode.
    pub fn zone_mode(self, mode: ZoneMode) -> (r: Self)
        ensures
            r@ == (OverlayState { zone_mode: mode, ..self@ }),
    {
        Self { overlay: self.overlay.zone_mode(mode) }
    }

    /// Binds `action` to `zone` of the left view half.
    pub fn left_zone(self, zone: Zone, action: A) -> (r: Self)
        ensures
            r@ == (OverlayState { left_bindings: self@.left_bindings.insert(zone, action), ..self@ }),
    {
        let ControlOverlay {
            zone_mode,
            left_bindings,
            right_bindings,
            left_drag_handler,
            right_drag_handler,
        } = self.overlay;
        let left_bindings = left_bindings.zone(zone, action);
        Self {
            overlay: ControlOverlay {
                zone_mode,
                left_bindings,
                right_bindings,
                left_drag_handler,
                right_drag_handler,
            },
        }
    }

    /// Binds `action` to `zone` of the right view half.
    pub fn right_zone(self, zone: Zone, action: A) -> (r: Self)
        ensures
            r@ == (OverlayState { right_bindings: self@.right_bindings.insert(zone, action), ..self@ }),
    {
        let ControlOverlay {
            zone_mode,
            left_bindings,
            right_bindings,
            left_drag_handler,
            right_drag_handler,
        } = self.overlay;
        let right_bindings = right_bindings.zone(zone, action);
        Self {
            overlay: ControlOverlay {
                zone_mode,
                left_bindings,
                right_bindings,
                left_drag_handler,
                right_drag_handler,
            },
        }
    }

    /// Sets the drag handler of the left view half.
    pub fn left_drag(self, handler: H) -> (r: Self)
        ensures
            r@ == (OverlayState { left_drag_handler: Some(handler), ..self@ }),
    {
        Self { overlay: self.overlay.left_drag(handler) }
    }

    /// Sets the drag handler of the right view half.
    pub fn right_drag(self, handler: H) -> (r: Self)
        ensures
            r@ == (OverlayState { right_drag_handler: Some(handler), ..self@ }),
    {
        Self { overlay: self.overlay.right_drag(handler) }
    }

    /// The overlay built so far.
    pub fn build(self) -> (r: ControlOverlay<A, H>)
        ensures
            r@ == self@,
    {
        self.overlay
    }
}

impl<A, H> Default for ControlOverlayBuilder<A, H> {
    fn default() -> (r: Self)
        ensures
            r@.zone_mode == ZoneMode::FourZones,
            r@.left_bindings == Map::<Zone, A>::empty(),
            r@.right_bindings == Map::<Zone, A>::empty(),
            r@.left_drag_handler is None,
            r@.right_drag_handler is None,
    {
        Self::new()
    }
}

} // verus!

//! The pointer gesture decisions of the app: when a press and release make a tap, when a
//! held pointer becomes a drag, and when a drag ends. Positions `P` and times `T` are
//! carried through unchanged; the distance and time comparisons on them are made by the
//! caller and handed in as booleans.
use vstd::prelude::*;

use crate::input::DragView;

verus! {

/// The pointer state kept between frames.
pub struct PointerTracker<P, T> {
    /// Where and when the primary button went down, while it is down.
    pub down: Option<(P, T)>,
    /// Whether the held pointer has moved past the drag threshold.
    pub drag_mode: bool,
    /// The view half the current drag started in.
    pub drag_view: Option<DragView>,
    /// The last pointer position seen during the current drag.
    pub last_drag: Option<P>,
    /// When the last accepted tap happened.
    pub last_tap: Option<T>,
}

/// What a frame of a held (or released) pointer asks of the active toy.
pub enum DragStep<P> {
    /// The pointer is no longer held: the drag state was cleared.
    Cleared,
    /// The pointer is held but there is nothing to report.
    Idle,
    /// The pointer drags: `started` is the view half when the drag began this frame, and
    /// `from` is the previous drag position, from which the drag delta is measured.
    Drag { started: Option<DragView>, from: Option<P> },
    /// The pointer is held in place.
    Hold,
}

/// A tracker with no press, no drag and no earlier tap.
pub open spec fn idle_tracker<P, T>(t: PointerTracker<P, T>) -> bool {
    &&& t.down is None
    &&& !t.drag_mode
    &&& t.drag_view is None
    &&& t.last_drag is None
    &&& t.last_tap is None
}

/// Whether a release at `time` is an accepted tap: the button had been pressed, the press
/// stayed within the tap limits, the UI does not claim the pointer, and no accepted tap
/// happened within the suppression window before it.
pub open spec fn accepts_tap<P, T>(
    prev: PointerTracker<P, T>,
    within_tap_limits: bool,
    ui_wants_pointer: bool,
    within_suppression: bool,
) -> bool {
    &&& prev.down is Some
    &&& within_tap_limits
    &&& !ui_wants_pointer
    &&& !(prev.last_tap is Some && within_suppression)
}

/// The tracker after one frame of pointer tracking (see `PointerTracker::track`).
pub open spec fn after_frame<P, T>(
    prev: PointerTracker<P, T>,
    held: bool,
    pos: Option<P>,
    beyond_threshold: bool,
    pressed_left_of_center: Option<bool>,
) -> (PointerTracker<P, T>, DragStep<P>) {
    if !held {
        (PointerTracker { drag_mode: false, drag_view: None, last_drag: None, ..prev }, DragStep::Cleared)
    } else if pos is None || prev.down is None {
        (prev, DragStep::Idle)
    } else {
        let p = pos->0;
        let starts = !prev.drag_mode && beyond_threshold;
        let started = if starts {
            match pressed_left_of_center {
                Some(left) => Some(if left { DragView::Left } else { DragView::Right }),
                None => None,
            }
        } else {
            None
        };
        let drag_view = if started is Some { started } else { prev.drag_view };
        let from = if starts { Some(p) } else { prev.last_drag };
        if prev.drag_mode || starts {
            (
                PointerTracker { drag_mode: true, drag_view, last_drag: Some(p), ..prev },
                DragStep::Drag { started, from },
            )
        } else {
            (prev, DragStep::Hold)
        }
    }
}

impl<P: Copy, T: Copy> PointerTracker<P, T> {
    /// A tracker with no press, no drag and no earlier tap.
    pub fn new() -> (r: Self)
        ensures
            idle_tracker(r),
    {
        PointerTracker { down: None, drag_mode: false, drag_view: None, last_drag: None, last_tap: None }
    }

    /// The primary button went down at `pos` at `time`.
    pub fn press(&mut self, pos: P, time: T)
        ensures
            *final(self) == (PointerTracker { down: Some((pos, time)), ..*old(self) }),
    {
        self.down = Some((pos, time));
    }

    /// The primary button went up at `time`. `within_tap_limits` says whether the pointer
    /// moved less than the tap distance and was held shorter than the tap time since the
    /// press; `within_suppression` whether `time` lies within the double-tap suppression
    /// window after the last accepted tap. Returns whether the release is an accepted tap,
    /// which is then recorded as the last tap. The press is forgotten in every case.
    pub fn release(
        &mut self,
        time: T,
        within_tap_limits: bool,
        ui_wants_pointer: bool,
        within_suppression: bool,
    ) -> (tap: bool)
        ensures
            tap == accepts_tap(*old(self), within_tap_limits, ui_wants_pointer, within_suppression),
            *final(self) == (PointerTracker {
                down: None,
                last_tap: if tap { Some(time) } else { old(self).last_tap },
                ..*old(self)
            }),
    {
        let is_tap = self.down.is_some() && within_tap_limits;
        self.down = None;
        if is_tap && !ui_wants_pointer {
            if self.last_tap.is_some() && within_suppression {
                return false;
            }
            self.last_tap = Some(time);
            return true;
        }
        false
    }

    /// One frame of pointer tracking. `held` says whether the primary button is down and
    /// the UI does not claim the pointer; `pos` is the pointer position, if known;
    /// `beyond_threshold` whether `pos` lies farther than the drag threshold from the
    /// press; `pressed_left_of_center` whether the press lies left of the center of the
    /// view area, `None` when that area is not known yet.
    pub fn track(
        &mut self,
        held: bool,
        pos: Option<P>,
        beyond_threshold: bool,
        pressed_left_of_center: Option<bool>,
    ) -> (step: DragStep<P>)
        ensures
            (*final(self), step) == after_frame(*old(self), held, pos, beyond_threshold, pressed_left_of_center),
    {
        if !held {
            self.drag_mode = false;
            self.drag_view = None;
            self.last_drag = None;
            return DragStep::Cleared;
        }
        let p = match pos {
            Some(p) => p,
            None => {
                return DragStep::Idle;
            },
        };
        if self.down.is_none() {
            return DragStep::Idle;
        }
        let mut started: Option<DragView> = None;
        if !self.drag_mode && beyond_threshold {
            self.drag_mode = true;
            self.last_drag = Some(p);
            if let Some(left) = pressed_left_of_center {
                let view = if left { DragView::Left } else { DragView::Right };
                self.drag_view = Some(view);
                started = Some(view);
            }
        }
        if self.drag_mode {
            let from = self.last_drag;
            self.last_drag = Some(p);
            DragStep::Drag { started, from }
        } else {
            DragStep::Hold
        }
    }
}

/// Once the drag threshold is passed, the gesture stays a drag while the pointer is held,
/// wherever the pointer is: a held frame with a known position reports a drag that started
/// earlier, measured from the previous drag position, and keeps everything else but the
/// drag position, which becomes the new one.
pub proof fn law_drag_persists_while_held<P, T>(
    t: PointerTracker<P, T>,
    pos: P,
    beyond_threshold: bool,
    pressed_left_of_center: Option<bool>,
)
    requires
        t.drag_mode,
        t.down is Some,
    ensures
        ({
            let (next, step) = after_frame(t, true, Some(pos), beyond_threshold, pressed_left_of_center);
            &&& next.drag_mode
            &&& step is Drag
            &&& next.last_drag == Some(pos)
            &&& next.drag_view == t.drag_view
            &&& step == DragStep::Drag { started: None, from: t.last_drag }
            &&& next == PointerTracker { last_drag: Some(pos), ..t }
        }),
{
}

/// The frame on which a held pointer first passes the drag threshold starts the drag: it
/// reports the view half the press lies in (when known) and a zero delta (measured from the
/// current position), and records drag mode, that view half and the position.
pub proof fn law_drag_starts_past_threshold<P, T>(t: PointerTracker<P, T>, pos: P, pressed_left_of_center: Option<bool>)
    requires
        !t.drag_mode,
        t.down is Some,
    ensures
        ({
            let view = match pressed_left_of_center {
                Some(true) => Some(DragView::Left),
                Some(false) => Some(DragView::Right),
                None => None,
            };
            let (next, step) = after_frame(t, true, Some(pos), true, pressed_left_of_center);
            &&& step == DragStep::Drag { started: view, from: Some(pos) }
            &&& next.drag_mode
            &&& next.last_drag == Some(pos)
            &&& next.drag_view == if view is Some { view } else { t.drag_view }
            &&& next.down == t.down && next.last_tap == t.last_tap
        }),
        after_frame(t, true, Some(pos), false, pressed_left_of_center) == (t, DragStep::<P>::Hold),
{
}

/// Letting go of the pointer ends any drag: drag mode, drag view and drag position are
/// cleared, and the press and the last tap are kept.
pub proof fn law_release_clears_drag<P, T>(
    t: PointerTracker<P, T>,
    pos: Option<P>,
    beyond_threshold: bool,
    pressed_left_of_center: Option<bool>,
)
    ensures
        ({
            let (next, step) = after_frame(t, false, pos, beyond_threshold, pressed_left_of_center);
            &&& !next.drag_mode
            &&& next.drag_view is None
            &&& next.last_drag is None
            &&& next.down == t.down
            &&& next.last_tap == t.last_tap
            &&& step is Cleared
        }),
{
}

/// A first quick press and release on a fresh tracker is a tap; a second one within the
/// suppression window after it is not.
pub proof fn law_double_tap_suppressed<P, T>(t: PointerTracker<P, T>, p1: P, t1: T, p2: P, t2: T)
    requires
        idle_tracker(t),
    ensures
        ({
            let pressed1 = PointerTracker { down: Some((p1, t1)), ..t };
            let after1 = PointerTracker { down: None, last_tap: Some(t1), ..pressed1 };
            let pressed2 = PointerTracker { down: Some((p2, t2)), ..after1 };
            &&& accepts_tap(pressed1, true, false, true)
            &&& !accepts_tap(pressed2, true, false, true)
            &&& accepts_tap(pressed2, true, false, false)
        }),
{
}

/// A release without a preceding press is never a tap.
pub proof fn law_no_tap_without_press<P, T>(
    t: PointerTracker<P, T>,
    within_tap_limits: bool,
    ui_wants_pointer: bool,
    within_suppression: bool,
)
    requires
        t.down is None,
    ensures
        !accepts_tap(t, within_tap_limits, ui_wants_pointer, within_suppression),
{
}

} // verus!

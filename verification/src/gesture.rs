//! The drag-gesture state machine.
//!
//! It consumes global pointer button events and decides when a
//! selection-producing drag has completed. A button-down arms the machine
//! with the press coordinates; a button-up disarms it and, when the pointer
//! moved beyond the click-noise threshold in either axis, yields the release
//! point at which an extraction should run. Anything else leaves the machine
//! untouched.

use vstd::prelude::*;
use vstd::math::abs;

verus! {

/// Movement of at most this many device pixels in both axes is treated as a
/// click, not a selection drag.
pub const DRAG_THRESHOLD: i32 = 5;

/// A global pointer event as the low-level hook reports it. Coordinates are
/// screen positions in device pixels.
#[derive(Clone, Copy, Debug, PartialEq, Eq, Structural)]
pub enum PointerEvent {
    /// The primary button was pressed at the given position.
    ButtonDown { x: i32, y: i32 },
    /// The primary button was released at the given position.
    ButtonUp { x: i32, y: i32 },
    /// Any other observed pointer activity, e.g. movement.
    Other,
}

/// The release point of a drag that qualified as a selection; extraction is
/// to be scheduled carrying these coordinates.
#[derive(Clone, Copy, Debug, PartialEq, Eq, Structural)]
pub struct QualifyingRelease {
    pub x: i32,
    pub y: i32,
}

/// The state of the gesture machine: idle, or dragging since a press at
/// `(start_x, start_y)`. The coordinates are meaningful only while
/// `dragging` is set; they keep their last value after a release.
#[derive(Clone, Copy, Debug, PartialEq, Eq, Structural)]
pub struct DragState {
    pub dragging: bool,
    pub start_x: i32,
    pub start_y: i32,
}

/// A press at `(x0, y0)` released at `(x1, y1)` qualifies as a selection
/// drag when the pointer moved more than the threshold in either axis.
pub open spec fn qualifies(x0: int, y0: int, x1: int, y1: int) -> bool {
    abs(x1 - x0) > DRAG_THRESHOLD || abs(y1 - y0) > DRAG_THRESHOLD
}

/// The successor state of the machine on one pointer event.
pub open spec fn gesture_next(s: DragState, ev: PointerEvent) -> DragState {
    match ev {
        PointerEvent::ButtonDown { x, y } => DragState { dragging: true, start_x: x, start_y: y },
        PointerEvent::ButtonUp { x: _, y: _ } => DragState { dragging: false, ..s },
        PointerEvent::Other => s,
    }
}

/// The extraction request, if any, that one pointer event produces: only a
/// button-up while dragging, with qualifying movement, produces one.
pub open spec fn gesture_release(s: DragState, ev: PointerEvent) -> Option<QualifyingRelease> {
    match ev {
        PointerEvent::ButtonUp { x, y } => if s.dragging && qualifies(
            s.start_x as int,
            s.start_y as int,
            x as int,
            y as int,
        ) {
            Some(QualifyingRelease { x, y })
        } else {
            None
        },
        _ => None,
    }
}

impl DragState {
    /// A fresh machine: idle, origin cleared.
    pub fn new() -> (s: DragState)
        ensures
            s == (DragState { dragging: false, start_x: 0, start_y: 0 }),
    {
        DragState { dragging: false, start_x: 0, start_y: 0 }
    }

    /// Feed one pointer event through the machine. Returns the release point
    /// of a completed qualifying drag, or nothing.
    pub fn on_event(&mut self, ev: PointerEvent) -> (r: Option<QualifyingRelease>)
        ensures
            *final(self) == gesture_next(*old(self), ev),
            r == gesture_release(*old(self), ev),
    {
        match ev {
            PointerEvent::ButtonDown { x, y } => {
                self.dragging = true;
                self.start_x = x;
                self.start_y = y;
                None
            },
            PointerEvent::ButtonUp { x, y } => {
                let was_dragging = self.dragging;
                self.dragging = false;
                if was_dragging && exceeds_threshold(self.start_x, self.start_y, x, y) {
                    Some(QualifyingRelease { x, y })
                } else {
                    None
                }
            },
            PointerEvent::Other => None,
        }
    }
}

/// Whether the movement from `(x0, y0)` to `(x1, y1)` exceeds the
/// click-noise threshold in either axis. Differences are taken in 64 bits,
/// so no coordinate pair overflows.
pub fn exceeds_threshold(x0: i32, y0: i32, x1: i32, y1: i32) -> (r: bool)
    ensures
        r == qualifies(x0 as int, y0 as int, x1 as int, y1 as int),
{
    let dx: i64 = (x1 as i64) - (x0 as i64);
    let dy: i64 = (y1 as i64) - (y0 as i64);
    let adx: i64 = if dx < 0 { -dx } else { dx };
    let ady: i64 = if dy < 0 { -dy } else { dy };
    adx > (DRAG_THRESHOLD as i64) || ady > (DRAG_THRESHOLD as i64)
}

/// A press and a release whose endpoints differ by at most the threshold in
/// both axes — a plain click — never request an extraction, whatever state
/// the machine was in before the press.
pub proof fn lemma_click_filtered(s: DragState, x0: i32, y0: i32, x1: i32, y1: i32)
    requires
        abs(x1 as int - x0 as int) <= DRAG_THRESHOLD,
        abs(y1 as int - y0 as int) <= DRAG_THRESHOLD,
    ensures
        (gesture_release(s, PointerEvent::ButtonDown { x: x0, y: y0 }) is None),
        (gesture_release(
            gesture_next(s, PointerEvent::ButtonDown { x: x0, y: y0 }),
            PointerEvent::ButtonUp { x: x1, y: y1 },
        ) is None),
{
}

/// A press and a release whose endpoints differ by more than the threshold
/// in some axis request exactly one extraction: none at the press, and one
/// carrying the release coordinates at the release.
pub proof fn lemma_drag_extracts_once(s: DragState, x0: i32, y0: i32, x1: i32, y1: i32)
    requires
        abs(x1 as int - x0 as int) > DRAG_THRESHOLD || abs(y1 as int - y0 as int)
            > DRAG_THRESHOLD,
    ensures
        (gesture_release(s, PointerEvent::ButtonDown { x: x0, y: y0 }) is None),
        (gesture_release(
            gesture_next(s, PointerEvent::ButtonDown { x: x0, y: y0 }),
            PointerEvent::ButtonUp { x: x1, y: y1 },
        ) == Some(QualifyingRelease { x: x1, y: y1 })),
        (!gesture_next(
            gesture_next(s, PointerEvent::ButtonDown { x: x0, y: y0 }),
            PointerEvent::ButtonUp { x: x1, y: y1 },
        ).dragging),
{
}

/// Only a button-up completes a drag: whenever an event produces an
/// extraction request, the event was a release, the machine was dragging,
/// and the movement from the recorded origin to the release point was
/// qualifying — no other event ever requests an extraction.
pub proof fn lemma_only_a_release_extracts(s: DragState, ev: PointerEvent)
    requires
        gesture_release(s, ev) is Some,
    ensures
        s.dragging,
        (ev matches PointerEvent::ButtonUp { x, y } && qualifies(
            s.start_x as int,
            s.start_y as int,
            x as int,
            y as int,
        ) && gesture_release(s, ev) == Some(QualifyingRelease { x, y })),
{
}

} // verus!

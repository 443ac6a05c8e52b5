//! Pointer events and the application-level state machine.
//!
//! A press is classified against the widget's bounds; the center button
//! answers with a shutdown intent for the outer loop to carry out, rather
//! than exiting from inside the core, and face and outer presses carry the
//! wall-clock time at which they happened. The state keeps the last seen
//! time and a render cache keyed on it: the cached frame is valid only for
//! the exact time it was drawn for, and a tick that changes the time
//! invalidates it before the next read.

use vstd::prelude::*;
use crate::region::{classify_point, point_region, Region};
use crate::time::{current_clock_time, ClockTime};

verus! {

/// Messages the clock widget produces for its application loop.
#[derive(Clone, Copy, Debug, PartialEq, Eq, Structural)]
pub enum ClockMessage {
    /// A new wall-clock snapshot from the periodic tick.
    Tick(ClockTime),
    /// The center button was pressed.
    CenterClick,
    /// The face was pressed, at the given time.
    FaceClick(ClockTime),
    /// A point beyond the face was pressed, at the given time.
    OuterClick(ClockTime),
}

impl ClockMessage {
    /// Any time a message carries is a well-formed snapshot.
    pub open spec fn wf(self) -> bool {
        match self {
            ClockMessage::Tick(t) => t.wf(),
            ClockMessage::CenterClick => true,
            ClockMessage::FaceClick(t) => t.wf(),
            ClockMessage::OuterClick(t) => t.wf(),
        }
    }
}

/// Whether the widget consumed a pointer event.
#[derive(Clone, Copy, Debug, PartialEq, Eq, Structural)]
pub enum EventStatus {
    Captured,
    Ignored,
}

/// What the application loop must do after an update. The center button's
/// process exit is returned as an intent, never performed by the core.
#[derive(Clone, Copy, Debug, PartialEq, Eq, Structural)]
pub enum Effect {
    /// Nothing to do.
    Nothing,
    /// Shut the application down: the center button was pressed.
    Shutdown,
    /// Report a press on the face at the given time.
    LogFace(ClockTime),
    /// Report a press beyond the face at the given time.
    LogOuter(ClockTime),
}

/// The pointer shape to show over each part of the widget.
#[derive(Clone, Copy, Debug, PartialEq, Eq, Structural)]
pub enum PointerShape {
    /// Over the center button.
    Crosshair,
    /// Over the face.
    Grabbing,
    /// Anywhere else: the platform's idle pointer.
    Idle,
}

/// A left press at `(px, py)` on a widget of `width` by `height` screen
/// units centered at `(cx, cy)`. Degenerate bounds give no classification
/// and the event is ignored; otherwise the event is captured and the message
/// follows the region — the center button asks for the shutdown intent, the
/// face and the outside report the press with the current wall-clock time.
/// Which time they carry depends on the platform clock; it is always a
/// well-formed snapshot.
pub fn press(cx: i32, cy: i32, px: i32, py: i32, width: u32, height: u32) -> (r: (
    EventStatus,
    Option<ClockMessage>,
))
    ensures
        width == 0 || height == 0 ==> r.0 == EventStatus::Ignored && r.1 is None,
        width > 0 && height > 0 ==> {
            let reg = point_region(
                px - cx,
                py - cy,
                if width <= height {
                    width as int
                } else {
                    height as int
                },
            );
            &&& r.0 == EventStatus::Captured
            &&& reg == Region::Center ==> r.1 == Some(ClockMessage::CenterClick)
            &&& reg == Region::Face ==> (r.1 matches Some(ClockMessage::FaceClick(t)) && t.wf())
            &&& reg == Region::Outside ==> (r.1 matches Some(ClockMessage::OuterClick(t))
                && t.wf())
        },
{
    match classify_point(cx, cy, px, py, width, height) {
        Option::None => (EventStatus::Ignored, Option::None),
        Option::Some(Region::Center) => (
            EventStatus::Captured,
            Option::Some(ClockMessage::CenterClick),
        ),
        Option::Some(Region::Face) => (
            EventStatus::Captured,
            Option::Some(ClockMessage::FaceClick(current_clock_time())),
        ),
        Option::Some(Region::Outside) => (
            EventStatus::Captured,
            Option::Some(ClockMessage::OuterClick(current_clock_time())),
        ),
    }
}

/// The pointer shape for a cursor at `(px, py)`: a crosshair over the center
/// button, a grabbing hand over the face, and the idle pointer beyond the
/// face or over a degenerate widget.
pub fn pointer_shape(cx: i32, cy: i32, px: i32, py: i32, width: u32, height: u32) -> (r:
    PointerShape)
    ensures
        width == 0 || height == 0 ==> r == PointerShape::Idle,
        width > 0 && height > 0 ==> r == ({
            let reg = point_region(
                px - cx,
                py - cy,
                if width <= height {
                    width as int
                } else {
                    height as int
                },
            );
            match reg {
                Region::Center => PointerShape::Crosshair,
                Region::Face => PointerShape::Grabbing,
                Region::Outside => PointerShape::Idle,
            }
        }),
{
    match classify_point(cx, cy, px, py, width, height) {
        Option::None => PointerShape::Idle,
        Option::Some(Region::Center) => PointerShape::Crosshair,
        Option::Some(Region::Face) => PointerShape::Grabbing,
        Option::Some(Region::Outside) => PointerShape::Idle,
    }
}

/// The widget's state between events: the last seen wall-clock snapshot and
/// the render cache, keyed on the time the cached frame was drawn for.
#[derive(Clone, Copy, Debug, PartialEq, Eq, Structural)]
pub struct ClockState {
    /// The current time, replaced wholesale on every tick that changes it.
    pub now: ClockTime,
    /// The time the cached frame was drawn for, if a frame is cached.
    pub cached: Option<ClockTime>,
}

impl ClockState {
    /// The cache never holds a frame for any time but the current one.
    pub open spec fn wf(self) -> bool {
        &&& self.now.wf()
        &&& (self.cached matches Some(t) ==> t == self.now)
    }

    /// A fresh widget: nothing rendered yet.
    pub fn new(now: ClockTime) -> (s: ClockState)
        requires
            now.wf(),
        ensures
            s.wf(),
            s.now == now,
            s.cached is None,
    {
        ClockState { now, cached: Option::None }
    }

    /// Record that a frame has just been drawn for the current time: the
    /// cache becomes valid for exactly that snapshot.
    pub fn mark_rendered(&mut self)
        requires
            old(self).wf(),
        ensures
            final(self).wf(),
            final(self).now == old(self).now,
            final(self).cached == Some(old(self).now),
    {
        self.cached = Option::Some(self.now);
    }
}

/// Apply one message to the state and say what the outer loop must do.
///
/// A tick that changes the time replaces the snapshot and invalidates the
/// render cache before the next read; a tick with an unchanged time leaves
/// the state — cache included — exactly as it was, so no frame is redrawn.
/// Presses never touch the state: the center button asks the loop to shut
/// down, face and outer presses ask it to report the press.
pub fn update(state: &mut ClockState, message: ClockMessage) -> (e: Effect)
    requires
        old(state).wf(),
        message.wf(),
    ensures
        final(state).wf(),
        match message {
            ClockMessage::Tick(t) => {
                &&& e == Effect::Nothing
                &&& final(state).now == t
                &&& (t == old(state).now ==> *final(state) == *old(state))
                &&& (t != old(state).now ==> final(state).cached is None)
            },
            ClockMessage::CenterClick => *final(state) == *old(state) && e == Effect::Shutdown,
            ClockMessage::FaceClick(t) => *final(state) == *old(state) && e == Effect::LogFace(t),
            ClockMessage::OuterClick(t) => *final(state) == *old(state) && e == Effect::LogOuter(
                t,
            ),
        },
{
    match message {
        ClockMessage::Tick(t) => {
            if t != state.now {
                state.now = t;
                state.cached = Option::None;
            }
            Effect::Nothing
        },
        ClockMessage::CenterClick => Effect::Shutdown,
        ClockMessage::FaceClick(t) => Effect::LogFace(t),
        ClockMessage::OuterClick(t) => Effect::LogOuter(t),
    }
}

} // verus!

//! The pointer-grab state machine for one color pick.
//!
//! While the grab is installed the pointer behaves normally — motion,
//! axis, frame and gesture events all pass through unchanged with focus
//! withheld — until the first button press, which fixes the pick point,
//! triggers sampling there, sends the one pending reply, and releases the
//! grab. A grab unset by the input system without a press runs the same
//! cleanup with an empty sample, so the reply channel is never left
//! dangling.

use vstd::prelude::*;
use crate::color::Rgba8;
use crate::geometry::LogicalPoint;
use crate::state::PickColorState;
use crate::protocol;
use crate::protocol::ProtocolStep;

verus! {

/// Metadata of the event sequence that started the grab.
#[derive(Clone, Copy, Debug, PartialEq, Eq, Structural)]
pub struct StartData {
    /// Serial of the input event the grab was installed for.
    pub serial: u32,
    /// Button held when the grab started, if any.
    pub button: Option<u32>,
    /// Pointer location when the grab started, in logical subpixels.
    pub location: LogicalPoint,
}

/// One pointer event kind the grab must respond to. Only a button press
/// carries pick semantics; every other kind is pure pass-through.
#[derive(Clone, Copy, Debug, PartialEq, Eq, Structural)]
pub enum PointerEvent {
    Motion { location: LogicalPoint },
    RelativeMotion,
    Button { pressed: bool, serial: u32, time_msec: u32 },
    Axis,
    Frame,
    GestureSwipeBegin,
    GestureSwipeUpdate,
    GestureSwipeEnd,
    GesturePinchBegin,
    GesturePinchUpdate,
    GesturePinchEnd,
    GestureHoldBegin,
    GestureHoldEnd,
}

/// What the input layer must do with an event the grab saw.
#[derive(Clone, Copy, Debug, PartialEq, Eq, Structural)]
pub enum GrabAction {
    /// Hand the event to the normal pointer path unchanged, with no
    /// surface focus while the grab is armed.
    Forward,
    /// A press resolved the grab: sample at `at`, send the pending
    /// reply, then unset the grab under this serial and time.
    Pick { at: LogicalPoint, serial: u32, time_msec: u32 },
}

/// Cleanup every grab teardown performs, resolved or cancelled.
#[derive(Clone, Copy, Debug, PartialEq, Eq, Structural)]
pub struct CleanupActions {
    /// A reply was still pending and has now been sent — with no color,
    /// since a teardown reaching the slot means no press resolved it.
    pub replied: bool,
    /// Reset the pointer cursor image to the default theme cursor.
    pub reset_cursor_to_default: bool,
    /// Queue a redraw of every output, removing the pick affordance.
    pub redraw_all_outputs: bool,
}

/// A transient grab bound to one input seat for the lifetime of one pick.
pub struct PickColorGrab {
    pub start_data: StartData,
    /// The definitive pick point, recorded at the first button press from
    /// the location tracked for the pointer at that moment.
    pub temporary_location: Option<LogicalPoint>,
}

impl PickColorGrab {
    /// A freshly installed, armed grab: no press seen yet.
    pub fn new(start_data: StartData) -> (g: PickColorGrab)
        ensures
            g.start_data == start_data,
            g.temporary_location is None,
    {
        PickColorGrab { start_data, temporary_location: None }
    }

    /// The metadata of the event sequence that started this grab.
    pub fn start_data(&self) -> (r: &StartData)
        ensures
            r == self.start_data,
    {
        &self.start_data
    }

    /// Dispatches one pointer event while armed. Every kind forwards
    /// unchanged except a button press, which records the tracked pointer
    /// location (`current_location`) as the definitive pick point and
    /// asks for resolution there. Button releases and all other kinds
    /// leave the grab untouched.
    pub fn dispatch(&mut self, current_location: LogicalPoint, event: &PointerEvent) -> (a:
        GrabAction)
        ensures
            (match *event {
                PointerEvent::Button { pressed, serial, time_msec } => {
                    if pressed {
                        &&& a == (GrabAction::Pick { at: current_location, serial, time_msec })
                        &&& final(self).temporary_location == Some(current_location)
                        &&& final(self).start_data == old(self).start_data
                    } else {
                        a == GrabAction::Forward && *final(self) == *old(self)
                    }
                },
                _ => a == GrabAction::Forward && *final(self) == *old(self),
            }),
    {
        match *event {
            PointerEvent::Button { pressed: true, serial, time_msec } => {
                self.temporary_location = Some(current_location);
                GrabAction::Pick { at: current_location, serial, time_msec }
            },
            _ => GrabAction::Forward,
        }
    }

    /// Step 3 of resolution: after sampling at the recorded pick point,
    /// sends the sample — `Some` or `None`, a sampler failure degrades to
    /// `None`, never to an error — on the pending reply channel, if one
    /// is still pending. The slot is empty afterwards, so the unset that
    /// must follow cannot send a second reply.
    pub fn complete_pick(&self, state: &mut PickColorState, sample: Option<Rgba8>) -> (replied:
        bool)
        requires
            self.temporary_location is Some,
        ensures
            !final(state).occupied(),
            replied == old(state).occupied(),
            final(state).hist@ == protocol::step(old(state).hist@, ProtocolStep::Resolve),
            final(state).tracks_model(),
    {
        state.send_pending_reply(sample).is_some()
    }

    /// The teardown hook, run whenever the grab is unset: by its own
    /// resolution or forcibly by the input system (seat teardown, a
    /// higher-priority grab). Any reply still pending is satisfied with
    /// `None`, the cursor is reset to the default theme cursor, and a
    /// redraw of all outputs is requested — so a pending channel is never
    /// left dangling, and a resolved pick (slot already empty) is not
    /// answered twice.
    pub fn unset(&mut self, state: &mut PickColorState) -> (c: CleanupActions)
        ensures
            !final(state).occupied(),
            c.replied == old(state).occupied(),
            c.reset_cursor_to_default,
            c.redraw_all_outputs,
            *final(self) == *old(self),
            final(state).hist@ == protocol::step(old(state).hist@, ProtocolStep::Resolve),
            final(state).tracks_model(),
    {
        self.on_ungrab(state)
    }

    fn on_ungrab(&mut self, state: &mut PickColorState) -> (c: CleanupActions)
        ensures
            !final(state).occupied(),
            c.replied == old(state).occupied(),
            c.reset_cursor_to_default,
            c.redraw_all_outputs,
            *final(self) == *old(self),
            final(state).hist@ == protocol::step(old(state).hist@, ProtocolStep::Resolve),
            final(state).tracks_model(),
    {
        let replied = state.send_pending_reply(None).is_some();
        CleanupActions { replied, reset_cursor_to_default: true, redraw_all_outputs: true }
    }
}

} // verus!

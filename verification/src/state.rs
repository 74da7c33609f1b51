//! The single pending-request slot owned by the compositor core.
//!
//! At most one color-pick request is outstanding; there is no queue. The
//! slot holds the reply-channel sender of the accepted request. It is
//! taken exactly once — by the grab on resolution or cancellation — and a
//! newer request replaces (drops) the older sender, whose receiver then
//! observes a closed channel.

use vstd::prelude::*;
use crate::color::Rgba8;
use crate::messages::NiriToColorPick;
use crate::protocol;
use crate::protocol::{ProtocolState, ProtocolStep};

verus! {

#[verifier::external_type_specification]
#[verifier::external_body]
#[verifier::reject_recursive_types(T)]
pub struct ExAsyncSender<T>(async_channel::Sender<T>);

/// Relies on `async_channel::Sender::send_blocking`: waits for room if
/// the channel is full (it never is here — one reply per sender), then
/// delivers the message, or returns it inside an error when the channel
/// is closed because the receiving side is gone. A disconnected caller
/// therefore never faults the core.
#[verifier::external_body]
fn send_reply(tx: &async_channel::Sender<NiriToColorPick>, msg: NiriToColorPick) -> (r: bool) {
    tx.send_blocking(msg).is_ok()
}

/// The compositor-core side of the color-pick protocol: the one optional
/// holder of "the channel end to reply on", together with the history of
/// the abstract protocol of [`crate::protocol`] that this slot has walked
/// through. Every operation advances the history by the matching step, so
/// the delivery laws proved there — exactly one reply per accepted,
/// non-overwritten request — are laws of this slot.
pub struct PickColorState {
    pub pending: Option<async_channel::Sender<NiriToColorPick>>,
    pub hist: Ghost<ProtocolState>,
}

impl PickColorState {
    /// A request is outstanding.
    pub open spec fn occupied(self) -> bool {
        self.pending is Some
    }

    /// The abstract history describes this slot: a request number is
    /// pending there exactly when a reply sender is pending here. Every
    /// operation preserves this unconditionally.
    pub open spec fn tracks_model(self) -> bool {
        self.occupied() == (self.hist@.pending is Some)
    }

    /// No request pending.
    pub fn new() -> (s: PickColorState)
        ensures
            !s.occupied(),
            s.hist@ == protocol::init(),
            s.tracks_model(),
    {
        PickColorState { pending: None, hist: Ghost(protocol::init()) }
    }

    /// Accepts a new pick request by storing its reply sender. A request
    /// still pending is overwritten: its sender is dropped without a
    /// value, which its receiver observes as a closed channel. This is
    /// the documented single-slot trade-off, not a queue.
    pub fn accept(&mut self, reply_tx: async_channel::Sender<NiriToColorPick>)
        ensures
            final(self).pending == Some(reply_tx),
            final(self).occupied(),
            final(self).hist@ == protocol::step(old(self).hist@, ProtocolStep::Accept),
            final(self).tracks_model(),
    {
        self.pending = Some(reply_tx);
        self.hist = Ghost(protocol::step(self.hist@, ProtocolStep::Accept));
    }

    /// Takes the pending reply sender, if any, and sends the sample on
    /// it. Returns `None` when no request was pending, `Some(delivered)`
    /// when one was; a failed delivery (the caller already disconnected)
    /// is reported but not escalated. Afterwards the slot is always
    /// empty, so a second resolution of the same request cannot send
    /// again.
    pub fn send_pending_reply(&mut self, sample: Option<Rgba8>) -> (r: Option<bool>)
        ensures
            !final(self).occupied(),
            r is Some <==> old(self).occupied(),
            final(self).hist@ == protocol::step(old(self).hist@, ProtocolStep::Resolve),
            final(self).tracks_model(),
    {
        let r = match self.pending.take() {
            Some(tx) => Some(send_reply(&tx, NiriToColorPick::ColorResult(sample))),
            None => None,
        };
        self.hist = Ghost(protocol::step(self.hist@, ProtocolStep::Resolve));
        r
    }
}

} // verus!

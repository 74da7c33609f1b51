//! An abstract model of the single-slot request/reply protocol, and the
//! delivery laws proved of it.
//!
//! Requests are numbered in order of acceptance. Accepting a request puts
//! its number in the slot, overwriting — and thereby permanently
//! silencing — any number still there. Resolving (a grab's button press
//! or teardown) replies once to the number in the slot and empties it.
//! The laws: a request that was accepted and never overwritten receives
//! exactly one reply once it leaves the slot; no request ever receives
//! two; an overwritten request never receives any, which its caller
//! observes as a dropped channel, not a hang.

use vstd::prelude::*;

verus! {

broadcast use vstd::map::group_map_axioms;

/// Abstract state of the protocol.
pub struct ProtocolState {
    /// Number of the request whose reply sender occupies the slot.
    pub pending: Option<nat>,
    /// How many requests have been accepted; they are numbered `0..accepted`.
    pub accepted: nat,
    /// Requests whose slot entry a newer request replaced.
    pub overwritten: Set<nat>,
    /// How many replies each accepted request has been sent.
    pub replies: Map<nat, nat>,
}

/// One observable step of the protocol.
#[derive(Clone, Copy, Debug, PartialEq, Eq, Structural)]
pub enum ProtocolStep {
    /// A new request is accepted into the slot.
    Accept,
    /// The grab resolves or is torn down: the slot, if occupied, is
    /// taken and its request replied to.
    Resolve,
}

/// No request yet.
pub open spec fn init() -> ProtocolState {
    ProtocolState {
        pending: None,
        accepted: 0,
        overwritten: Set::empty(),
        replies: Map::empty(),
    }
}

/// The protocol's transition function.
pub open spec fn step(s: ProtocolState, e: ProtocolStep) -> ProtocolState {
    match e {
        ProtocolStep::Accept => ProtocolState {
            pending: Some(s.accepted),
            accepted: s.accepted + 1,
            overwritten: match s.pending {
                Some(i) => s.overwritten.insert(i),
                None => s.overwritten,
            },
            replies: s.replies.insert(s.accepted, 0),
        },
        ProtocolStep::Resolve => match s.pending {
            Some(i) => ProtocolState {
                pending: None,
                accepted: s.accepted,
                overwritten: s.overwritten,
                replies: s.replies.insert(i, (s.replies[i] + 1) as nat),
            },
            None => s,
        },
    }
}

/// The state a whole trace of steps reaches from the initial state.
pub open spec fn run(trace: Seq<ProtocolStep>) -> ProtocolState
    decreases trace.len(),
{
    if trace.len() == 0 {
        init()
    } else {
        step(run(trace.drop_last()), trace.last())
    }
}

/// The protocol invariant: the slot only holds a live accepted request
/// that has not been replied to; every accepted request has exactly one
/// reply once it is neither pending nor overwritten, none while pending
/// or once overwritten, and never more than one.
pub open spec fn inv(s: ProtocolState) -> bool {
    &&& (match s.pending {
        Some(i) => i < s.accepted && !s.overwritten.contains(i) && s.replies[i] == 0,
        None => true,
    })
    &&& (forall|i: nat| s.overwritten.contains(i) ==> i < s.accepted)
    &&& (forall|i: nat|
        #![trigger s.replies[i]]
        i < s.accepted ==> {
            &&& (s.overwritten.contains(i) ==> s.replies[i] == 0)
            &&& (!s.overwritten.contains(i) && s.pending != Some(i) ==> s.replies[i] == 1)
            &&& s.replies[i] <= 1
        })
}

/// Every step preserves the invariant.
pub proof fn lemma_step_preserves_inv(s: ProtocolState, e: ProtocolStep)
    requires
        inv(s),
    ensures
        inv(step(s, e)),
{
    let t = step(s, e);
    match e {
        ProtocolStep::Accept => {
            assert forall|i: nat| #![trigger t.replies[i]] i < t.accepted implies {
                &&& (t.overwritten.contains(i) ==> t.replies[i] == 0)
                &&& (!t.overwritten.contains(i) && t.pending != Some(i) ==> t.replies[i] == 1)
                &&& t.replies[i] <= 1
            } by {
                assert(!t.overwritten.contains(s.accepted));
                if i < s.accepted {
                    assert(s.replies[i] <= 1);
                    assert(t.replies[i] == s.replies[i]);
                    assert(t.overwritten.contains(i) ==> s.overwritten.contains(i) || s.pending
                        == Some(i));
                } else {
                    assert(t.replies[i] == 0);
                }
            }
            assert(!t.overwritten.contains(s.accepted));
        },
        ProtocolStep::Resolve => {
            match s.pending {
                Some(p) => {
                    assert forall|i: nat| #![trigger t.replies[i]] i < t.accepted implies {
                        &&& (t.overwritten.contains(i) ==> t.replies[i] == 0)
                        &&& (!t.overwritten.contains(i) && t.pending != Some(i) ==> t.replies[i]
                            == 1)
                        &&& t.replies[i] <= 1
                    } by {
                        if i != p {
                            assert(t.replies[i] == s.replies[i]);
                        }
                    }
                },
                None => {},
            }
        },
    }
}

/// Every reachable state satisfies the invariant.
pub proof fn lemma_run_inv(trace: Seq<ProtocolStep>)
    ensures
        inv(run(trace)),
    decreases trace.len(),
{
    if trace.len() > 0 {
        lemma_run_inv(trace.drop_last());
        lemma_step_preserves_inv(run(trace.drop_last()), trace.last());
    }
}

/// Exactly one reply is ever sent per accepted request that was not
/// overwritten, once it is out of the slot: no duplicate sends, no
/// silent drops for a resolved grab.
pub proof fn lemma_exactly_once(trace: Seq<ProtocolStep>, id: nat)
    requires
        id < run(trace).accepted,
        !run(trace).overwritten.contains(id),
        run(trace).pending != Some(id),
    ensures
        run(trace).replies[id] == 1,
{
    lemma_run_inv(trace);
}

/// No request is ever sent a second reply, in any reachable state.
pub proof fn lemma_no_duplicate_reply(trace: Seq<ProtocolStep>, id: nat)
    requires
        id < run(trace).accepted,
    ensures
        run(trace).replies[id] <= 1,
{
    lemma_run_inv(trace);
}

/// A resolved grab's whole lifecycle sends exactly one reply: the press
/// resolves the pending request, and the unset hook that must follow
/// resolves again — finding the slot empty, so nothing more is sent.
pub proof fn lemma_resolution_then_unset_replies_once(s: ProtocolState, id: nat)
    requires
        inv(s),
        s.pending == Some(id),
    ensures
        step(step(s, ProtocolStep::Resolve), ProtocolStep::Resolve).replies[id] == 1,
{
}

/// A request overwritten by a newer one is never replied to: its reply
/// channel is dropped instead, which its caller observes as a receive
/// error — an internal-error outcome, not a hang.
pub proof fn lemma_overwritten_never_replied(trace: Seq<ProtocolStep>, id: nat)
    requires
        run(trace).overwritten.contains(id),
    ensures
        run(trace).replies[id] == 0,
{
    lemma_run_inv(trace);
}

} // verus!

//! The bus-facing side of the request/reply bridge.
//!
//! One `pick_color` call sends one trigger to the core and then awaits
//! exactly one reply; the await itself happens in the asynchronous bus
//! layer, which hands the received message (or the fact that the channel
//! closed) to the decision functions here. One request yields exactly one
//! terminal outcome — a color, the recoverable "no color picked", or an
//! internal error — and the bridge never retries.

use vstd::prelude::*;
use crate::messages::{ColorPickToNiri, NiriToColorPick, NiriToScreenshot, ScreenshotToNiri};

verus! {

#[verifier::external_type_specification]
#[verifier::external_body]
#[verifier::reject_recursive_types(T)]
pub struct ExCalloopSender<T>(calloop::channel::Sender<T>);

/// Relies on `calloop::channel::Sender::send`: queues the message for the
/// compositor event loop and wakes it, or returns the message inside an
/// error when the loop side of the channel is gone. It never blocks the
/// caller.
#[verifier::external_body]
fn send_to_core<T>(tx: &calloop::channel::Sender<T>, msg: T) -> (r: bool) {
    tx.send(msg).is_ok()
}

/// The one terminal outcome of a `pick_color` call. The picked channels
/// are the first three bytes of the sampled pixel; the bus layer
/// normalizes each to `byte / 255.0` on the wire, so the verified core
/// never leaves integer arithmetic.
#[derive(Clone, Copy, Debug, PartialEq, Eq, Structural)]
pub enum PickColorOutcome {
    Picked { r: u8, g: u8, b: u8 },
    /// The interaction completed but produced no value: recoverable,
    /// distinct from an internal error.
    NoColorPicked,
    /// A channel fault: the core shut down, or this request's pending
    /// slot was overwritten by a newer request.
    InternalError,
}

/// The one terminal outcome of a `screenshot` call.
#[derive(Debug, PartialEq, Eq)]
pub enum ScreenshotOutcome {
    Saved { filename: String },
    InternalError,
}

/// Step 1 of `pick_color`: enqueue the trigger for the core. `Err` —
/// always the internal-error outcome — exactly when the request could
/// not be handed over; the caller then sees a generic failure and no
/// reply is awaited.
pub fn submit_pick_request(tx: &calloop::channel::Sender<ColorPickToNiri>) -> (r: Result<
    (),
    PickColorOutcome,
>)
    ensures
        r matches Err(o) ==> o == PickColorOutcome::InternalError,
{
    if send_to_core(tx, ColorPickToNiri::PickColor) {
        Ok(())
    } else {
        Err(PickColorOutcome::InternalError)
    }
}

/// Step 1 of `screenshot`: enqueue the capture request for the core,
/// with its include-cursor flag. `Err` — the internal-error outcome —
/// exactly when the hand-over failed.
pub fn submit_screenshot_request(
    tx: &calloop::channel::Sender<ScreenshotToNiri>,
    include_cursor: bool,
) -> (r: Result<(), ScreenshotOutcome>)
    ensures
        r matches Err(o) ==> o == ScreenshotOutcome::InternalError,
{
    if send_to_core(tx, ScreenshotToNiri::TakeScreenshot { include_cursor }) {
        Ok(())
    } else {
        Err(ScreenshotOutcome::InternalError)
    }
}

/// Step 2 of `pick_color`: the one awaited reply, or `None` when the
/// receive failed because the reply sender was dropped — the core shut
/// down or a newer request overwrote this one's slot. A sampled pixel
/// becomes its first three channels; an empty sample is the recoverable
/// "no color picked"; a dropped channel is an internal error, never a
/// hang.
pub fn pick_color_outcome(reply: Option<NiriToColorPick>) -> (o: PickColorOutcome)
    ensures
        (match reply {
            Some(NiriToColorPick::ColorResult(Some(px))) => o == (PickColorOutcome::Picked {
                r: px.r,
                g: px.g,
                b: px.b,
            }),
            Some(NiriToColorPick::ColorResult(None)) => o == PickColorOutcome::NoColorPicked,
            None => o == PickColorOutcome::InternalError,
        }),
{
    match reply {
        Some(NiriToColorPick::ColorResult(Some(px))) => PickColorOutcome::Picked {
            r: px.r,
            g: px.g,
            b: px.b,
        },
        Some(NiriToColorPick::ColorResult(None)) => PickColorOutcome::NoColorPicked,
        None => PickColorOutcome::InternalError,
    }
}

/// Step 2 of `screenshot`: a reply naming the written file succeeds;
/// a reply without one, and a failed receive, are both internal errors.
pub fn screenshot_outcome(reply: Option<NiriToScreenshot>) -> (o: ScreenshotOutcome)
    ensures
        (match reply {
            Some(NiriToScreenshot::ScreenshotResult(Some(f))) => o == (ScreenshotOutcome::Saved {
                filename: f,
            }),
            Some(NiriToScreenshot::ScreenshotResult(None)) => o == ScreenshotOutcome::InternalError,
            None => o == ScreenshotOutcome::InternalError,
        }),
{
    match reply {
        Some(NiriToScreenshot::ScreenshotResult(Some(f))) => ScreenshotOutcome::Saved {
            filename: f,
        },
        Some(NiriToScreenshot::ScreenshotResult(None)) => ScreenshotOutcome::InternalError,
        None => ScreenshotOutcome::InternalError,
    }
}

} // verus!

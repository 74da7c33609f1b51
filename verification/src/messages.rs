//! The two-message channel protocol between the bus service and the
//! compositor core: one request kind and one reply kind per feature,
//! on separate channel pairs, so no reply variant can reach the wrong
//! awaiter.

use vstd::prelude::*;
use crate::color::Rgba8;

verus! {

/// Request to the core: capture a screenshot.
#[derive(Clone, Copy, Debug, PartialEq, Eq)]
pub enum ScreenshotToNiri {
    TakeScreenshot { include_cursor: bool },
}

/// Reply from the core: the file the screenshot was written to, if any.
#[derive(Debug, PartialEq, Eq)]
pub enum NiriToScreenshot {
    ScreenshotResult(Option<String>),
}

/// Request to the core: start a color pick. Carries no payload; it is a
/// trigger only.
#[derive(Clone, Copy, Debug, PartialEq, Eq)]
pub enum ColorPickToNiri {
    PickColor,
}

/// Reply from the core: the sampled pixel, or `None` when the grab ended
/// without a sample.
#[derive(Clone, Copy, Debug, PartialEq, Eq, Structural)]
pub enum NiriToColorPick {
    ColorResult(Option<Rgba8>),
}

} // verus!

//! Verified core of a compositor's screen color picker.
//!
//! A user points at any on-screen pixel and an external desktop-bus service
//! receives that pixel's composited color. The crate verifies the three
//! pieces of logic this takes:
//!
//! - the single-pixel sampler: resolving the output under a logical-space
//!   point, converting to that output's physical pixel space under fractional
//!   scaling, and interpreting the renderer's 4-byte read-back;
//! - the pointer-grab state machine: pass-through of all pointer events
//!   except a button press, which resolves the pick;
//! - the request/reply protocol around the single pending-request slot:
//!   exactly one reply per accepted request that is not overwritten.
//!
//! Event-loop plumbing, GPU rendering and the bus connection stay outside;
//! the channel endpoints they share with the core are called through the
//! trusted wrappers in `state` and `bridge`.

pub mod color;
pub mod geometry;
pub mod outputs;
pub mod sampler;
pub mod messages;
pub mod state;
pub mod grab;
pub mod bridge;
pub mod protocol;

//! The sampled pixel value and the shared read-back pixel format.

use vstd::prelude::*;

verus! {

/// The pixel format every sample is read back in: the DRM fourcc code for
/// ABGR8888, a packed 32-bit little-endian value whose bytes in memory are
/// R, G, B, A. `Rgba8::from_bytes` interprets read-back bytes in exactly
/// this order; the renderer call must request this same format, so the byte
/// order is fixed in one place rather than re-derived per call.
pub const SAMPLE_FORMAT_ABGR8888: u32 = 0x34324241;

/// One sampled pixel: four 8-bit channels, in the byte order of
/// [`SAMPLE_FORMAT_ABGR8888`].
#[derive(Clone, Copy, Debug, PartialEq, Eq, Structural)]
pub struct Rgba8 {
    pub r: u8,
    pub g: u8,
    pub b: u8,
    pub a: u8,
}

/// The pixel a 4-byte read-back buffer denotes, channel by channel in the
/// byte order of [`SAMPLE_FORMAT_ABGR8888`].
pub open spec fn pixel_of(s: Seq<u8>) -> Rgba8 {
    Rgba8 { r: s[0], g: s[1], b: s[2], a: s[3] }
}

impl Rgba8 {
    /// Interprets a renderer read-back buffer as one pixel.
    ///
    /// A well-formed read-back of a 1x1 viewport in a 4-byte-per-pixel
    /// format is exactly 4 bytes; anything else is treated as a failed
    /// sample, never as a partial pixel.
    pub fn from_bytes(bytes: &Vec<u8>) -> (r: Option<Rgba8>)
        ensures
            r is Some <==> bytes@.len() == 4,
            bytes@.len() == 4 ==> r == Some(pixel_of(bytes@)),
    {
        if bytes.len() == 4 {
            Some(Rgba8 { r: bytes[0], g: bytes[1], b: bytes[2], a: bytes[3] })
        } else {
            None
        }
    }
}

} // verus!

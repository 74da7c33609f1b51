//! The single-pixel sampler's decision logic.
//!
//! Sampling re-renders a 1x1 physical viewport instead of reading back a
//! full frame: every render element of the normal compositing path is kept
//! in its normal stacking order and translated by the relocation offset
//! computed here, so the target pixel lands at the viewport origin. The
//! composite call itself runs on the renderer outside this crate; this
//! module decides where to sample ([`plan`]) and what a read-back means
//! ([`finish`]).

use vstd::prelude::*;
use crate::color::{pixel_of, Rgba8};
use crate::geometry::{to_physical_round, physical_of, LogicalPoint, PhysicalPoint};
use crate::outputs::{all_well_formed, output_under, Output, Transform};

verus! {

/// Everything the renderer call needs for one sample: which output to
/// composite, the device pixel under the cursor, and the offset by which
/// every render element is translated so that pixel lands at the origin
/// of the 1x1 viewport.
#[derive(Clone, Copy, Debug, PartialEq, Eq, Structural)]
pub struct SampleSpot {
    pub output_index: usize,
    pub pixel: PhysicalPoint,
    pub relocation: PhysicalPoint,
    pub scale_120: i64,
    pub transform: Transform,
}

/// The spot a plan must name for output `i` of `outputs` under point `p`:
/// the point's output-local position converted to device pixels under that
/// output's fractional scale, and the relocation that negates it.
pub open spec fn spot_for(outputs: Seq<Output>, i: int, p: LogicalPoint) -> SampleSpot {
    let o = outputs[i];
    let local = o.local_spec(p);
    let px = physical_of(local.x as int, o.scale_120 as int);
    let py = physical_of(local.y as int, o.scale_120 as int);
    SampleSpot {
        output_index: i as usize,
        pixel: PhysicalPoint { x: px as i64, y: py as i64 },
        relocation: PhysicalPoint { x: -px as i64, y: -py as i64 },
        scale_120: o.scale_120,
        transform: o.transform,
    }
}

/// Plans one sample at logical point `p`: resolves the first output whose
/// bounds contain `p` and converts to its device-pixel space. Returns
/// `None` exactly when no output contains the point, in which case no
/// render happens and the sample degrades to no pixel.
pub fn plan(outputs: &Vec<Output>, p: LogicalPoint) -> (r: Option<SampleSpot>)
    requires
        all_well_formed(outputs@),
        p.in_range(),
    ensures
        (r is None) <==> (forall|j: int|
            0 <= j < outputs@.len() ==> !outputs@[j].contains_spec(p)),
        match r {
            Some(s) => {
                &&& s.output_index < outputs@.len()
                &&& outputs@[s.output_index as int].contains_spec(p)
                &&& forall|j: int|
                    0 <= j < s.output_index ==> !outputs@[j].contains_spec(p)
                &&& s == spot_for(outputs@, s.output_index as int, p)
            },
            None => true,
        },
{
    match output_under(outputs, p) {
        Some((i, local)) => {
            let o = &outputs[i];
            let pixel = to_physical_round(local, o.scale_120);
            Some(SampleSpot {
                output_index: i,
                pixel,
                relocation: PhysicalPoint { x: -pixel.x, y: -pixel.y },
                scale_120: o.scale_120,
                transform: o.transform,
            })
        },
        None => None,
    }
}

/// Largest element-location magnitude the relocation accepts; the
/// relocation offset a plan produces is far below it, so the translated
/// locations cannot overflow.
pub const MAX_ELEMENT_COORD: i64 = 0x100_0000_0000;

/// Re-anchors the frame's render element list for the 1x1 viewport:
/// every element location is translated by the relocation offset, so the
/// target pixel lands at the origin, and the list is reversed exactly
/// once — the compositing path hands elements front-to-back, the
/// offscreen composite consumes them back-to-front — so stacking and
/// alpha blending match what a full-frame render would show at that
/// pixel.
pub fn relocate_elements(locations: &Vec<PhysicalPoint>, offset: PhysicalPoint) -> (r: Vec<
    PhysicalPoint,
>)
    requires
        -MAX_ELEMENT_COORD <= offset.x <= MAX_ELEMENT_COORD,
        -MAX_ELEMENT_COORD <= offset.y <= MAX_ELEMENT_COORD,
        forall|k: int| #![trigger locations@[k]] 0 <= k < locations@.len() ==> {
            &&& -MAX_ELEMENT_COORD <= locations@[k].x <= MAX_ELEMENT_COORD
            &&& -MAX_ELEMENT_COORD <= locations@[k].y <= MAX_ELEMENT_COORD
        },
    ensures
        r@.len() == locations@.len(),
        forall|k: int| #![trigger r@[k]] 0 <= k < r@.len() ==> {
            let src = locations@[locations@.len() - 1 - k];
            r@[k] == (PhysicalPoint { x: (src.x + offset.x) as i64, y: (src.y + offset.y) as i64 })
        },
{
    let n = locations.len();
    let mut r: Vec<PhysicalPoint> = Vec::new();
    let mut k: usize = 0;
    while k < n
        invariant
            n == locations@.len(),
            k <= n,
            r@.len() == k,
            -MAX_ELEMENT_COORD <= offset.x <= MAX_ELEMENT_COORD,
            -MAX_ELEMENT_COORD <= offset.y <= MAX_ELEMENT_COORD,
            forall|j: int| #![trigger locations@[j]] 0 <= j < locations@.len() ==> {
                &&& -MAX_ELEMENT_COORD <= locations@[j].x <= MAX_ELEMENT_COORD
                &&& -MAX_ELEMENT_COORD <= locations@[j].y <= MAX_ELEMENT_COORD
            },
            forall|j: int| #![trigger r@[j]] 0 <= j < k ==> {
                let src = locations@[locations@.len() - 1 - j];
                r@[j] == (PhysicalPoint {
                    x: (src.x + offset.x) as i64,
                    y: (src.y + offset.y) as i64,
                })
            },
        decreases n - k,
    {
        let src = locations[n - 1 - k];
        r.push(PhysicalPoint { x: src.x + offset.x, y: src.y + offset.y });
        k += 1;
    }
    r
}

/// Interprets the outcome of the renderer call for a planned spot:
/// `None` if the render failed or the read-back is not exactly the 4
/// bytes of one pixel, otherwise the pixel in the shared byte order.
/// Sampling therefore yields a whole 4-channel pixel or nothing, never a
/// partial one.
pub fn finish(readback: Option<Vec<u8>>) -> (r: Option<Rgba8>)
    ensures
        match readback {
            Some(bytes) => {
                &&& (r is Some <==> bytes@.len() == 4)
                &&& bytes@.len() == 4 ==> r == Some(pixel_of(bytes@))
            },
            None => r is None,
        },
{
    match readback {
        Some(bytes) => Rgba8::from_bytes(&bytes),
        None => None,
    }
}

} // verus!

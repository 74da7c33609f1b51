//! Outputs: logical geometry, fractional scale, transform, and resolving
//! which output lies under a logical-space point.

use vstd::prelude::*;
use crate::geometry::{LogicalPoint, MAX_COORD, MAX_SCALE_120, UNIT};

verus! {

/// An output's rotation/flip transform. The sampler carries it through to
/// the renderer unchanged; it takes no part in the scale conversion.
#[derive(Clone, Copy, Debug, PartialEq, Eq, Structural)]
pub enum Transform {
    Normal,
    Rotated90,
    Rotated180,
    Rotated270,
    Flipped,
    Flipped90,
    Flipped180,
    Flipped270,
}

/// An axis-aligned rectangle in whole logical pixels.
#[derive(Clone, Copy, Debug, PartialEq, Eq, Structural)]
pub struct Rect {
    pub x: i64,
    pub y: i64,
    pub w: i64,
    pub h: i64,
}

/// One display device: its logical-space geometry, its current fractional
/// scale in 1/120ths, and its current transform.
#[derive(Clone, Copy, Debug, PartialEq, Eq, Structural)]
pub struct Output {
    pub geometry: Rect,
    pub scale_120: i64,
    pub transform: Transform,
}

impl Output {
    /// A usable output: positive extent, a positive bounded scale, and
    /// geometry whose subpixel coordinates stay in conversion range.
    pub open spec fn well_formed(self) -> bool {
        &&& 0 < self.geometry.w
        &&& 0 < self.geometry.h
        &&& 0 < self.scale_120 <= MAX_SCALE_120
        &&& self.geometry.w * UNIT <= MAX_COORD
        &&& self.geometry.h * UNIT <= MAX_COORD
        &&& -MAX_COORD <= self.geometry.x * UNIT
        &&& (self.geometry.x + self.geometry.w) * UNIT <= MAX_COORD
        &&& -MAX_COORD <= self.geometry.y * UNIT
        &&& (self.geometry.y + self.geometry.h) * UNIT <= MAX_COORD
    }

    /// The point lies inside this output's logical bounds (left/top edge
    /// inclusive, right/bottom edge exclusive), compared in subpixels.
    pub open spec fn contains_spec(self, p: LogicalPoint) -> bool {
        &&& self.geometry.x * UNIT <= p.x < (self.geometry.x + self.geometry.w) * UNIT
        &&& self.geometry.y * UNIT <= p.y < (self.geometry.y + self.geometry.h) * UNIT
    }

    /// The point relative to this output's top-left corner, in subpixels.
    pub open spec fn local_spec(self, p: LogicalPoint) -> LogicalPoint {
        LogicalPoint {
            x: (p.x - self.geometry.x * UNIT) as i64,
            y: (p.y - self.geometry.y * UNIT) as i64,
        }
    }

    /// Containment test matching `contains_spec`.
    pub fn contains(&self, p: LogicalPoint) -> (r: bool)
        requires
            self.well_formed(),
            p.in_range(),
        ensures
            r == self.contains_spec(p),
    {
        let left: i64 = self.geometry.x * UNIT;
        let right: i64 = (self.geometry.x + self.geometry.w) * UNIT;
        let top: i64 = self.geometry.y * UNIT;
        let bottom: i64 = (self.geometry.y + self.geometry.h) * UNIT;
        left <= p.x && p.x < right && top <= p.y && p.y < bottom
    }
}

/// All outputs in the list are well-formed.
pub open spec fn all_well_formed(outputs: Seq<Output>) -> bool {
    forall|i: int| 0 <= i < outputs.len() ==> outputs[i].well_formed()
}

/// Resolves the output under a logical-space point: the first output in
/// the list whose bounds contain the point, together with the point's
/// output-local position. `None` exactly when no output contains it.
pub fn output_under(outputs: &Vec<Output>, p: LogicalPoint) -> (r: Option<(usize, LogicalPoint)>)
    requires
        all_well_formed(outputs@),
        p.in_range(),
    ensures
        match r {
            Some((i, local)) => {
                &&& i < outputs@.len()
                &&& outputs@[i as int].contains_spec(p)
                &&& forall|j: int| 0 <= j < i ==> !outputs@[j].contains_spec(p)
                &&& local == outputs@[i as int].local_spec(p)
                &&& 0 <= local.x
                &&& 0 <= local.y
                &&& local.in_range()
            },
            None => forall|j: int| 0 <= j < outputs@.len() ==> !outputs@[j].contains_spec(p),
        },
{
    let mut i: usize = 0;
    while i < outputs.len()
        invariant
            all_well_formed(outputs@),
            p.in_range(),
            i <= outputs@.len(),
            forall|j: int| 0 <= j < i ==> !outputs@[j].contains_spec(p),
        decreases outputs@.len() - i,
    {
        let o = &outputs[i];
        if o.contains(p) {
            let local = LogicalPoint {
                x: p.x - o.geometry.x * UNIT,
                y: p.y - o.geometry.y * UNIT,
            };
            return Some((i, local));
        }
        i += 1;
    }
    None
}

} // verus!

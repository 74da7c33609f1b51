//! Coordinate spaces and the logical-to-physical pixel conversion.
//!
//! Logical coordinates are held in fixed-point subpixel units of 1/120
//! logical pixel, and an output's fractional scale as scale x 120, the
//! granularity of the fractional-scale protocol. Both are exact integers,
//! so the conversion to device pixels is plain integer arithmetic:
//! `physical = round(subpixels * scale_120 / (120 * 120))`, rounded to the
//! nearest pixel (ties away from zero) rather than truncated, to avoid a
//! systematic half-pixel bias.

use vstd::prelude::*;

verus! {

/// Subpixel units per logical pixel, and scale units per 1.0 of scale.
pub const UNIT: i64 = 120;

/// Largest coordinate magnitude, in subpixel units, the conversion accepts.
pub const MAX_COORD: i64 = 0x4000_0000;

/// Largest accepted scale, in 1/120ths: a fractional scale of 1000.
pub const MAX_SCALE_120: i64 = 120_000;

/// A point in logical space, in subpixel units of 1/120 logical pixel.
#[derive(Clone, Copy, Debug, PartialEq, Eq, Structural)]
pub struct LogicalPoint {
    pub x: i64,
    pub y: i64,
}

/// A point in one output's device-pixel space.
#[derive(Clone, Copy, Debug, PartialEq, Eq, Structural)]
pub struct PhysicalPoint {
    pub x: i64,
    pub y: i64,
}

impl LogicalPoint {
    /// The point lies within the coordinate range the conversion accepts.
    pub open spec fn in_range(self) -> bool {
        -MAX_COORD <= self.x <= MAX_COORD && -MAX_COORD <= self.y <= MAX_COORD
    }

    /// Constructs a point from whole logical pixels.
    pub fn from_pixels(x: i64, y: i64) -> (p: LogicalPoint)
        requires
            -0x80_0000 <= x <= 0x80_0000,
            -0x80_0000 <= y <= 0x80_0000,
        ensures
            p.x == x * UNIT,
            p.y == y * UNIT,
            p.in_range(),
    {
        LogicalPoint { x: x * UNIT, y: y * UNIT }
    }
}

/// `a / b` rounded to the nearest integer, ties rounded up, for `a >= 0`
/// and `b > 0`: the integer nearest to the exact quotient.
pub open spec fn round_half_up(a: int, b: int) -> int
    recommends
        0 <= a,
        0 < b,
{
    (2 * a + b) / (2 * b)
}

/// The nearest integer is within half a unit of the exact quotient:
/// `|round_half_up(a, b) * b - a| <= b / 2`, stated without division as
/// `-b <= 2 * (r * b - a) <= b`.
pub proof fn lemma_round_half_up_nearest(a: int, b: int)
    requires
        0 <= a,
        0 < b,
    ensures
        -b <= 2 * (round_half_up(a, b) * b - a),
        2 * (round_half_up(a, b) * b - a) <= b,
{
    let q = (2 * a + b) / (2 * b);
    let r = (2 * a + b) % (2 * b);
    vstd::arithmetic::div_mod::lemma_fundamental_div_mod(2 * a + b, 2 * b);
    vstd::arithmetic::div_mod::lemma_mod_bound(2 * a + b, 2 * b);
    assert(2 * (q * b - a) == b - r) by (nonlinear_arith)
        requires
            2 * a + b == 2 * b * q + r,
    ;
}

/// An exact multiple rounds to itself.
pub proof fn lemma_round_half_up_exact(k: int, b: int)
    requires
        0 <= k,
        0 < b,
    ensures
        round_half_up(k * b, b) == k,
{
    let a = k * b;
    assert(2 * a + b == (2 * b) * k + b) by (nonlinear_arith)
        requires
            a == k * b,
    ;
    vstd::arithmetic::div_mod::lemma_div_multiples_vanish_fancy(k, b, 2 * b);
}

/// One axis of the logical-to-physical conversion: `v` subpixels under a
/// fractional scale of `scale_120 / 120` land on this device pixel.
pub open spec fn physical_of(v: int, scale_120: int) -> int
    recommends
        0 <= v,
        0 < scale_120,
{
    round_half_up(v * scale_120, (UNIT * UNIT) as int)
}

/// Converts a nonnegative output-local logical point to device pixels
/// under the output's fractional scale, rounding each axis to the nearest
/// pixel, ties away from zero.
pub fn to_physical_round(local: LogicalPoint, scale_120: i64) -> (p: PhysicalPoint)
    requires
        0 <= local.x,
        0 <= local.y,
        local.in_range(),
        0 < scale_120 <= MAX_SCALE_120,
    ensures
        p.x == physical_of(local.x as int, scale_120 as int),
        p.y == physical_of(local.y as int, scale_120 as int),
        0 <= p.x,
        0 <= p.y,
{
    PhysicalPoint {
        x: round_div_axis(local.x, scale_120),
        y: round_div_axis(local.y, scale_120),
    }
}

fn round_div_axis(v: i64, scale_120: i64) -> (r: i64)
    requires
        0 <= v <= MAX_COORD,
        0 < scale_120 <= MAX_SCALE_120,
    ensures
        r == physical_of(v as int, scale_120 as int),
        0 <= r,
{
    let denom: i64 = UNIT * UNIT;
    assert(v * scale_120 <= MAX_COORD * MAX_SCALE_120 && 0 <= v * scale_120)
        by (nonlinear_arith)
        requires
            0 <= v <= MAX_COORD,
            0 < scale_120 <= MAX_SCALE_120,
    ;
    let num: i64 = v * scale_120;
    (2 * num + denom) / (2 * denom)
}

} // verus!

//! Integer geometry for the bridge.
//!
//! The backend reports window geometry in physical pixels; the application
//! reasons in logical units. The core keeps the ratio between the two as an
//! exact pair of integers, so every conversion in the contracts is exact
//! arithmetic. Conversions saturate at `u32::MAX`, as a cast of an oversized
//! result would in the backend itself.

use vstd::prelude::*;

verus! {

/// A scale factor: `num` physical pixels per `den` logical units.
#[derive(Clone, Copy, Debug, PartialEq, Eq)]
pub struct ScaleFactor {
    pub num: u32,
    pub den: u32,
}

impl ScaleFactor {
    /// A meaningful factor has a positive numerator and denominator.
    pub open spec fn wf(self) -> bool {
        self.num >= 1 && self.den >= 1
    }

    /// Two ratios denote the same factor when they cross-multiply equally.
    pub open spec fn same_value(self, other: ScaleFactor) -> bool {
        self.num * other.den == other.num * self.den
    }

    pub fn new(num: u32, den: u32) -> (r: ScaleFactor)
        requires
            num >= 1,
            den >= 1,
        ensures
            r == (ScaleFactor { num, den }),
            r.wf(),
    {
        ScaleFactor { num, den }
    }

    /// Value equality of two factors, independent of the representation.
    pub fn eq_value(self, other: ScaleFactor) -> (r: bool)
        ensures
            r == self.same_value(other),
    {
        proof {
            lemma_mul_fits_u64(self.num as int, other.den as int);
            lemma_mul_fits_u64(other.num as int, self.den as int);
        }
        (self.num as u64) * (other.den as u64) == (other.num as u64) * (self.den as u64)
    }
}

/// The product of two values below `2^32` fits in a `u64`.
pub proof fn lemma_mul_fits_u64(a: int, b: int)
    requires
        0 <= a < 0x1_0000_0000,
        0 <= b < 0x1_0000_0000,
    ensures
        a * b <= 0xFFFF_FFFE_0000_0001,
{
    assert(a * b <= 0xFFFF_FFFF * 0xFFFF_FFFF) by (nonlinear_arith)
        requires
            0 <= a <= 0xFFFF_FFFF,
            0 <= b <= 0xFFFF_FFFF,
    ;
}

/// Clamp a non-negative mathematical value into the `u32` range.
pub open spec fn sat_u32(x: int) -> u32
    recommends
        0 <= x,
{
    if x > u32::MAX { u32::MAX } else { x as u32 }
}

/// Physical extent of a logical one: multiply by the factor, saturating.
pub open spec fn spec_physical_of_logical(l: u32, sf: ScaleFactor) -> u32 {
    sat_u32((l * sf.num) / (sf.den as int))
}

/// Logical extent of a physical one: divide by the factor, saturating.
pub open spec fn spec_logical_of_physical(p: u32, sf: ScaleFactor) -> u32 {
    sat_u32((p * sf.den) / (sf.num as int))
}

/// Scaled division `(a * b) / c` in `u64`, the shared shape of both
/// conversions.
fn mul_div_sat(a: u32, b: u32, c: u32) -> (r: u32)
    requires
        c >= 1,
    ensures
        r == sat_u32((a * b) / (c as int)),
{
    proof {
        lemma_mul_fits_u64(a as int, b as int);
    }
    let q: u64 = ((a as u64) * (b as u64)) / (c as u64);
    if q > u32::MAX as u64 {
        u32::MAX
    } else {
        q as u32
    }
}

pub fn physical_of_logical(l: u32, sf: ScaleFactor) -> (r: u32)
    requires
        sf.wf(),
    ensures
        r == spec_physical_of_logical(l, sf),
{
    mul_div_sat(l, sf.num, sf.den)
}

pub fn logical_of_physical(p: u32, sf: ScaleFactor) -> (r: u32)
    requires
        sf.wf(),
    ensures
        r == spec_logical_of_physical(p, sf),
{
    mul_div_sat(p, sf.den, sf.num)
}

/// The vertical flip that moves the origin of a cursor coordinate from the
/// top-left corner to the bottom-left one: `y' = inner_height - y`, in
/// logical units. The result may be negative when the reported coordinate
/// lies below the window.
pub open spec fn spec_flip_y(inner_logical_height: u32, y: u32) -> int {
    inner_logical_height - y
}

pub fn flip_y(inner_logical_height: u32, y: u32) -> (r: i64)
    ensures
        r == spec_flip_y(inner_logical_height, y),
{
    (inner_logical_height as i64) - (y as i64)
}

} // verus!

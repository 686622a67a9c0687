//! Fixed-point units of the playfield.
//!
//! Every length, position and speed is an integer number of units, a
//! thousand to the pixel. Positions and displacements are stored in `i32`
//! and saturate at the edge of that range; intermediate sums are formed in
//! wider integers, where they cannot overflow.

use vstd::prelude::*;

verus! {

/// Number of units in one pixel.
pub const UNITS_PER_PIXEL: i32 = 1000;

/// Milliseconds since the clock started.
pub type Millis = u64;

/// The value of `v` brought into the range of `i32`.
pub open spec fn saturate(v: int) -> i32 {
    if v < i32::MIN {
        i32::MIN
    } else if v > i32::MAX {
        i32::MAX
    } else {
        v as i32
    }
}

/// Narrows a 64-bit value to the coordinate range, saturating at its ends.
pub fn saturate_i64(v: i64) -> (r: i32)
    ensures
        r == saturate(v as int),
{
    if v < i32::MIN as i64 {
        i32::MIN
    } else if v > i32::MAX as i64 {
        i32::MAX
    } else {
        v as i32
    }
}

/// Narrows a 128-bit value to the coordinate range, saturating at its ends.
pub fn saturate_i128(v: i128) -> (r: i32)
    ensures
        r == saturate(v as int),
{
    if v < i32::MIN as i128 {
        i32::MIN
    } else if v > i32::MAX as i128 {
        i32::MAX
    } else {
        v as i32
    }
}

/// The sum of two coordinates, saturating at the ends of the range.
pub fn saturating_sum(a: i32, b: i32) -> (r: i32)
    ensures
        r == saturate(a + b),
{
    saturate_i64(a as i64 + b as i64)
}

/// The absolute value of `v`.
pub open spec fn magnitude(v: int) -> int {
    if v < 0 {
        -v
    } else {
        v
    }
}

} // verus!

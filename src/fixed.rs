//! Fixed-point helpers shared by the whole pipeline.
use vstd::prelude::*;

verus! {

/// One whole unit in the fixed-point representation (1.0 == `UNIT`).
pub const UNIT: i32 = 1_000_000;

/// `x` limited to the closed range `[lo, hi]`.
pub open spec fn clamp(x: int, lo: int, hi: int) -> int {
    if x < lo {
        lo
    } else if x > hi {
        hi
    } else {
        x
    }
}

/// Limits `x` to `[lo, hi]`.
pub fn clamp_i64(x: i64, lo: i64, hi: i64) -> (r: i64)
    requires
        lo <= hi,
    ensures
        r == clamp(x as int, lo as int, hi as int),
        lo <= r <= hi,
{
    if x < lo {
        lo
    } else if x > hi {
        hi
    } else {
        x
    }
}

} // verus!

use vstd::prelude::*;

verus! {

/// Sub-unit precision of the ball: one arena unit is this many ball steps.
pub const SCALE: i64 = 100;

/// The largest arena side: terminal coordinates are 16-bit.
pub const MAX_SIDE: usize = 65535;

/// A direction of motion or of a collision.
#[allow(non_camel_case_types)]
#[derive(Clone, Copy, Debug, PartialEq, Eq, Structural)]
pub enum Direction {
    LEFT,
    RIGHT,
    UP,
    DOWN,
}

/// `v` (in ball steps) rounded to the nearest arena unit, halves rounding up.
pub open spec fn round_unit(v: int) -> int {
    (v + SCALE as int / 2) / SCALE as int
}

/// Rounds a non-negative position given in ball steps to arena units.
pub fn round_to_unit(v: i64) -> (r: i64)
    requires
        0 <= v <= i64::MAX - SCALE,
    ensures
        r == round_unit(v as int),
{
    (v + SCALE / 2) / SCALE
}

/// `v` limited to `[lo, hi]`: first raised to `lo`, then lowered to `hi`.
pub open spec fn clamp_int(v: int, lo: int, hi: int) -> int {
    let raised = if v < lo { lo } else { v };
    if raised > hi { hi } else { raised }
}

} // verus!

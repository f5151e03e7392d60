//! Integer helpers shared by the simulation: saturation into the stored
//! range, truncating division and sign.
use vstd::prelude::*;

verus! {

/// Clamps a mathematical integer into the range of `i32`, the type in which
/// every position, velocity and health value is stored.
pub open spec fn sat(x: int) -> int {
    if x > i32::MAX as int {
        i32::MAX as int
    } else if x < i32::MIN as int {
        i32::MIN as int
    } else {
        x
    }
}

/// Division that rounds toward zero, for a positive divisor.
pub open spec fn tdiv(a: int, b: int) -> int
    recommends
        b > 0,
{
    if a >= 0 {
        a / b
    } else {
        -((-a) / b)
    }
}

/// -1, 0 or 1 after the sign of `x`.
pub open spec fn sign(x: int) -> int {
    if x > 0 {
        1
    } else if x < 0 {
        -1
    } else {
        0
    }
}

/// Stores a wide intermediate result, saturating at the bounds of `i32`.
pub fn saturate(x: i128) -> (r: i32)
    ensures
        r == sat(x as int),
{
    if x > i32::MAX as i128 {
        i32::MAX
    } else if x < i32::MIN as i128 {
        i32::MIN
    } else {
        x as i32
    }
}

/// Truncating division of a wide value by a positive divisor.
pub fn trunc_div(a: i128, b: i128) -> (r: i128)
    requires
        b > 0,
    ensures
        r == tdiv(a as int, b as int),
{
    a / b
}

} // verus!

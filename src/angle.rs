//! Angles in micro-degrees, and their normalisation.
use vstd::prelude::*;
use vstd::arithmetic::div_mod::{lemma_fundamental_div_mod, lemma_fundamental_div_mod_converse};

verus! {

/// One full revolution in micro-degrees.
pub const FULL_TURN: i32 = 360_000_000;

/// Half a revolution in micro-degrees.
pub const HALF_TURN: i32 = 180_000_000;

/// The angle brought into `[0, FULL_TURN)`.
pub open spec fn wrap_spec(a: int) -> int {
    a % (FULL_TURN as int)
}

/// The angle brought into `(-HALF_TURN, HALF_TURN]`.
pub open spec fn signed_spec(a: int) -> int {
    if wrap_spec(a) > HALF_TURN as int {
        wrap_spec(a) - FULL_TURN as int
    } else {
        wrap_spec(a)
    }
}

/// Brings an angle into `[0, FULL_TURN)`.
pub fn wrap_angle(a: i64) -> (r: i32)
    ensures
        r == wrap_spec(a as int),
        0 <= r < FULL_TURN,
{
    let f: i64 = FULL_TURN as i64;
    if a >= 0 {
        (a % f) as i32
    } else {
        let n: i128 = -(a as i128);
        let m: i128 = n % (f as i128);
        proof {
            let ni = n as int;
            let fi = f as int;
            lemma_fundamental_div_mod(ni, fi);
            let q = ni / fi;
            assert(ni == fi * q + m);
            if m == 0 {
                assert(a as int == (-q) * fi + 0) by (nonlinear_arith)
                    requires
                        ni == fi * q + m,
                        m == 0,
                        a as int == -ni,
                ;
                lemma_fundamental_div_mod_converse(a as int, fi, -q, 0);
            } else {
                assert(a as int == (-q - 1) * fi + (fi - m)) by (nonlinear_arith)
                    requires
                        ni == fi * q + m,
                        a as int == -ni,
                ;
                lemma_fundamental_div_mod_converse(a as int, fi, -q - 1, fi - m);
            }
        }
        if m == 0 {
            0
        } else {
            (f as i128 - m) as i32
        }
    }
}

/// Brings an angle into `(-HALF_TURN, HALF_TURN]`.
pub fn signed_angle(a: i64) -> (r: i32)
    ensures
        r == signed_spec(a as int),
        -(HALF_TURN as int) < r <= HALF_TURN,
{
    let w = wrap_angle(a);
    if w > HALF_TURN {
        w - FULL_TURN
    } else {
        w
    }
}

} // verus!

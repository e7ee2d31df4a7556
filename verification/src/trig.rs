//! Fixed-point trigonometry on integer milliradian angles.
//!
//! A full turn is `TURN` milliradians and every function here is defined by
//! an exact integer formula, so the executable code returns precisely the
//! value of its specification twin: the model's sine, cosine and `atan2`
//! are these formulas, rational approximations of the real functions.

use vstd::prelude::*;

use crate::num::clamp_spec;

verus! {

/// One full turn, in milliradians.
pub const TURN: i64 = 6283;

/// Half a turn.
pub const HALF_TURN: i64 = 3142;

/// A quarter turn.
pub const QUARTER_TURN: i64 = 1571;

/// An angle reduced to its canonical representative in `[0, TURN)`.
pub open spec fn wrap_spec(a: int) -> int {
    a % (TURN as int)
}

/// Reduce an angle to `[0, TURN)`.
pub fn wrap_mrad(a: i128) -> (r: i64)
    requires
        a > i128::MIN,
    ensures
        r == wrap_spec(a as int),
        0 <= r < TURN,
{
    if a >= 0 {
        let m = ((a as u128) % (TURN as u128)) as i64;
        m
    } else {
        let m = (((-a) as u128) % (TURN as u128)) as i64;
        proof {
            let t: int = TURN as int;
            let na = -(a as int);
            vstd::arithmetic::div_mod::lemma_fundamental_div_mod(na, t);
            let q = na / t;
            if m == 0 {
                assert(a as int == (-q) * t + 0) by (nonlinear_arith)
                    requires
                        na == q * t + 0,
                        na == -(a as int),
                ;
                vstd::arithmetic::div_mod::lemma_fundamental_div_mod_converse_mod(
                    a as int,
                    t,
                    -q,
                    0,
                );
            } else {
                assert(a as int == (-q - 1) * t + (t - m)) by (nonlinear_arith)
                    requires
                        na == q * t + m,
                        na == -(a as int),
                ;
                vstd::arithmetic::div_mod::lemma_fundamental_div_mod_converse_mod(
                    a as int,
                    t,
                    -q - 1,
                    t - m,
                );
            }
        }
        if m == 0 {
            0
        } else {
            TURN - m
        }
    }
}

/// One positive half-wave of the sine approximation, on `[0, HALF_TURN]`,
/// scaled so that a full amplitude is one thousand.
pub open spec fn half_wave_spec(x: int) -> int {
    let p = x * (HALF_TURN - x);
    let v = (16 * p * 1000) / (5 * HALF_TURN * HALF_TURN - 4 * p);
    clamp_spec(v, 0, 1000)
}

fn half_wave(x: i64) -> (r: i64)
    requires
        0 <= x <= HALF_TURN,
    ensures
        r == half_wave_spec(x as int),
        0 <= r <= 1000,
{
    proof {
        assert(x * (HALF_TURN - x) <= 1571 * 1571 && 0 <= x * (HALF_TURN - x))
            by (nonlinear_arith)
            requires
                0 <= x <= 3142,
        ;
    }
    let xu: u64 = x as u64;
    let p: u64 = xu * ((HALF_TURN as u64) - xu);
    let num: u64 = 16 * p * 1000;
    let den: u64 = 5 * (HALF_TURN as u64) * (HALF_TURN as u64) - 4 * p;
    let v: u64 = num / den;
    if v > 1000 {
        1000
    } else {
        v as i64
    }
}

/// The model's sine of a canonical angle: the positive half-wave on the
/// first half turn, its mirror image below the axis on the second.
pub open spec fn sin_spec(a: int) -> int {
    if a < HALF_TURN {
        half_wave_spec(a)
    } else {
        -half_wave_spec(a - HALF_TURN)
    }
}

pub fn sin_mrad(a: i64) -> (r: i64)
    requires
        0 <= a < TURN,
    ensures
        r == sin_spec(a as int),
        -1000 <= r <= 1000,
{
    if a < HALF_TURN {
        half_wave(a)
    } else {
        -half_wave(a - HALF_TURN)
    }
}

/// The model's cosine: the sine a quarter turn ahead.
pub open spec fn cos_spec(a: int) -> int {
    sin_spec(wrap_spec(a + QUARTER_TURN))
}

pub fn cos_mrad(a: i64) -> (r: i64)
    requires
        0 <= a < TURN,
    ensures
        r == cos_spec(a as int),
        -1000 <= r <= 1000,
{
    let w = wrap_mrad((a as i128) + (QUARTER_TURN as i128));
    sin_mrad(w)
}

/// The model's arctangent of a ratio scaled by one thousand, on `[0, 1000]`:
/// a quadratic approximation, clamped into `[0, QUARTER_TURN / 2]`.
pub open spec fn atan_ratio_spec(z: int) -> int {
    let v = (z * (785 + (273 * (1000 - z)) / 1000)) / 1000;
    clamp_spec(v, 0, 785)
}

fn atan_ratio(z: i64) -> (r: i64)
    requires
        0 <= z <= 1000,
    ensures
        r == atan_ratio_spec(z as int),
        0 <= r <= 785,
{
    let zu: u64 = z as u64;
    let inner: u64 = 785 + (273 * (1000 - zu)) / 1000;
    proof {
        vstd::arithmetic::div_mod::lemma_div_is_ordered(
            (273 * (1000 - zu)) as int,
            273000,
            1000,
        );
        assert(zu * inner <= 1000 * 1058) by (nonlinear_arith)
            requires
                0 <= zu <= 1000,
                0 <= inner <= 1058,
        ;
    }
    let v: u64 = (zu * inner) / 1000;
    if v > 785 {
        785
    } else {
        v as i64
    }
}

/// The largest coordinate magnitude the fixed-point kernels accept.
pub const COORD_CAP: i64 = 1_000_000_000_000;

/// The model's `atan2`, on a vector given componentwise: the angle of the
/// vector, in milliradians in `(-HALF_TURN, HALF_TURN]`, with the value 0
/// for the zero vector.
pub open spec fn atan2_spec(y: int, x: int) -> int {
    let ax = if x >= 0 { x } else { -x };
    let ay = if y >= 0 { y } else { -y };
    let base = if ax == 0 && ay == 0 {
        0
    } else if ay <= ax {
        atan_ratio_spec((ay * 1000) / ax)
    } else {
        QUARTER_TURN - atan_ratio_spec((ax * 1000) / ay)
    };
    if x >= 0 && y >= 0 {
        base
    } else if x < 0 && y >= 0 {
        HALF_TURN - base
    } else if x < 0 {
        -(HALF_TURN - base)
    } else {
        -base
    }
}

pub fn atan2_mrad(y: i64, x: i64) -> (r: i64)
    requires
        -COORD_CAP <= y <= COORD_CAP,
        -COORD_CAP <= x <= COORD_CAP,
    ensures
        r == atan2_spec(y as int, x as int),
        -HALF_TURN <= r <= HALF_TURN,
{
    let ax: u64 = if x >= 0 {
        x as u64
    } else {
        (-x) as u64
    };
    let ay: u64 = if y >= 0 {
        y as u64
    } else {
        (-y) as u64
    };
    let base: i64 = if ax == 0 && ay == 0 {
        0
    } else if ay <= ax {
        let z: u64 = (ay * 1000) / ax;
        proof {
            assert(ay * 1000 <= ax * 1000);
            vstd::arithmetic::div_mod::lemma_div_is_ordered(
                (ay * 1000) as int,
                (ax * 1000) as int,
                ax as int,
            );
            vstd::arithmetic::div_mod::lemma_div_multiples_vanish(1000, ax as int);
            assert(ax as int * 1000 == 1000 * ax as int);
        }
        atan_ratio(z as i64)
    } else {
        let z: u64 = (ax * 1000) / ay;
        proof {
            assert(ax * 1000 <= ay * 1000);
            vstd::arithmetic::div_mod::lemma_div_is_ordered(
                (ax * 1000) as int,
                (ay * 1000) as int,
                ay as int,
            );
            vstd::arithmetic::div_mod::lemma_div_multiples_vanish(1000, ay as int);
            assert(ay as int * 1000 == 1000 * ay as int);
        }
        QUARTER_TURN - atan_ratio(z as i64)
    };
    if x >= 0 && y >= 0 {
        base
    } else if x < 0 && y >= 0 {
        HALF_TURN - base
    } else if x < 0 {
        -(HALF_TURN - base)
    } else {
        -base
    }
}

} // verus!

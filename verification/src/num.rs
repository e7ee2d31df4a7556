//! Scalar helpers for the fixed-point arithmetic the simulation runs on:
//! interval clamping, saturating subtraction and an exact integer square
//! root, which the distance computations are built from.

use vstd::prelude::*;

verus! {

/// Clamp `v` into the inclusive interval `[lo, hi]`.
pub open spec fn clamp_spec(v: int, lo: int, hi: int) -> int {
    if v < lo {
        lo
    } else if v > hi {
        hi
    } else {
        v
    }
}

/// Clamping a value twice gives the same result as clamping it once.
pub proof fn lemma_clamp_idempotent(v: int, lo: int, hi: int)
    requires
        lo <= hi,
    ensures
        clamp_spec(clamp_spec(v, lo, hi), lo, hi) == clamp_spec(v, lo, hi),
{
}

pub fn clamp_i64(v: i64, lo: i64, hi: i64) -> (r: i64)
    requires
        lo <= hi,
    ensures
        r == clamp_spec(v as int, lo as int, hi as int),
{
    if v < lo {
        lo
    } else if v > hi {
        hi
    } else {
        v
    }
}

/// Subtraction on unsigned energy amounts that bottoms out at zero.
pub open spec fn sat_sub_spec(a: int, b: int) -> int {
    if a >= b {
        a - b
    } else {
        0
    }
}

pub fn sat_sub_u32(a: u32, b: u32) -> (r: u32)
    ensures
        r == sat_sub_spec(a as int, b as int),
{
    if a >= b {
        a - b
    } else {
        0
    }
}

/// Signed division rounded toward zero, for a positive divisor.
pub open spec fn tdiv_spec(a: int, b: int) -> int {
    if a >= 0 {
        a / b
    } else {
        -((-a) / b)
    }
}

/// Multiply a fixed-point value by a fixed-point factor: the product,
/// scaled back down by the base, rounded toward zero.
pub open spec fn mul_milli_spec(a: int, s: int) -> int {
    tdiv_spec(a * s, 1000)
}

pub fn mul_milli(a: i64, s: i64) -> (r: i64)
    requires
        -3_000_000_000 <= a <= 3_000_000_000,
        -1_000_000_000 <= s <= 1_000_000_000,
    ensures
        r == mul_milli_spec(a as int, s as int),
{
    let au: u64 = if a >= 0 {
        a as u64
    } else {
        (-a) as u64
    };
    let su: u64 = if s >= 0 {
        s as u64
    } else {
        (-s) as u64
    };
    proof {
        assert(au * su <= 3_000_000_000 * 1_000_000_000) by (nonlinear_arith)
            requires
                au <= 3_000_000_000,
                su <= 1_000_000_000,
        ;
        let p = (a as int) * (s as int);
        assert((au as int) * (su as int) == if p >= 0 {
            p
        } else {
            -p
        }) by (nonlinear_arith)
            requires
                au as int == if a as int >= 0 {
                    a as int
                } else {
                    -(a as int)
                },
                su as int == if s as int >= 0 {
                    s as int
                } else {
                    -(s as int)
                },
                p == (a as int) * (s as int),
        ;
    }
    let q: u64 = (au * su) / 1000;
    proof {
        vstd::arithmetic::div_mod::lemma_div_nonincreasing(((au * su) as int), 1000);
    }
    if (a >= 0) == (s >= 0) {
        proof {
            let p = (a as int) * (s as int);
            assert(p >= 0) by (nonlinear_arith)
                requires
                    p == (a as int) * (s as int),
                    (a >= 0) == (s >= 0),
            ;
        }
        q as i64
    } else {
        proof {
            let p = (a as int) * (s as int);
            assert(p <= 0) by (nonlinear_arith)
                requires
                    p == (a as int) * (s as int),
                    (a >= 0) != (s >= 0),
            ;
        }
        -(q as i64)
    }
}

/// A product scaled back down by the base stays within the bound of its
/// unscaled factor, when the other factor is at most the base in
/// magnitude.
pub proof fn lemma_mul_milli_bounded(a: int, s: int, m: int)
    requires
        -1000 <= a <= 1000,
        0 <= m,
        -m <= s <= m,
    ensures
        -m <= mul_milli_spec(a, s) <= m,
{
    let p = a * s;
    assert(-(1000 * m) <= p <= 1000 * m) by (nonlinear_arith)
        requires
            -1000 <= a <= 1000,
            -m <= s <= m,
            p == a * s,
    ;
    if p >= 0 {
        vstd::arithmetic::div_mod::lemma_div_is_ordered(p, 1000 * m, 1000);
        vstd::arithmetic::div_mod::lemma_div_multiples_vanish(m, 1000);
        vstd::arithmetic::div_mod::lemma_div_pos_is_pos(p, 1000);
    } else {
        vstd::arithmetic::div_mod::lemma_div_is_ordered(-p, 1000 * m, 1000);
        vstd::arithmetic::div_mod::lemma_div_multiples_vanish(m, 1000);
        vstd::arithmetic::div_mod::lemma_div_pos_is_pos(-p, 1000);
    }
}

/// The integer square root, rounded down, by the classic digit-pair
/// recurrence: the root of `n` is twice the root of `n / 4`, possibly
/// plus one.
pub open spec fn sqrt_floor(n: nat) -> nat
    decreases n,
{
    if n == 0 {
        0
    } else {
        let r = 2 * sqrt_floor(n / 4);
        if (r + 1) * (r + 1) <= n {
            r + 1
        } else {
            r
        }
    }
}

/// `sqrt_floor` really is the rounded-down square root.
pub proof fn lemma_sqrt_floor(n: nat)
    ensures
        sqrt_floor(n) * sqrt_floor(n) <= n,
        n < (sqrt_floor(n) + 1) * (sqrt_floor(n) + 1),
    decreases n,
{
    if n == 0 {
        assert(sqrt_floor(n) * sqrt_floor(n) <= n && n < (sqrt_floor(n) + 1) * (
        sqrt_floor(n) + 1)) by (nonlinear_arith)
            requires
                n == 0,
                sqrt_floor(n) == 0,
        ;
    } else {
        let s = sqrt_floor(n / 4);
        lemma_sqrt_floor(n / 4);
        let r = 2 * s;
        assert(4 * (n / 4) <= n && n <= 4 * (n / 4) + 3) by {
            vstd::arithmetic::div_mod::lemma_fundamental_div_mod(n as int, 4);
        }
        assert(r * r <= n) by (nonlinear_arith)
            requires
                r == 2 * s,
                s * s <= n / 4,
                4 * (n / 4) <= n,
        ;
        assert(n < (r + 2) * (r + 2)) by (nonlinear_arith)
            requires
                r == 2 * s,
                n / 4 < (s + 1) * (s + 1),
                n <= 4 * (n / 4) + 3,
        ;
        if (r + 1) * (r + 1) <= n {
            assert(sqrt_floor(n) == r + 1);
            assert(sqrt_floor(n) * sqrt_floor(n) <= n && n < (sqrt_floor(n) + 1) * (
            sqrt_floor(n) + 1)) by (nonlinear_arith)
                requires
                    sqrt_floor(n) == r + 1,
                    (r + 1) * (r + 1) <= n,
                    n < (r + 2) * (r + 2),
            ;
        } else {
            assert(sqrt_floor(n) == r);
            assert(sqrt_floor(n) * sqrt_floor(n) <= n && n < (sqrt_floor(n) + 1) * (
            sqrt_floor(n) + 1)) by (nonlinear_arith)
                requires
                    sqrt_floor(n) == r,
                    r * r <= n,
                    !((r + 1) * (r + 1) <= n),
            ;
        }
    }
}

/// The square root of a value below `2^62` is below `2^31`, so squaring
/// a candidate root cannot overflow 64 bits.
pub proof fn lemma_sqrt_floor_bound(n: nat)
    requires
        n < 0x4000_0000_0000_0000,
    ensures
        sqrt_floor(n) < 0x8000_0000,
{
    lemma_sqrt_floor(n);
    let r = sqrt_floor(n);
    assert(r < 0x8000_0000) by (nonlinear_arith)
        requires
            r * r <= n,
            n < 0x4000_0000_0000_0000,
    ;
}

pub fn isqrt_u64(n: u64) -> (r: u64)
    ensures
        r == sqrt_floor(n as nat),
    decreases n,
{
    if n == 0 {
        0
    } else {
        let s = isqrt_u64(n / 4);
        proof {
            lemma_sqrt_floor_bound((n / 4) as nat);
            assert((2 * s + 1) * (2 * s + 1) < 0xFFFF_FFFF_FFFF_FFFF) by (nonlinear_arith)
                requires
                    s < 0x8000_0000,
            ;
        }
        let c = 2 * s + 1;
        if c * c <= n {
            c
        } else {
            2 * s
        }
    }
}

} // verus!

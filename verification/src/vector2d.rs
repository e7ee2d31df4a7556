//! The plane the simulation lives on: a two-component fixed-point vector
//! with the exact arithmetic the entities need — addition, subtraction,
//! scaling, Euclidean distance and an approximate unit direction.

use vstd::prelude::*;

use crate::num::{isqrt_u64, lemma_sqrt_floor, mul_milli, mul_milli_spec, sqrt_floor};

verus! {

/// The largest coordinate magnitude the distance kernels accept; world
/// positions stay far below it.
pub const COORD_LIMIT: i64 = 1_000_000_000;

/// A point or displacement on the plane, in thousandths of a world unit.
#[derive(Clone, Copy, PartialEq, Eq, Structural, Debug)]
pub struct Vector2D {
    pub x: i64,
    pub y: i64,
}

/// Both coordinates of `v` are within `cap` in magnitude.
pub open spec fn in_range(v: Vector2D, cap: int) -> bool {
    &&& -cap <= v.x <= cap
    &&& -cap <= v.y <= cap
}

/// The squared Euclidean distance between two points.
pub open spec fn dist_sq_spec(a: Vector2D, b: Vector2D) -> int {
    (a.x - b.x) * (a.x - b.x) + (a.y - b.y) * (a.y - b.y)
}

/// The Euclidean distance between two points, rounded down to a whole
/// number of thousandths.
pub open spec fn dist_spec(a: Vector2D, b: Vector2D) -> int {
    sqrt_floor(dist_sq_spec(a, b) as nat) as int
}

impl Vector2D {
    pub fn new(x: i64, y: i64) -> (r: Vector2D)
        ensures
            r == (Vector2D { x, y }),
    {
        Vector2D { x, y }
    }

    pub fn x(&self) -> (r: i64)
        ensures
            r == self.x,
    {
        self.x
    }

    pub fn y(&self) -> (r: i64)
        ensures
            r == self.y,
    {
        self.y
    }

    /// Componentwise sum.
    pub fn add(self, rhs: Vector2D) -> (r: Vector2D)
        requires
            i64::MIN <= self.x + rhs.x <= i64::MAX,
            i64::MIN <= self.y + rhs.y <= i64::MAX,
        ensures
            r.x == self.x + rhs.x,
            r.y == self.y + rhs.y,
    {
        Vector2D { x: self.x + rhs.x, y: self.y + rhs.y }
    }

    /// Componentwise difference.
    pub fn sub(self, rhs: Vector2D) -> (r: Vector2D)
        requires
            i64::MIN <= self.x - rhs.x <= i64::MAX,
            i64::MIN <= self.y - rhs.y <= i64::MAX,
        ensures
            r.x == self.x - rhs.x,
            r.y == self.y - rhs.y,
    {
        Vector2D { x: self.x - rhs.x, y: self.y - rhs.y }
    }

    /// Multiply by a fixed-point scalar (a factor of one thousand is the
    /// identity, up to rounding toward zero).
    pub fn scale(self, factor: i64) -> (r: Vector2D)
        requires
            in_range(self, 3_000_000_000),
            -1_000_000_000 <= factor <= 1_000_000_000,
        ensures
            r.x == mul_milli_spec(self.x as int, factor as int),
            r.y == mul_milli_spec(self.y as int, factor as int),
    {
        Vector2D { x: mul_milli(self.x, factor), y: mul_milli(self.y, factor) }
    }

    /// The squared distance to `rhs`.
    pub fn distance_squared(self, rhs: Vector2D) -> (r: i64)
        requires
            -2_000_000_000 <= self.x - rhs.x <= 2_000_000_000,
            -2_000_000_000 <= self.y - rhs.y <= 2_000_000_000,
        ensures
            r == dist_sq_spec(self, rhs),
            0 <= r,
    {
        let dx: i64 = self.x - rhs.x;
        let dy: i64 = self.y - rhs.y;
        let dxu: u64 = if dx >= 0 {
            dx as u64
        } else {
            (-dx) as u64
        };
        let dyu: u64 = if dy >= 0 {
            dy as u64
        } else {
            (-dy) as u64
        };
        proof {
            assert(dxu * dxu == (dx as int) * (dx as int) && dxu * dxu <= 2_000_000_000
                * 2_000_000_000) by (nonlinear_arith)
                requires
                    dxu as int == if dx as int >= 0 {
                        dx as int
                    } else {
                        -(dx as int)
                    },
                    -2_000_000_000 <= dx as int <= 2_000_000_000,
            ;
            assert(dyu * dyu == (dy as int) * (dy as int) && dyu * dyu <= 2_000_000_000
                * 2_000_000_000) by (nonlinear_arith)
                requires
                    dyu as int == if dy as int >= 0 {
                        dy as int
                    } else {
                        -(dy as int)
                    },
                    -2_000_000_000 <= dy as int <= 2_000_000_000,
            ;
        }
        let sq: u64 = dxu * dxu + dyu * dyu;
        sq as i64
    }

    /// The distance to `rhs`, rounded down.
    pub fn distance(self, rhs: Vector2D) -> (r: i64)
        requires
            -2_000_000_000 <= self.x - rhs.x <= 2_000_000_000,
            -2_000_000_000 <= self.y - rhs.y <= 2_000_000_000,
        ensures
            r == dist_spec(self, rhs),
            0 <= r <= 3_100_000_000,
    {
        let sq: i64 = self.distance_squared(rhs);
        let r: u64 = isqrt_u64(sq as u64);
        proof {
            lemma_sqrt_floor(sq as nat);
            assert(r <= 3_100_000_000) by (nonlinear_arith)
                requires
                    r * r <= sq as int,
                    sq as int <= 0x7FFF_FFFF_FFFF_FFFF,
            ;
        }
        r as i64
    }

    /// The length of the vector, seen as a displacement from the origin.
    pub fn length(self) -> (r: i64)
        requires
            in_range(self, 2 * COORD_LIMIT),
        ensures
            r == dist_spec(self, Vector2D { x: 0, y: 0 }),
            0 <= r <= 3_100_000_000,
    {
        self.distance(Vector2D { x: 0, y: 0 })
    }
}

/// The vector scaled to (approximately) unit length, in fixed point:
/// each component is divided by the rounded-down length. The zero vector
/// is left unchanged.
pub open spec fn normalize_spec(v: Vector2D) -> Vector2D {
    let l = sqrt_floor((v.x * v.x + v.y * v.y) as nat) as int;
    if l == 0 {
        v
    } else {
        Vector2D {
            x: crate::num::tdiv_spec(v.x * 1000, l) as i64,
            y: crate::num::tdiv_spec(v.y * 1000, l) as i64,
        }
    }
}

impl Vector2D {
    /// Scale the vector to unit length, leaving the zero vector alone.
    pub fn normalize(&mut self)
        requires
            in_range(*old(self), 2 * COORD_LIMIT),
        ensures
            *final(self) == normalize_spec(*old(self)),
            in_range(*final(self), 1000),
    {
        let l: i64 = self.length();
        proof {
            let n = (self.x * self.x + self.y * self.y) as nat;
            crate::num::lemma_sqrt_floor(n);
            let ax: int = if self.x >= 0 { self.x as int } else { -(self.x as int) };
            let ay: int = if self.y >= 0 { self.y as int } else { -(self.y as int) };
            assert(ax * ax == self.x * self.x && ay * ay == self.y * self.y)
                by (nonlinear_arith)
                requires
                    ax == if self.x as int >= 0 {
                        self.x as int
                    } else {
                        -(self.x as int)
                    },
                    ay == if self.y as int >= 0 {
                        self.y as int
                    } else {
                        -(self.y as int)
                    },
            ;
            assert(ax <= l && ay <= l) by (nonlinear_arith)
                requires
                    ax >= 0,
                    ay >= 0,
                    l >= 0,
                    ax * ax + ay * ay == n,
                    n < (l + 1) * (l + 1),
            ;
        }
        if l != 0 {
            let xs: u64 = if self.x >= 0 {
                (self.x as u64) * 1000
            } else {
                ((-self.x) as u64) * 1000
            };
            let ys: u64 = if self.y >= 0 {
                (self.y as u64) * 1000
            } else {
                ((-self.y) as u64) * 1000
            };
            let qx: u64 = xs / (l as u64);
            let qy: u64 = ys / (l as u64);
            proof {
                vstd::arithmetic::div_mod::lemma_div_nonincreasing(xs as int, l as int);
                vstd::arithmetic::div_mod::lemma_div_nonincreasing(ys as int, l as int);
                vstd::arithmetic::div_mod::lemma_div_is_ordered(
                    xs as int,
                    (l as int) * 1000,
                    l as int,
                );
                vstd::arithmetic::div_mod::lemma_div_is_ordered(
                    ys as int,
                    (l as int) * 1000,
                    l as int,
                );
                vstd::arithmetic::div_mod::lemma_div_multiples_vanish(1000, l as int);
            }
            let nx: i64 = if self.x >= 0 {
                qx as i64
            } else {
                -(qx as i64)
            };
            let ny: i64 = if self.y >= 0 {
                qy as i64
            } else {
                -(qy as i64)
            };
            self.x = nx;
            self.y = ny;
        }
    }
}

} // verus!

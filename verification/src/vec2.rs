//! Integer 2D vectors and the bounds the engine keeps them inside.
//!
//! Positions and lengths are measured in subunits, durations in time quanta,
//! velocities in subunits per quantum.  Contact normals are integer vectors
//! whose nominal length is [`NORMAL_SCALE`] subunits; an axis-aligned unit
//! normal is written `(0, NORMAL_SCALE)` and is represented exactly.
//!
//! The named bounds below are what machine arithmetic forces: they are chosen
//! so that every product and sum the engine forms fits its integer type.

use vstd::prelude::*;

use crate::math::abs_i;

verus! {

/// Largest magnitude of a position coordinate, in subunits.
pub const MAX_COORD: i64 = 0x100_0000_0000;

/// Largest magnitude of a velocity component handed to the correction loop,
/// in subunits per quantum.
pub const MAX_SPEED: i64 = 0x1_0000_0000;

/// Largest magnitude of a velocity component of a moving object, in subunits
/// per quantum.  The trapezoidal sweep estimate of two such components always
/// stays within [`MAX_SPEED`].
pub const MAX_OBJECT_SPEED: i64 = 0x8000_0000;

/// Largest duration, time of impact, or ray-scalar numerator or denominator,
/// in time quanta.
pub const MAX_TIME: i64 = 0x10_0000;

/// Nominal length of a contact normal, in subunits: a contact normal `n`
/// reported by the sweep oracle is expected to satisfy `|n| ≈ NORMAL_SCALE`.
pub const NORMAL_SCALE: i64 = 0x1_0000;

/// Largest magnitude of a contact-normal component.
pub const MAX_NORMAL: i64 = 0x10_0000;

/// A 2D vector with integer coordinates.
#[derive(Clone, Copy, Debug, PartialEq, Eq, Structural)]
pub struct Vec2 {
    pub x: i64,
    pub y: i64,
}

impl Vec2 {
    /// The zero vector.
    pub fn zero() -> (v: Vec2)
        ensures
            v == (Vec2 { x: 0, y: 0 }),
    {
        Vec2 { x: 0, y: 0 }
    }

    /// Dot product, as a mathematical integer.
    pub open spec fn dot(self, o: Vec2) -> int {
        self.x * o.x + self.y * o.y
    }

    /// Squared Euclidean length, as a mathematical integer.
    pub open spec fn norm2(self) -> int {
        self.dot(self)
    }

    /// The y-axis-to-x-axis perpendicular `(-y, x)`: the tangent direction
    /// of a surface whose normal is `self`.
    pub open spec fn perp(self) -> (int, int) {
        (-self.y as int, self.x as int)
    }

    /// Dot product with the tangent of a normal, as a mathematical integer.
    pub open spec fn dot_perp(self, n: Vec2) -> int {
        self.x * n.perp().0 + self.y * n.perp().1
    }

    /// Both coordinates within `bound` in magnitude.
    pub open spec fn in_range(self, bound: int) -> bool {
        abs_i(self.x as int) <= bound && abs_i(self.y as int) <= bound
    }
}

/// Exact dot product of two machine vectors, computed in the wide type.
pub fn dot_i64(a: Vec2, b: Vec2) -> (r: i128)
    requires
        a.in_range(0x4000_0000_0000_0000),
    ensures
        r == a.dot(b),
{
    proof {
        assert(-0x2000_0000_0000_0000_0000_0000_0000_0000 <= a.x * b.x
            <= 0x2000_0000_0000_0000_0000_0000_0000_0000) by (nonlinear_arith)
            requires
                abs_i(a.x as int) <= 0x4000_0000_0000_0000 && i64::MIN <= b.x <= i64::MAX,
        ;
        assert(-0x2000_0000_0000_0000_0000_0000_0000_0000 <= a.y * b.y
            <= 0x2000_0000_0000_0000_0000_0000_0000_0000) by (nonlinear_arith)
            requires
                abs_i(a.y as int) <= 0x4000_0000_0000_0000 && i64::MIN <= b.y <= i64::MAX,
        ;
    }
    (a.x as i128) * (b.x as i128) + (a.y as i128) * (b.y as i128)
}

/// A vector with a nonzero coordinate has a positive squared length.
pub proof fn lemma_norm2_pos(v: Vec2)
    requires
        v.x != 0 || v.y != 0,
    ensures
        v.norm2() > 0,
{
    assert(v.x != 0 ==> v.x * v.x > 0) by (nonlinear_arith);
    assert(v.y != 0 ==> v.y * v.y > 0) by (nonlinear_arith);
    assert(v.x * v.x >= 0) by (nonlinear_arith);
    assert(v.y * v.y >= 0) by (nonlinear_arith);
}

/// Bounds on two vectors bound their dot product.
pub proof fn lemma_dot_bound(a: Vec2, b: Vec2, ba: int, bb: int)
    requires
        a.in_range(ba),
        b.in_range(bb),
    ensures
        abs_i(a.dot(b)) <= 2 * (ba * bb),
{
    crate::math::lemma_abs_mul_le(a.x as int, b.x as int, ba, bb);
    crate::math::lemma_abs_mul_le(a.y as int, b.y as int, ba, bb);
}

} // verus!

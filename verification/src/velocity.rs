//! Per-object velocity state.
//!
//! An object keeps the velocity it had when the last integration step
//! completed next to its current one, so that the next sweep can use a
//! trapezoidal estimate of the motion across the tick instead of the current
//! velocity alone; that estimate follows rapid velocity changes (a jump apex,
//! say) with less visible jitter.
//!
//! The `hard_assign` operations write both the current and the previous
//! velocity, so the change takes effect immediately rather than being
//! averaged over a frame; plain writes to `linvel` are integrated normally.

use vstd::prelude::*;

use crate::math::div_t;
use crate::vec2::{Vec2, MAX_OBJECT_SPEED, MAX_TIME};

verus! {

/// One component of the trapezoidal sweep estimate: the previous velocity
/// weighted over the whole duration plus half the current one.
pub open spec fn effective_component(prev: int, cur: int, dt: int) -> int {
    prev * dt + div_t(cur * dt, 2)
}

/// Current and previous-step velocity of one moving object.
///
/// Linear velocity is in subunits per quantum, angular velocity in
/// milliradians per quantum.  The angular components are bookkeeping for the
/// caller; the correction engine itself never reads them.
#[derive(Clone, Copy, Debug, PartialEq, Eq, Structural)]
pub struct KinematicVelocity {
    /// Linear velocity used by the last completed integration step.
    pub prev_linvel: Vec2,
    /// Current linear velocity.
    pub linvel: Vec2,
    /// Angular velocity used by the last completed integration step.
    pub prev_angvel: i64,
    /// Current angular velocity.
    pub angvel: i64,
}

impl KinematicVelocity {
    /// The state of an object at rest.
    pub fn zero() -> (v: KinematicVelocity)
        ensures
            v == (KinematicVelocity {
                prev_linvel: Vec2 { x: 0, y: 0 },
                linvel: Vec2 { x: 0, y: 0 },
                prev_angvel: 0,
                angvel: 0,
            }),
    {
        KinematicVelocity {
            prev_linvel: Vec2 { x: 0, y: 0 },
            linvel: Vec2 { x: 0, y: 0 },
            prev_angvel: 0,
            angvel: 0,
        }
    }

    /// The trapezoidal estimate of how far the object effectively moves per
    /// `dt` quanta: the previous velocity over the whole duration plus half
    /// the current one.
    pub fn effective_linvel(&self, dt: i64) -> (r: Vec2)
        requires
            self.prev_linvel.in_range(MAX_OBJECT_SPEED as int),
            self.linvel.in_range(MAX_OBJECT_SPEED as int),
            0 <= dt <= MAX_TIME,
        ensures
            r.x == effective_component(self.prev_linvel.x as int, self.linvel.x as int, dt as int),
            r.y == effective_component(self.prev_linvel.y as int, self.linvel.y as int, dt as int),
    {
        proof {
            lemma_effective_fits(self.prev_linvel.x as int, self.linvel.x as int, dt as int);
            lemma_effective_fits(self.prev_linvel.y as int, self.linvel.y as int, dt as int);
        }
        let x = crate::math::mul_i64(self.prev_linvel.x, dt)
            + crate::math::div_trunc(crate::math::mul_i64(self.linvel.x, dt), 2);
        let y = crate::math::mul_i64(self.prev_linvel.y, dt)
            + crate::math::div_trunc(crate::math::mul_i64(self.linvel.y, dt), 2);
        Vec2 { x: x as i64, y: y as i64 }
    }

    /// Stop dead: both current and previous linear velocity become zero.
    pub fn halt_linvel(&mut self)
        ensures
            *final(self) == (KinematicVelocity {
                prev_linvel: Vec2 { x: 0, y: 0 },
                linvel: Vec2 { x: 0, y: 0 },
                ..*old(self)
            }),
    {
        self.linvel = Vec2 { x: 0, y: 0 };
        self.prev_linvel = Vec2 { x: 0, y: 0 };
    }

    /// End-of-step bookkeeping: the current velocity becomes the previous
    /// one for the next tick's trapezoidal estimate.
    pub fn update_prev_linvel(&mut self)
        ensures
            *final(self) == (KinematicVelocity { prev_linvel: old(self).linvel, ..*old(self) }),
    {
        self.prev_linvel = self.linvel;
    }

    /// Set the x velocity, effective immediately rather than in a frame.
    pub fn hard_assign_x(&mut self, value: i64)
        ensures
            *final(self) == (KinematicVelocity {
                prev_linvel: Vec2 { x: value, ..old(self).prev_linvel },
                linvel: Vec2 { x: value, ..old(self).linvel },
                ..*old(self)
            }),
    {
        self.prev_linvel.x = value;
        self.linvel.x = value;
    }

    /// Add to the x velocity, effective immediately rather than in a frame.
    pub fn hard_add_assign_x(&mut self, diff: i64)
        requires
            i64::MIN <= old(self).linvel.x + diff <= i64::MAX,
        ensures
            *final(self) == (KinematicVelocity {
                prev_linvel: Vec2 {
                    x: (old(self).linvel.x + diff) as i64,
                    ..old(self).prev_linvel
                },
                linvel: Vec2 { x: (old(self).linvel.x + diff) as i64, ..old(self).linvel },
                ..*old(self)
            }),
    {
        self.hard_assign_x(self.linvel.x + diff);
    }

    /// Set the y velocity, effective immediately rather than in a frame.
    pub fn hard_assign_y(&mut self, value: i64)
        ensures
            *final(self) == (KinematicVelocity {
                prev_linvel: Vec2 { y: value, ..old(self).prev_linvel },
                linvel: Vec2 { y: value, ..old(self).linvel },
                ..*old(self)
            }),
    {
        self.prev_linvel.y = value;
        self.linvel.y = value;
    }
}

/// The trapezoidal estimate of a bounded velocity over a bounded duration
/// fits comfortably in a machine word.
proof fn lemma_effective_fits(prev: int, cur: int, dt: int)
    requires
        crate::math::abs_i(prev) <= MAX_OBJECT_SPEED as int,
        crate::math::abs_i(cur) <= MAX_OBJECT_SPEED as int,
        0 <= dt <= MAX_TIME as int,
    ensures
        crate::math::abs_i(prev * dt) <= (MAX_OBJECT_SPEED as int) * (MAX_TIME as int),
        crate::math::abs_i(cur * dt) <= (MAX_OBJECT_SPEED as int) * (MAX_TIME as int),
        crate::math::abs_i(div_t(cur * dt, 2)) <= (MAX_OBJECT_SPEED as int) * (MAX_TIME as int),
        crate::math::abs_i(effective_component(prev, cur, dt)) < i64::MAX as int,
{
    assert(crate::math::abs_i(prev * dt) <= (MAX_OBJECT_SPEED as int) * (MAX_TIME as int))
        by (nonlinear_arith)
        requires
            crate::math::abs_i(prev) <= MAX_OBJECT_SPEED as int && 0 <= dt <= MAX_TIME as int,
    ;
    assert(crate::math::abs_i(cur * dt) <= (MAX_OBJECT_SPEED as int) * (MAX_TIME as int))
        by (nonlinear_arith)
        requires
            crate::math::abs_i(cur) <= MAX_OBJECT_SPEED as int && 0 <= dt <= MAX_TIME as int,
    ;
    crate::math::lemma_div_t_bound(cur * dt, 2);
}

} // verus!

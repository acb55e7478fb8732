//! Per-object contact bookkeeping.
//!
//! Each moving object keeps the contact normals it touched during the most
//! recent integration step.  The set is cleared and rebuilt every tick by
//! the integration step; downstream consumers read it through queries such
//! as [`KinematicObject::touching_floor`].

use vstd::prelude::*;

use crate::math::abs_i;
use crate::vec2::Vec2;

verus! {

/// Whether a contact normal points up within forty-five degrees either way:
/// the surface under it can be stood on.  Strictly inside the cone, so a
/// perfect forty-five-degree slope does not count, and the zero vector
/// never does.
pub open spec fn floor_normal(n: Vec2) -> bool {
    n.y > abs_i(n.x as int)
}

/// A kinematic object: it wants to move through walls, but the engine will
/// not let it.
pub struct KinematicObject {
    /// The normals of the surfaces the object touched during the last
    /// integration step.  In theory this can be as long as
    /// [`crate::correction::MAX_CORRECTION_ITERS`], but typically it holds
    /// no more than two entries.
    pub touching: Vec<Vec2>,
}

impl KinematicObject {
    /// An object that touches nothing yet.
    pub fn new() -> (s: KinematicObject)
        ensures
            s.touching@ == Seq::<Vec2>::empty(),
    {
        KinematicObject { touching: Vec::new() }
    }

    /// Whether any surface touched last step can be stood on: some contact
    /// normal points up within forty-five degrees of vertical.
    pub fn touching_floor(&self) -> (r: bool)
        ensures
            r == exists|i: int| 0 <= i < self.touching@.len() && floor_normal(self.touching@[i]),
    {
        let mut idx: usize = 0;
        while idx < self.touching.len()
            invariant
                0 <= idx <= self.touching@.len(),
                forall|i: int| 0 <= i < idx ==> !floor_normal(self.touching@[i]),
            decreases self.touching@.len() - idx,
        {
            let n = self.touching[idx];
            if n.y > n.x && n.x > -n.y {
                assert(floor_normal(self.touching@[idx as int]));
                return true;
            }
            idx += 1;
        }
        false
    }
}

} // verus!

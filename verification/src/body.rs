//! The body store's element: a dimensionless point mass.

use vstd::prelude::*;
use crate::fixed::Fix;
use crate::vec2::Vec2;

verus! {

/// Handle of a body inside the store: its slot in insertion order.
#[derive(Clone, Copy, PartialEq, Eq, Structural, Debug)]
pub struct BodyId(pub usize);

/// A body's dense solver index, assigned when the solver index is
/// rebuilt; meaningful only between rebuilds.
#[derive(Clone, Copy, PartialEq, Eq, Structural, Debug)]
pub struct SubjectToPhysic(pub usize);

/// One simulated point mass.  Infinite mass is not representable:
/// every body is dynamic and `inv_mass` is positive.
#[derive(Clone, Copy, PartialEq, Eq, Structural, Debug)]
pub struct Body {
    /// Current position.
    pub pos: Vec2,
    /// Position at the previous tick, used by Verlet-family variants.
    pub last_tick: Vec2,
    /// Current velocity.
    pub vel: Vec2,
    /// Acceleration accumulator, used by variants needing jerk terms.
    pub accel: Vec2,
    /// Mass.
    pub mass: Fix,
    /// Inverse mass, the primary quantity in all solves.
    pub inv_mass: Fix,
    /// Dense solver index tag.
    pub tag: SubjectToPhysic,
}

impl Body {
    /// A body is valid when its inverse mass is positive.
    pub open spec fn wf(self) -> bool {
        self.inv_mass@ > 0
    }
}

} // verus!

use vstd::prelude::*;

use crate::number::HALF_BITS;
use crate::number::Number;
use crate::vector2::Vector2;

verus! {

/// A circular rigid body: a mass point with a radius, a position and a
/// velocity. The force and collision math divides by the mass and by squared
/// distances, so a body is well formed only with positive mass and radius.
#[derive(Clone, Copy, Debug, PartialEq, Eq, Structural)]
pub struct Circle {
    pub position: Vector2,
    pub velocity: Vector2,
    pub mass: Number,
    pub radius: Number,
}

impl Circle {
    /// Positive mass and radius, required for the force and collision math to
    /// be well defined.
    pub open spec fn wf(self) -> bool {
        &&& self.mass.bits > 0
        &&& self.radius.bits > 0
    }

    /// Kinetic energy: one half times the mass times the squared speed.
    pub open spec fn spec_energy(self) -> Number {
        Number { bits: HALF_BITS }.spec_mul(self.mass).spec_mul(self.velocity.spec_sqr_length())
    }

    pub fn get_energy(&self) -> (r: Number)
        ensures
            r == self.spec_energy(),
    {
        Number::from_bits(HALF_BITS).mul(self.mass).mul(self.velocity.sqr_length())
    }
}

} // verus!

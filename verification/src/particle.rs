//! One particle of the fluid.

use crate::fixed::FixedPt;
use crate::pair::FixedPtNearFar;
use crate::vector::FixedPtVec2D;
use vstd::prelude::*;

verus! {

/// A point particle: where it is, where it was before the last move, how
/// fast it moves, and the pressure and density the last relaxation gave it.
#[derive(Copy, Clone, Debug, PartialEq, Eq, Structural)]
pub struct Particle {
    pub position: FixedPtVec2D,
    pub previous_position: FixedPtVec2D,
    pub velocity: FixedPtVec2D,
    pub pressure: FixedPtNearFar,
    pub density: FixedPtNearFar,
}

impl Particle {
    /// A particle at rest at the integer point `(x, y)`.
    pub open spec fn at(x: int, y: int) -> Particle {
        Particle {
            position: FixedPtVec2D::from_ints(x, y),
            previous_position: FixedPtVec2D::from_ints(x, y),
            velocity: FixedPtVec2D::from_ints(0, 0),
            pressure: FixedPtNearFar::from_ints(0, 0),
            density: FixedPtNearFar::from_ints(0, 0),
        }
    }

    /// Length estimate of the displacement to `other`.
    pub open spec fn distance_to_spec(self, other: Particle) -> FixedPt {
        self.position.distance_to_spec(other.position)
    }

    /// Displacement to `other`.
    pub open spec fn vector_to_spec(self, other: Particle) -> FixedPtVec2D {
        self.position.vector_to_spec(other.position)
    }

    /// The speed at which `self` closes in on `other`: the velocity of `self`
    /// relative to `other`, projected on the unit direction from `self` to
    /// `other` (the inward radial velocity).
    pub open spec fn approach_speed_of_spec(self, other: Particle) -> FixedPt
        recommends
            self.vector_to_spec(other).magnitude_spec().value != 0,
    {
        other.velocity.vector_to_spec(self.velocity).dot_spec(
            self.vector_to_spec(other).unit_spec(),
        )
    }

    /// The pixel the particle is drawn at: both coordinates rounded toward
    /// negative infinity and kept to eight bits.
    pub open spec fn display_position(self) -> (int, int) {
        (
            crate::fixed::wrap_i8(self.position.x.floor()),
            crate::fixed::wrap_i8(self.position.y.floor()),
        )
    }

    /// The particle moved to the integer point `(x, y)`; nothing else changes.
    pub open spec fn placed_at(self, x: int, y: int) -> Particle {
        Particle { position: FixedPtVec2D::from_ints(x, y), ..self }
    }
}

impl Particle {
    /// A particle at rest at `(x, y)`, with no pressure and no density.
    pub fn new(x: i8, y: i8) -> (r: Particle)
        ensures
            r == Particle::at(x as int, y as int),
    {
        Particle {
            position: FixedPtVec2D::from_i8s(x, y),
            previous_position: FixedPtVec2D::from_i8s(x, y),
            velocity: FixedPtVec2D::from_i8s(0, 0),
            pressure: FixedPtNearFar::from_i8s(0, 0),
            density: FixedPtNearFar::from_i8s(0, 0),
        }
    }

    /// Length estimate of the displacement to `particle`.
    pub fn distance_to(&self, particle: &Particle) -> (r: FixedPt)
        ensures
            r == self.distance_to_spec(*particle),
    {
        self.position.distance_to(&particle.position)
    }

    /// Displacement to `particle`.
    pub fn vector_to(&self, particle: &Particle) -> (r: FixedPtVec2D)
        ensures
            r == self.vector_to_spec(*particle),
    {
        self.position.vector_to(&particle.position)
    }

    /// The inward radial velocity toward `particle`. The two particles must
    /// not be at distance zero.
    pub fn approach_speed_of(&self, particle: &Particle) -> (r: FixedPt)
        requires
            self.vector_to_spec(*particle).magnitude_spec().value != 0,
        ensures
            r == self.approach_speed_of_spec(*particle),
    {
        let direction = self.position.vector_to(&particle.position).unit();
        let velocity_diff = particle.velocity.vector_to(&self.velocity);
        velocity_diff.dot(&direction)
    }

    /// The pixel the particle is drawn at.
    pub fn get_display_position(&self) -> (r: (i8, i8))
        ensures
            (r.0 as int, r.1 as int) == self.display_position(),
            -128 <= self.position.x.floor() < 128 ==> r.0 == self.position.x.floor(),
            -128 <= self.position.y.floor() < 128 ==> r.1 == self.position.y.floor(),
    {
        (self.position.x.to_i8(), self.position.y.to_i8())
    }

    /// Moves the particle to `(x, y)`; velocity and the rest stay.
    pub fn set_position(&mut self, x: i8, y: i8)
        ensures
            *final(self) == old(self).placed_at(x as int, y as int),
    {
        self.position = FixedPtVec2D::from_i8s(x, y);
    }
}

} // verus!

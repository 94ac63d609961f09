//! Paired scalars: the near and far channels of the double-density method,
//! and the two viscosity coefficients.

use crate::fixed::FixedPt;
use vstd::prelude::*;

verus! {

/// Two coupled channels, density or pressure: `near` belongs to the cubic
/// short-range kernel, `far` to the quadratic kernel that spans the whole
/// interaction radius.
#[derive(Copy, Clone, Debug, PartialEq, Eq, Structural)]
pub struct FixedPtNearFar {
    pub near: FixedPt,
    pub far: FixedPt,
}

impl FixedPtNearFar {
    /// Channelwise sum.
    pub open spec fn spec_add(self, rhs: FixedPtNearFar) -> FixedPtNearFar {
        FixedPtNearFar { near: self.near + rhs.near, far: self.far + rhs.far }
    }

    /// The pair that stands for the integers `(near, far)`.
    pub open spec fn from_ints(near: int, far: int) -> FixedPtNearFar {
        FixedPtNearFar { near: FixedPt::from_int(near), far: FixedPt::from_int(far) }
    }

    /// Both channels zero.
    pub open spec fn zero_spec() -> FixedPtNearFar {
        FixedPtNearFar { near: FixedPt { value: 0 }, far: FixedPt { value: 0 } }
    }

    /// Both channels zero.
    pub fn zero() -> (r: FixedPtNearFar)
        ensures
            r == FixedPtNearFar::zero_spec(),
    {
        FixedPtNearFar { near: FixedPt::zero(), far: FixedPt::zero() }
    }

    /// The pair that stands for the integers `(near, far)`.
    pub fn from_i8s(near: i8, far: i8) -> (r: FixedPtNearFar)
        ensures
            r == FixedPtNearFar::from_ints(near as int, far as int),
            r.near.value == near * 0x1_0000,
            r.far.value == far * 0x1_0000,
    {
        FixedPtNearFar { near: FixedPt::from_i8(near), far: FixedPt::from_i8(far) }
    }
}

impl core::ops::AddAssign for FixedPtNearFar {
    /// Adds `rhs` channel by channel.
    fn add_assign(&mut self, rhs: FixedPtNearFar)
        ensures
            *final(self) == old(self).spec_add(rhs),
    {
        self.near = self.near + rhs.near;
        self.far = self.far + rhs.far;
    }
}

/// The linear (`sigma`) and quadratic (`beta`) viscosity coefficients.
#[derive(Copy, Clone, Debug, PartialEq, Eq, Structural)]
pub struct FixedPtViscosity {
    pub sigma: FixedPt,
    pub beta: FixedPt,
}

impl FixedPtViscosity {
    /// The coefficients that stand for the integers `(sigma, beta)`.
    pub open spec fn from_ints(sigma: int, beta: int) -> FixedPtViscosity {
        FixedPtViscosity { sigma: FixedPt::from_int(sigma), beta: FixedPt::from_int(beta) }
    }

    /// The coefficients that stand for the integers `(sigma, beta)`.
    pub fn from_i8s(sigma: i8, beta: i8) -> (r: FixedPtViscosity)
        ensures
            r == FixedPtViscosity::from_ints(sigma as int, beta as int),
            r.sigma.value == sigma * 0x1_0000,
            r.beta.value == beta * 0x1_0000,
    {
        FixedPtViscosity { sigma: FixedPt::from_i8(sigma), beta: FixedPt::from_i8(beta) }
    }
}

} // verus!

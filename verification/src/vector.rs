//! Two-dimensional vectors of fixed-point scalars.

use crate::fixed::FixedPt;
use vstd::prelude::*;

verus! {

/// Raw value of the scalar nearest below `sqrt(2) - 1`, the weight of the
/// shorter side in the octagonal length estimate.
pub const SQRT_2_MINUS_1_RAW: i32 = 27145;

/// A point or a displacement in the plane.
#[derive(Copy, Clone, Debug, PartialEq, Eq, Structural)]
pub struct FixedPtVec2D {
    pub x: FixedPt,
    pub y: FixedPt,
}

impl FixedPtVec2D {
    /// Componentwise sum.
    pub open spec fn spec_add(self, rhs: FixedPtVec2D) -> FixedPtVec2D {
        FixedPtVec2D { x: self.x + rhs.x, y: self.y + rhs.y }
    }

    /// Componentwise difference.
    pub open spec fn spec_sub(self, rhs: FixedPtVec2D) -> FixedPtVec2D {
        FixedPtVec2D { x: self.x - rhs.x, y: self.y - rhs.y }
    }

    /// Each component times the scalar `rhs`.
    pub open spec fn spec_mul(self, rhs: FixedPt) -> FixedPtVec2D {
        FixedPtVec2D { x: self.x * rhs, y: self.y * rhs }
    }

    /// Each component divided by the scalar `rhs`.
    pub open spec fn spec_div(self, rhs: FixedPt) -> FixedPtVec2D
        recommends
            rhs.value != 0,
    {
        FixedPtVec2D { x: self.x.spec_div(rhs), y: self.y.spec_div(rhs) }
    }

    /// Each component divided by the integer `rhs`.
    pub open spec fn over_int(self, rhs: int) -> FixedPtVec2D
        recommends
            rhs != 0,
    {
        FixedPtVec2D { x: self.x.over_int(rhs), y: self.y.over_int(rhs) }
    }

    /// The vector that stands for the integer point `(x, y)`.
    pub open spec fn from_ints(x: int, y: int) -> FixedPtVec2D {
        FixedPtVec2D { x: FixedPt::from_int(x), y: FixedPt::from_int(y) }
    }

    /// `a.x * b.x + a.y * b.y`.
    pub open spec fn dot_spec(self, other: FixedPtVec2D) -> FixedPt {
        self.x * other.x + self.y * other.y
    }

    /// The displacement from `self` to `other`.
    pub open spec fn vector_to_spec(self, other: FixedPtVec2D) -> FixedPtVec2D {
        other.spec_sub(self)
    }

    /// The longer of the two absolute components.
    pub open spec fn longer_side(self) -> FixedPt {
        if self.x.spec_abs().value >= self.y.spec_abs().value {
            self.x.spec_abs()
        } else {
            self.y.spec_abs()
        }
    }

    /// The shorter of the two absolute components.
    pub open spec fn shorter_side(self) -> FixedPt {
        if self.x.spec_abs().value >= self.y.spec_abs().value {
            self.y.spec_abs()
        } else {
            self.x.spec_abs()
        }
    }

    /// The octagonal estimate of the length: the longer side plus
    /// `sqrt(2) - 1` times the shorter side. It is no Euclidean norm.
    pub open spec fn magnitude_spec(self) -> FixedPt {
        self.longer_side() + self.shorter_side() * (FixedPt { value: SQRT_2_MINUS_1_RAW })
    }

    /// The vector divided by its own length estimate.
    pub open spec fn unit_spec(self) -> FixedPtVec2D
        recommends
            self.magnitude_spec().value != 0,
    {
        self.spec_div(self.magnitude_spec())
    }

    /// The length estimate of the displacement from `self` to `other`.
    pub open spec fn distance_to_spec(self, other: FixedPtVec2D) -> FixedPt {
        self.vector_to_spec(other).magnitude_spec()
    }
}

impl FixedPtVec2D {
    /// The vector that stands for the integer point `(x, y)`.
    pub fn from_i8s(x: i8, y: i8) -> (r: FixedPtVec2D)
        ensures
            r == FixedPtVec2D::from_ints(x as int, y as int),
            r.x.value == x * 0x1_0000,
            r.y.value == y * 0x1_0000,
    {
        FixedPtVec2D { x: FixedPt::from_i8(x), y: FixedPt::from_i8(y) }
    }

    /// Dot product.
    pub fn dot(&self, vector_2: &FixedPtVec2D) -> (r: FixedPt)
        ensures
            r == self.dot_spec(*vector_2),
    {
        self.x * vector_2.x + self.y * vector_2.y
    }

    /// Length estimate of the displacement from `self` to `position`.
    pub fn distance_to(&self, position: &FixedPtVec2D) -> (r: FixedPt)
        ensures
            r == self.distance_to_spec(*position),
    {
        self.vector_to(position).magnitude()
    }

    /// Octagonal length estimate.
    pub fn magnitude(&self) -> (r: FixedPt)
        ensures
            r == self.magnitude_spec(),
    {
        let dx = self.x.abs();
        let dy = self.y.abs();
        let (a, b) = if dx.value >= dy.value {
            (dx, dy)
        } else {
            (dy, dx)
        };
        a + b * FixedPt { value: SQRT_2_MINUS_1_RAW }
    }

    /// The vector scaled to length one by its own length estimate.
    pub fn unit(&self) -> (r: FixedPtVec2D)
        requires
            self.magnitude_spec().value != 0,
        ensures
            r == self.unit_spec(),
    {
        *self / self.magnitude()
    }

    /// Displacement from `self` to `vector_2`.
    pub fn vector_to(&self, vector_2: &FixedPtVec2D) -> (r: FixedPtVec2D)
        ensures
            r == self.vector_to_spec(*vector_2),
    {
        FixedPtVec2D { x: vector_2.x - self.x, y: vector_2.y - self.y }
    }
}

impl core::ops::Add for FixedPtVec2D {
    type Output = FixedPtVec2D;

    /// Componentwise sum.
    fn add(self, rhs: FixedPtVec2D) -> (r: FixedPtVec2D) {
        FixedPtVec2D { x: self.x + rhs.x, y: self.y + rhs.y }
    }
}

impl vstd::std_specs::ops::AddSpecImpl for FixedPtVec2D {
    open spec fn obeys_add_spec() -> bool {
        true
    }

    open spec fn add_req(self, rhs: FixedPtVec2D) -> bool {
        true
    }

    open spec fn add_spec(self, rhs: FixedPtVec2D) -> FixedPtVec2D {
        self.spec_add(rhs)
    }
}

impl core::ops::AddAssign for FixedPtVec2D {
    /// `self` becomes the componentwise sum.
    fn add_assign(&mut self, rhs: FixedPtVec2D)
        ensures
            *final(self) == old(self).spec_add(rhs),
    {
        self.x = self.x + rhs.x;
        self.y = self.y + rhs.y;
    }
}

impl core::ops::Sub for FixedPtVec2D {
    type Output = FixedPtVec2D;

    /// Componentwise difference.
    fn sub(self, rhs: FixedPtVec2D) -> (r: FixedPtVec2D) {
        FixedPtVec2D { x: self.x - rhs.x, y: self.y - rhs.y }
    }
}

impl vstd::std_specs::ops::SubSpecImpl for FixedPtVec2D {
    open spec fn obeys_sub_spec() -> bool {
        true
    }

    open spec fn sub_req(self, rhs: FixedPtVec2D) -> bool {
        true
    }

    open spec fn sub_spec(self, rhs: FixedPtVec2D) -> FixedPtVec2D {
        self.spec_sub(rhs)
    }
}

impl core::ops::SubAssign for FixedPtVec2D {
    /// `self` becomes the componentwise difference.
    fn sub_assign(&mut self, rhs: FixedPtVec2D)
        ensures
            *final(self) == old(self).spec_sub(rhs),
    {
        self.x = self.x - rhs.x;
        self.y = self.y - rhs.y;
    }
}

impl core::ops::Mul<FixedPt> for FixedPtVec2D {
    type Output = FixedPtVec2D;

    /// Each component times the scalar.
    fn mul(self, rhs: FixedPt) -> (r: FixedPtVec2D) {
        FixedPtVec2D { x: self.x * rhs, y: self.y * rhs }
    }
}

impl vstd::std_specs::ops::MulSpecImpl<FixedPt> for FixedPtVec2D {
    open spec fn obeys_mul_spec() -> bool {
        true
    }

    open spec fn mul_req(self, rhs: FixedPt) -> bool {
        true
    }

    open spec fn mul_spec(self, rhs: FixedPt) -> FixedPtVec2D {
        self.spec_mul(rhs)
    }
}

impl core::ops::Div<FixedPt> for FixedPtVec2D {
    type Output = FixedPtVec2D;

    /// Each component divided by the scalar, which must not be zero.
    fn div(self, rhs: FixedPt) -> (r: FixedPtVec2D) {
        FixedPtVec2D { x: self.x / rhs, y: self.y / rhs }
    }
}

impl vstd::std_specs::ops::DivSpecImpl<FixedPt> for FixedPtVec2D {
    open spec fn obeys_div_spec() -> bool {
        true
    }

    open spec fn div_req(self, rhs: FixedPt) -> bool {
        rhs.value != 0
    }

    open spec fn div_spec(self, rhs: FixedPt) -> FixedPtVec2D {
        self.spec_div(rhs)
    }
}

impl core::ops::Div<i32> for FixedPtVec2D {
    type Output = FixedPtVec2D;

    /// Each component divided by the integer, which must not be zero.
    fn div(self, rhs: i32) -> (r: FixedPtVec2D) {
        FixedPtVec2D { x: self.x / rhs, y: self.y / rhs }
    }
}

impl vstd::std_specs::ops::DivSpecImpl<i32> for FixedPtVec2D {
    open spec fn obeys_div_spec() -> bool {
        true
    }

    open spec fn div_req(self, rhs: i32) -> bool {
        rhs != 0
    }

    open spec fn div_spec(self, rhs: i32) -> FixedPtVec2D {
        self.over_int(rhs as int)
    }
}

/// The length estimate is exact on the axes: a vector with one component
/// zero and the other `l >= 0` has length exactly `l`. For a negative `l`
/// above the most negative scalar the length is `-l`.
pub proof fn lemma_magnitude_on_axis(l: FixedPt)
    ensures
        l.value >= 0 ==> (FixedPtVec2D { x: l, y: FixedPt { value: 0 } }).magnitude_spec() == l,
        l.value >= 0 ==> (FixedPtVec2D { x: FixedPt { value: 0 }, y: l }).magnitude_spec() == l,
        l.value > i32::MIN ==> (FixedPtVec2D { x: l, y: FixedPt { value: 0 } }).magnitude_spec()
            == l.spec_abs(),
        l.value > i32::MIN ==> (FixedPtVec2D { x: FixedPt { value: 0 }, y: l }).magnitude_spec()
            == l.spec_abs(),
{
    reveal(FixedPt::spec_abs);
    reveal(FixedPt::spec_add);
    reveal(FixedPt::spec_mul);
    let zero = FixedPt { value: 0 };
    let c = FixedPt { value: SQRT_2_MINUS_1_RAW };
    assert(zero.spec_abs() == zero);
    assert(0int / 0x100 == 0);
    assert((0int / 0x100) * (c.value as int / 0x100) == 0);
    assert(zero * c == zero);
}

/// The length estimate does not see the signs of the components.
pub proof fn lemma_magnitude_of_abs(v: FixedPtVec2D)
    ensures
        (FixedPtVec2D { x: v.x.spec_abs(), y: v.y.spec_abs() }).magnitude_spec()
            == v.magnitude_spec(),
{
    reveal(FixedPt::spec_abs);
}

/// On the diagonal the length estimate is within four percent of the true
/// length `l * sqrt(2)`, for every `l` from `0x700` (about 0.027) up to
/// `0x5A00_0000` (23040.0). With `m` the estimate this reads
/// `0.96^2 * 2 * l^2 <= m^2 <= 1.04^2 * 2 * l^2`, all in raw values.
/// Below that range the shorter side's share is rounded away, above it the
/// sum wraps.
pub proof fn lemma_magnitude_on_diagonal(l: FixedPt)
    requires
        0x700 <= l.value <= 0x5A00_0000,
    ensures
        ({
            let m = (FixedPtVec2D { x: l, y: l }).magnitude_spec().value as int;
            &&& m == l.value + 106 * (l.value as int / 0x100)
            &&& 10000 * (m * m) >= 9216 * 2 * (l.value * l.value)
            &&& 10000 * (m * m) <= 10816 * 2 * (l.value * l.value)
        }),
{
    reveal(FixedPt::spec_abs);
    reveal(FixedPt::spec_add);
    reveal(FixedPt::spec_mul);
    let n = l.value as int;
    let q = n / 0x100;
    let c = FixedPt { value: SQRT_2_MINUS_1_RAW };
    assert(c.value as int / 0x100 == 106);
    assert(q * 106 <= 0x5A_0000 * 106);
    assert((l * c).value == q * 106);
    let m = n + 106 * q;
    assert((FixedPtVec2D { x: l, y: l }).magnitude_spec().value == m);
    assert(100 * m >= 136 * n);
    assert(256 * m <= 362 * n);
    assert(10000 * (m * m) >= 9216 * 2 * (n * n)) by (nonlinear_arith)
        requires
            100 * m >= 136 * n,
            n >= 0,
            m >= 0,
    {
        assert((100 * m) * (100 * m) >= (136 * n) * (136 * n));
        assert(n * n >= 0);
    }
    assert(10000 * (m * m) <= 10816 * 2 * (n * n)) by (nonlinear_arith)
        requires
            256 * m <= 362 * n,
            m >= 0,
            n >= 0,
    {
        assert((256 * m) * (256 * m) <= (362 * n) * (362 * n));
        assert(n * n >= 0);
    }
}

/// The length estimate is zero for the zero vector and, as long as no
/// component is the most negative scalar, for no other: every other vector
/// has a unit vector.
pub proof fn lemma_magnitude_is_zero_only_at_zero(v: FixedPtVec2D)
    requires
        v.x.value > i32::MIN,
        v.y.value > i32::MIN,
    ensures
        v.magnitude_spec().value == 0 <==> (v.x.value == 0 && v.y.value == 0),
{
    reveal(FixedPt::spec_abs);
    reveal(FixedPt::spec_add);
    reveal(FixedPt::spec_mul);
    let hi = v.longer_side().value as int;
    let lo = v.shorter_side().value as int;
    let c = FixedPt { value: SQRT_2_MINUS_1_RAW };
    assert(c.value as int / 0x100 == 106);
    let q = lo / 0x100;
    assert(-0x80_0000 <= q < 0x80_0000);
    assert((v.shorter_side() * c).value == q * 106);
    assert(v.magnitude_spec().value == crate::fixed::wrap_i32(hi + q * 106));
}

} // verus!

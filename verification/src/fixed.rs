//! The Q16.16 fixed-point scalar.
//!
//! A scalar is a 32-bit signed integer `value`; the number it stands for is
//! `value / 2^16`. Every operation is total (division apart, which needs a
//! nonzero divisor) and wraps around modulo `2^32` where the exact result does
//! not fit, so that no operation can fail at run time.
//!
//! The operations are specified by the spec functions `spec_add`, `spec_sub`,
//! `spec_mul`, `spec_div`, `times_int`, `over_int` and `spec_abs`, each a
//! formula on the raw values. They are opaque, so that proofs about whole
//! ticks are not flooded with arithmetic; a proof that needs the numbers
//! reveals them. The executable operators also state their raw result
//! outright.

use vstd::prelude::*;

verus! {

/// The integer in `[-2^31, 2^31)` that is congruent to `n` modulo `2^32`.
pub open spec fn wrap_i32(n: int) -> int {
    let m = n % 0x1_0000_0000;
    if m >= 0x8000_0000 {
        m - 0x1_0000_0000
    } else {
        m
    }
}

/// The integer in `[-128, 128)` that is congruent to `n` modulo `256`.
pub open spec fn wrap_i8(n: int) -> int {
    let m = n % 0x100;
    if m >= 0x80 {
        m - 0x100
    } else {
        m
    }
}

/// The quotient of `a` by `b`, rounded toward zero.
pub open spec fn trunc_div(a: int, b: int) -> int
    recommends
        b != 0,
{
    if a >= 0 {
        if b > 0 {
            a / b
        } else {
            -(a / (-b))
        }
    } else {
        if b > 0 {
            -((-a) / b)
        } else {
            (-a) / (-b)
        }
    }
}

/// A signed Q16.16 number: the represented value is `value / 2^16`.
///
/// The order of two scalars is the order of their raw values.
#[derive(Copy, Clone, Debug, PartialEq, Eq, PartialOrd, Ord, Structural)]
pub struct FixedPt {
    pub value: i32,
}

impl FixedPt {
    /// Number of fractional bits.
    pub const BASE: u8 = 16;

    /// Number of bits each factor of a product gives up.
    pub const HALF_BASE: u8 = 8;

    /// The scalar whose raw value is `n` wrapped into 32 bits.
    pub open spec fn from_raw(n: int) -> FixedPt {
        FixedPt { value: wrap_i32(n) as i32 }
    }

    /// The scalar that stands for the integer `k`.
    pub open spec fn from_int(k: int) -> FixedPt {
        FixedPt::from_raw(k * 0x1_0000)
    }

    /// Sum of the raw values, wrapped.
    #[verifier::opaque]
    pub open spec fn spec_add(self, rhs: FixedPt) -> FixedPt {
        FixedPt::from_raw(self.value + rhs.value)
    }

    /// Difference of the raw values, wrapped.
    #[verifier::opaque]
    pub open spec fn spec_sub(self, rhs: FixedPt) -> FixedPt {
        FixedPt::from_raw(self.value - rhs.value)
    }

    /// Product of the two raw values after each has lost its low eight bits
    /// (rounded toward negative infinity), wrapped.
    #[verifier::opaque]
    pub open spec fn spec_mul(self, rhs: FixedPt) -> FixedPt {
        FixedPt::from_raw((self.value as int / 0x100) * (rhs.value as int / 0x100))
    }

    /// Quotient, rounded toward zero, of the raw dividend scaled by `2^16` and
    /// the raw divisor, wrapped.
    #[verifier::opaque]
    pub open spec fn spec_div(self, rhs: FixedPt) -> FixedPt
        recommends
            rhs.value != 0,
    {
        FixedPt::from_raw(trunc_div(self.value as int * 0x1_0000, rhs.value as int))
    }

    /// The scalar times the integer `rhs`: the raw value without its low eight
    /// bits, times `rhs * 2^8`, wrapped.
    #[verifier::opaque]
    pub open spec fn times_int(self, rhs: int) -> FixedPt {
        FixedPt::from_raw((self.value as int / 0x100) * (rhs * 0x100))
    }

    /// The scalar divided by the integer `rhs`, rounded toward zero, wrapped.
    #[verifier::opaque]
    pub open spec fn over_int(self, rhs: int) -> FixedPt
        recommends
            rhs != 0,
    {
        FixedPt::from_raw(trunc_div(self.value as int, rhs))
    }

    /// The scalar itself where it is not negative, else its wrapped negation.
    #[verifier::opaque]
    pub open spec fn spec_abs(self) -> FixedPt {
        if self.value < 0 {
            FixedPt::from_raw(-self.value)
        } else {
            self
        }
    }

    /// The integer part, rounded toward negative infinity.
    pub open spec fn floor(self) -> int {
        self.value as int / 0x1_0000
    }
}

impl FixedPt {
    /// The scalar zero.
    pub fn zero() -> (r: FixedPt)
        ensures
            r.value == 0,
    {
        FixedPt { value: 0 }
    }

    /// The scalar that stands for the integer `value`: exact.
    pub fn from_i8(value: i8) -> (r: FixedPt)
        ensures
            r.value == value * 0x1_0000,
            r == FixedPt::from_int(value as int),
    {
        let wide: i32 = value as i32;
        assert((wide << 16u32) == wide * 0x1_0000) by (bit_vector)
            requires
                -128 <= wide < 128,
        ;
        FixedPt { value: wide << 16u32 }
    }

    /// The magnitude: a negative scalar is negated (the most negative scalar
    /// has no positive counterpart and stays as it is).
    pub fn abs(self) -> (r: FixedPt)
        ensures
            r == self.spec_abs(),
            self.value >= 0 ==> r == self,
            i32::MIN < self.value < 0 ==> r.value == -self.value,
            self.value == i32::MIN ==> r == self,
    {
        proof {
            reveal(FixedPt::spec_abs);
        }
        if self.value < 0 {
            FixedPt { value: 0i32.wrapping_sub(self.value) }
        } else {
            self
        }
    }

    /// The integer part, rounded toward negative infinity, kept to its low
    /// eight bits.
    pub fn to_i8(&self) -> (r: i8)
        ensures
            r == wrap_i8(self.floor()),
            -128 <= self.floor() < 128 ==> r == self.floor(),
    {
        let v: i32 = self.value;
        let whole: i32 = v >> 16u32;
        assert((v >> 16u32) == v as int / 0x1_0000) by (bit_vector);
        assert((whole as i8) as int == (if (whole as int) % 0x100 >= 0x80 {
            (whole as int) % 0x100 - 0x100
        } else {
            (whole as int) % 0x100
        })) by (bit_vector);
        #[verifier::truncate]
        (whole as i8)
    }
}

impl core::ops::Add for FixedPt {
    type Output = FixedPt;

    /// Exact sum of the raw values; wraps where it does not fit.
    fn add(self, rhs: FixedPt) -> (r: FixedPt)
        ensures
            r.value == wrap_i32(self.value + rhs.value),
    {
        proof {
            reveal(FixedPt::spec_add);
        }
        FixedPt { value: self.value.wrapping_add(rhs.value) }
    }
}

impl vstd::std_specs::ops::AddSpecImpl for FixedPt {
    open spec fn obeys_add_spec() -> bool {
        true
    }

    open spec fn add_req(self, rhs: FixedPt) -> bool {
        true
    }

    open spec fn add_spec(self, rhs: FixedPt) -> FixedPt {
        self.spec_add(rhs)
    }
}

impl core::ops::AddAssign for FixedPt {
    /// `self` becomes the wrapped sum.
    fn add_assign(&mut self, rhs: FixedPt)
        ensures
            *final(self) == old(self).spec_add(rhs),
    {
        proof {
            reveal(FixedPt::spec_add);
        }
        self.value = self.value.wrapping_add(rhs.value);
    }
}

impl core::ops::Sub for FixedPt {
    type Output = FixedPt;

    /// Exact difference of the raw values; wraps where it does not fit.
    fn sub(self, rhs: FixedPt) -> (r: FixedPt)
        ensures
            r.value == wrap_i32(self.value - rhs.value),
    {
        proof {
            reveal(FixedPt::spec_sub);
        }
        FixedPt { value: self.value.wrapping_sub(rhs.value) }
    }
}

impl vstd::std_specs::ops::SubSpecImpl for FixedPt {
    open spec fn obeys_sub_spec() -> bool {
        true
    }

    open spec fn sub_req(self, rhs: FixedPt) -> bool {
        true
    }

    open spec fn sub_spec(self, rhs: FixedPt) -> FixedPt {
        self.spec_sub(rhs)
    }
}

impl core::ops::SubAssign for FixedPt {
    /// `self` becomes the wrapped difference.
    fn sub_assign(&mut self, rhs: FixedPt)
        ensures
            *final(self) == old(self).spec_sub(rhs),
    {
        proof {
            reveal(FixedPt::spec_sub);
        }
        self.value = self.value.wrapping_sub(rhs.value);
    }
}

impl core::ops::Mul for FixedPt {
    type Output = FixedPt;

    /// Single-width product: each factor first loses its low eight bits, so
    /// the result carries about eight fractional bits of precision, not
    /// sixteen.
    fn mul(self, rhs: FixedPt) -> (r: FixedPt)
        ensures
            r.value == wrap_i32((self.value as int / 0x100) * (rhs.value as int / 0x100)),
    {
        proof {
            reveal(FixedPt::spec_mul);
        }
        let a: i32 = self.value;
        let b: i32 = rhs.value;
        assert((a >> 8u32) == a as int / 0x100) by (bit_vector);
        assert((b >> 8u32) == b as int / 0x100) by (bit_vector);
        FixedPt { value: (a >> 8u32).wrapping_mul(b >> 8u32) }
    }
}

impl vstd::std_specs::ops::MulSpecImpl for FixedPt {
    open spec fn obeys_mul_spec() -> bool {
        true
    }

    open spec fn mul_req(self, rhs: FixedPt) -> bool {
        true
    }

    open spec fn mul_spec(self, rhs: FixedPt) -> FixedPt {
        self.spec_mul(rhs)
    }
}

impl core::ops::Div for FixedPt {
    type Output = FixedPt;

    /// Quotient at full fractional precision: the dividend is widened by
    /// sixteen bits before the integer division, which rounds toward zero.
    fn div(self, rhs: FixedPt) -> (r: FixedPt)
        ensures
            r.value == wrap_i32(trunc_div(self.value as int * 0x1_0000, rhs.value as int)),
    {
        proof {
            reveal(FixedPt::spec_div);
        }
        let a: i64 = self.value as i64;
        let b: i64 = rhs.value as i64;
        assert((a << 16u32) == a * 0x1_0000) by (bit_vector)
            requires
                -0x8000_0000 <= a < 0x8000_0000,
        ;
        let wide: i64 = a << 16u32;
        proof {
            lemma_trunc_div_bounds(wide as int, b as int);
            lemma_trunc_div_bounds(-(wide as int), b as int);
        }
        let q: i64 = wide / b;
        assert(q == trunc_div(wide as int, b as int));
        assert((q as i32) as int == (if (q as int) % 0x1_0000_0000 >= 0x8000_0000 {
            (q as int) % 0x1_0000_0000 - 0x1_0000_0000
        } else {
            (q as int) % 0x1_0000_0000
        })) by (bit_vector);
        #[verifier::truncate]
        let value: i32 = q as i32;
        FixedPt { value }
    }
}

impl vstd::std_specs::ops::DivSpecImpl for FixedPt {
    open spec fn obeys_div_spec() -> bool {
        true
    }

    open spec fn div_req(self, rhs: FixedPt) -> bool {
        rhs.value != 0
    }

    open spec fn div_spec(self, rhs: FixedPt) -> FixedPt {
        self.spec_div(rhs)
    }
}

impl core::ops::Mul<i32> for FixedPt {
    type Output = FixedPt;

    /// The scalar times a plain integer; the scalar first loses its low eight
    /// bits, as in a product of two scalars.
    fn mul(self, rhs: i32) -> (r: FixedPt)
        ensures
            r.value == wrap_i32((self.value as int / 0x100) * (rhs * 0x100)),
    {
        proof {
            reveal(FixedPt::times_int);
        }
        let a: i32 = self.value;
        assert((a >> 8u32) == a as int / 0x100) by (bit_vector);
        assert((rhs << 8u32) as int == (if (rhs * 0x100) % 0x1_0000_0000 >= 0x8000_0000 {
            (rhs * 0x100) % 0x1_0000_0000 - 0x1_0000_0000
        } else {
            (rhs * 0x100) % 0x1_0000_0000
        })) by (bit_vector);
        proof {
            lemma_wrap_i32_product(a as int / 0x100, rhs * 0x100);
        }
        FixedPt { value: (a >> 8u32).wrapping_mul(rhs << 8u32) }
    }
}

impl vstd::std_specs::ops::MulSpecImpl<i32> for FixedPt {
    open spec fn obeys_mul_spec() -> bool {
        true
    }

    open spec fn mul_req(self, rhs: i32) -> bool {
        true
    }

    open spec fn mul_spec(self, rhs: i32) -> FixedPt {
        self.times_int(rhs as int)
    }
}

impl core::ops::Div<i32> for FixedPt {
    type Output = FixedPt;

    /// The scalar divided by a plain integer, rounded toward zero.
    fn div(self, rhs: i32) -> (r: FixedPt)
        ensures
            r.value == wrap_i32(trunc_div(self.value as int, rhs as int)),
    {
        proof {
            reveal(FixedPt::over_int);
        }
        let a: i64 = self.value as i64;
        let b: i64 = rhs as i64;
        proof {
            lemma_trunc_div_bounds(a as int, b as int);
            lemma_trunc_div_bounds(-(a as int), b as int);
        }
        let q: i64 = a / b;
        assert((q as i32) as int == (if (q as int) % 0x1_0000_0000 >= 0x8000_0000 {
            (q as int) % 0x1_0000_0000 - 0x1_0000_0000
        } else {
            (q as int) % 0x1_0000_0000
        })) by (bit_vector);
        #[verifier::truncate]
        let value: i32 = q as i32;
        FixedPt { value }
    }
}

impl vstd::std_specs::ops::DivSpecImpl<i32> for FixedPt {
    open spec fn obeys_div_spec() -> bool {
        true
    }

    open spec fn div_req(self, rhs: i32) -> bool {
        rhs != 0
    }

    open spec fn div_spec(self, rhs: i32) -> FixedPt {
        self.over_int(rhs as int)
    }
}

/// Wrapping one factor before a product does not change the wrapped product.
pub proof fn lemma_wrap_i32_product(x: int, y: int)
    ensures
        wrap_i32(x * wrap_i32(y)) == wrap_i32(x * y),
{
    let k = (y - wrap_i32(y)) / 0x1_0000_0000;
    assert(y - wrap_i32(y) == k * 0x1_0000_0000);
    assert(x * wrap_i32(y) == x * y + (-(x * k)) * 0x1_0000_0000) by (nonlinear_arith)
        requires
            y - wrap_i32(y) == k * 0x1_0000_0000,
    ;
    lemma_wrap_i32_periodic(x * y, -(x * k));
}

/// A quotient rounded toward zero is no larger in magnitude than the
/// dividend; and dividing a dividend that is not negative by a negative
/// divisor gives the negated quotient by the divisor's magnitude.
pub proof fn lemma_trunc_div_bounds(a: int, b: int)
    requires
        b != 0,
    ensures
        a >= 0 ==> -a <= trunc_div(a, b) <= a,
        a < 0 ==> a <= trunc_div(a, b) <= -a,
        a >= 0 && b < 0 ==> a / b == -(a / (-b)),
{
    let ma = if a >= 0 { a } else { -a };
    let mb = if b > 0 { b } else { -b };
    assert(0 <= ma / mb <= ma) by (nonlinear_arith)
        requires
            ma >= 0,
            mb > 0,
    ;
    if a >= 0 && b < 0 {
        assert(a / b == -(a / (-b))) by (nonlinear_arith)
            requires
                a >= 0,
                b < 0,
        ;
    }
}

/// Converting a small integer to a scalar and back gives the integer again:
/// the integer part of `from_int(k)` is `k`, and it survives the cut to eight
/// bits.
pub proof fn lemma_integer_round_trip(k: i8)
    ensures
        FixedPt::from_int(k as int).value == k * 0x1_0000,
        FixedPt::from_int(k as int).floor() == k,
        wrap_i8(FixedPt::from_int(k as int).floor()) == k,
{
}

/// Addition and subtraction are exact inverses of each other, wrap-around
/// included: `(a + b) - b == a` and `(a - b) + b == a`.
pub proof fn lemma_add_sub_cancel(a: FixedPt, b: FixedPt)
    ensures
        a.spec_add(b).spec_sub(b) == a,
        a.spec_sub(b).spec_add(b) == a,
{
    reveal(FixedPt::spec_add);
    reveal(FixedPt::spec_sub);
}

/// Where the exact sum or difference fits in 32 bits, it is the result.
pub proof fn lemma_add_sub_exact(a: FixedPt, b: FixedPt)
    ensures
        i32::MIN <= a.value + b.value <= i32::MAX ==> a.spec_add(b).value == a.value + b.value,
        i32::MIN <= a.value - b.value <= i32::MAX ==> a.spec_sub(b).value == a.value - b.value,
{
    reveal(FixedPt::spec_add);
    reveal(FixedPt::spec_sub);
}

/// Zero is neutral for addition and subtraction, absorbing for the
/// product, and a scalar minus itself is zero. Zero divided by anything but
/// zero is zero.
pub proof fn lemma_zero(a: FixedPt)
    ensures
        a + (FixedPt { value: 0 }) == a,
        a - (FixedPt { value: 0 }) == a,
        a - a == (FixedPt { value: 0 }),
        (FixedPt { value: 0 }) * a == (FixedPt { value: 0 }),
        a * (FixedPt { value: 0 }) == (FixedPt { value: 0 }),
        a.value != 0 ==> (FixedPt { value: 0 }).spec_div(a) == (FixedPt { value: 0 }),
{
    reveal(FixedPt::spec_add);
    reveal(FixedPt::spec_sub);
    reveal(FixedPt::spec_mul);
    reveal(FixedPt::spec_div);
    assert(0int / 0x100 == 0);
    assert((0int / 0x100) * (a.value as int / 0x100) == 0);
    assert((a.value as int / 0x100) * (0int / 0x100) == 0);
    if a.value != 0 {
        lemma_trunc_div_bounds(0, a.value as int);
        assert(trunc_div(0int * 0x1_0000, a.value as int) == 0);
    }
}

/// Wrapping forgets multiples of `2^32`.
pub proof fn lemma_wrap_i32_periodic(n: int, k: int)
    ensures
        wrap_i32(n + k * 0x1_0000_0000) == wrap_i32(n),
{
    vstd::arithmetic::div_mod::lemma_mod_multiples_vanish(k, n, 0x1_0000_0000);
}

} // verus!

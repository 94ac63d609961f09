use fluid_sim::fixed::FixedPt;
use fluid_sim::pair::{FixedPtNearFar, FixedPtViscosity};
use fluid_sim::vector::{FixedPtVec2D, SQRT_2_MINUS_1_RAW};

fn raw(value: i32) -> FixedPt {
    FixedPt { value }
}

fn vec_raw(x: i32, y: i32) -> FixedPtVec2D {
    FixedPtVec2D { x: raw(x), y: raw(y) }
}

#[test]
fn vector_from_integers() {
    let v = FixedPtVec2D::from_i8s(3, -4);
    assert_eq!(v.x.value, 3 * 65536);
    assert_eq!(v.y.value, -4 * 65536);
}

#[test]
fn componentwise_sum_and_difference() {
    let a = FixedPtVec2D::from_i8s(1, 2);
    let b = FixedPtVec2D::from_i8s(10, -20);
    assert_eq!(a + b, FixedPtVec2D::from_i8s(11, -18));
    assert_eq!(a - b, FixedPtVec2D::from_i8s(-9, 22));
    let mut c = a;
    c += b;
    assert_eq!(c, FixedPtVec2D::from_i8s(11, -18));
    c -= b;
    assert_eq!(c, a);
}

#[test]
fn scaling_and_dividing_a_vector() {
    let v = FixedPtVec2D::from_i8s(3, -6);
    assert_eq!(v * raw(0x8000), vec_raw(0x1_8000, -0x3_0000));
    assert_eq!(v / FixedPt::from_i8(3), FixedPtVec2D::from_i8s(1, -2));
    assert_eq!(v / 3, FixedPtVec2D::from_i8s(1, -2));
    assert_eq!(vec_raw(7, -7) / 2, vec_raw(3, -3));
}

#[test]
fn dot_product() {
    let a = FixedPtVec2D::from_i8s(1, 2);
    let b = FixedPtVec2D::from_i8s(3, 4);
    assert_eq!(a.dot(&b), FixedPt::from_i8(11));
    assert_eq!(a.dot(&FixedPtVec2D::from_i8s(-2, 1)), FixedPt::from_i8(0));
}

#[test]
fn displacement_points_from_the_first_to_the_second() {
    let a = FixedPtVec2D::from_i8s(1, 2);
    let b = FixedPtVec2D::from_i8s(4, -2);
    assert_eq!(a.vector_to(&b), FixedPtVec2D::from_i8s(3, -4));
    assert_eq!(b.vector_to(&a), FixedPtVec2D::from_i8s(-3, 4));
}

#[test]
fn magnitude_is_exact_on_the_axes() {
    let lengths = [0, 1, 255, 256, 65536, 3 * 65536, 123456789, i32::MAX];
    for &l in lengths.iter() {
        assert_eq!(vec_raw(l, 0).magnitude(), raw(l));
        assert_eq!(vec_raw(0, l).magnitude(), raw(l));
        if l > 0 {
            assert_eq!(vec_raw(-l, 0).magnitude(), raw(l));
            assert_eq!(vec_raw(0, -l).magnitude(), raw(l));
        }
    }
}

#[test]
fn magnitude_is_the_octagonal_estimate() {
    assert_eq!(SQRT_2_MINUS_1_RAW, 27145);
    // 3, 4: 4 + 3 * 106 / 256 = 5.2421875
    assert_eq!(FixedPtVec2D::from_i8s(3, 4).magnitude().value, 4 * 65536 + 768 * 106);
    assert_eq!(FixedPtVec2D::from_i8s(-4, 3).magnitude().value, 4 * 65536 + 768 * 106);
    assert_eq!(FixedPtVec2D::from_i8s(3, 4).magnitude().value, 343552);
}

#[test]
fn magnitude_on_the_diagonal_is_within_four_percent() {
    let lengths: [i32; 7] = [0x700, 0x7ff, 65536, 10 * 65536, 100 * 65536, 0x1234_5678, 0x5a00_0000];
    for &l in lengths.iter() {
        let m = vec_raw(l, l).magnitude().value;
        assert_eq!(m as i64, l as i64 + 106 * (l as i64 / 256));
        let exact = l as f64 * 2.0f64.sqrt();
        assert!((m as f64 - exact).abs() <= 0.04 * exact, "{} {}", m, exact);
    }
    assert_eq!(FixedPtVec2D::from_i8s(10, 10).magnitude().value, 926720);
}

#[test]
fn magnitude_of_a_tiny_diagonal_loses_the_shorter_side() {
    assert_eq!(vec_raw(255, 255).magnitude().value, 255);
}

#[test]
fn unit_vector_divides_by_the_magnitude() {
    assert_eq!(FixedPtVec2D::from_i8s(5, 0).unit(), FixedPtVec2D::from_i8s(1, 0));
    assert_eq!(FixedPtVec2D::from_i8s(0, -7).unit(), FixedPtVec2D::from_i8s(0, -1));
    let v = FixedPtVec2D::from_i8s(3, 4);
    let m = v.magnitude();
    assert_eq!(v.unit(), v / m);
    assert_eq!(v.unit(), vec_raw(37504, 50006));
}

#[test]
fn distance_is_the_magnitude_of_the_displacement() {
    let a = FixedPtVec2D::from_i8s(0, 0);
    let b = FixedPtVec2D::from_i8s(3, 0);
    assert_eq!(a.distance_to(&b), FixedPt::from_i8(3));
    assert_eq!(b.distance_to(&a), FixedPt::from_i8(3));
    let c = FixedPtVec2D::from_i8s(4, 3);
    assert_eq!(a.distance_to(&c).value, 343552);
}

#[test]
fn near_far_pair_accumulates_channel_by_channel() {
    let mut d = FixedPtNearFar::zero();
    assert_eq!(d, FixedPtNearFar::from_i8s(0, 0));
    d += FixedPtNearFar { near: raw(35152), far: raw(43264) };
    d += FixedPtNearFar { near: raw(1), far: raw(-2) };
    assert_eq!(d.near.value, 35153);
    assert_eq!(d.far.value, 43262);
    let p = FixedPtNearFar::from_i8s(4, -1);
    assert_eq!(p.near.value, 4 * 65536);
    assert_eq!(p.far.value, -65536);
}

#[test]
fn viscosity_from_integers() {
    let v = FixedPtViscosity::from_i8s(0, 2);
    assert_eq!(v.sigma.value, 0);
    assert_eq!(v.beta.value, 2 * 65536);
}

#[test]
fn magnitude_is_zero_at_the_zero_vector() {
    assert_eq!(vec_raw(0, 0).magnitude().value, 0);
    assert_ne!(vec_raw(1, 0).magnitude().value, 0);
    assert_ne!(vec_raw(0, -1).magnitude().value, 0);
    assert_ne!(vec_raw(-1, 1).magnitude().value, 0);
}

#[test]
fn magnitude_with_the_most_negative_component_wraps() {
    // the most negative scalar is its own absolute value, so it counts as the shorter side
    assert_eq!(vec_raw(i32::MIN, 0).magnitude().value, -889192448);
    assert_eq!(vec_raw(i32::MIN, 889192448).magnitude().value, 0);
}

#[test]
fn the_weight_of_the_shorter_side_is_the_scalar_below_the_root() {
    assert_eq!((0.41421356f64 * 65536.0) as i32, SQRT_2_MINUS_1_RAW);
    assert!((SQRT_2_MINUS_1_RAW as f64 / 65536.0 - (2.0f64.sqrt() - 1.0)).abs() < 1.0 / 65536.0);
}

use fluid_sim::fixed::FixedPt;

fn raw(value: i32) -> FixedPt {
    FixedPt { value }
}

#[test]
fn integer_round_trip_for_every_small_integer() {
    let mut k: i8 = i8::MIN;
    loop {
        assert_eq!(FixedPt::from_i8(k).to_i8(), k);
        if k == i8::MAX {
            break;
        }
        k += 1;
    }
}

#[test]
fn from_integer_is_a_left_shift_by_sixteen() {
    assert_eq!(FixedPt::from_i8(0).value, 0);
    assert_eq!(FixedPt::from_i8(1).value, 65536);
    assert_eq!(FixedPt::from_i8(3).value, 196608);
    assert_eq!(FixedPt::from_i8(-1).value, -65536);
    assert_eq!(FixedPt::from_i8(127).value, 127 * 65536);
    assert_eq!(FixedPt::from_i8(-128).value, -128 * 65536);
    assert_eq!(FixedPt::zero().value, 0);
    assert_eq!(FixedPt::BASE, 16);
    assert_eq!(FixedPt::HALF_BASE, 8);
}

#[test]
fn to_integer_rounds_toward_negative_infinity() {
    assert_eq!(raw(65535).to_i8(), 0);
    assert_eq!(raw(65536).to_i8(), 1);
    assert_eq!(raw(-1).to_i8(), -1);
    assert_eq!(raw(-65536).to_i8(), -1);
    assert_eq!(raw(-65537).to_i8(), -2);
    assert_eq!(raw(0x2_8000).to_i8(), 2);
    assert_eq!(raw(-0x2_8000).to_i8(), -3);
}

#[test]
fn to_integer_keeps_the_low_eight_bits_of_a_large_integer_part() {
    assert_eq!(raw(128 * 65536).to_i8(), -128);
    assert_eq!(raw(256 * 65536).to_i8(), 0);
    assert_eq!(raw(300 * 65536).to_i8(), 44);
    assert_eq!(raw(-129 * 65536).to_i8(), 127);
}

#[test]
fn addition_and_subtraction_are_exact() {
    assert_eq!((raw(1) + raw(2)).value, 3);
    assert_eq!((raw(196608) + raw(-65537)).value, 131071);
    assert_eq!((raw(5) - raw(9)).value, -4);
    assert_eq!((FixedPt::from_i8(7) - FixedPt::from_i8(7)).value, 0);
}

#[test]
fn addition_then_subtraction_gives_the_first_operand_back() {
    let samples = [0, 1, -1, 65536, -65536, 123456789, -987654321, i32::MAX, i32::MIN];
    for &a in samples.iter() {
        for &b in samples.iter() {
            assert_eq!((raw(a) + raw(b)) - raw(b), raw(a));
            assert_eq!((raw(a) - raw(b)) + raw(b), raw(a));
        }
    }
}

#[test]
fn addition_and_subtraction_wrap_around() {
    assert_eq!((raw(i32::MAX) + raw(1)).value, i32::MIN);
    assert_eq!((raw(i32::MIN) - raw(1)).value, i32::MAX);
    assert_eq!((raw(i32::MAX) + raw(i32::MAX)).value, -2);
}

#[test]
fn compound_assignment_agrees_with_the_operators() {
    let mut a = raw(100);
    a += raw(23);
    assert_eq!(a.value, 123);
    a -= raw(200);
    assert_eq!(a.value, -77);
    let mut b = raw(i32::MAX);
    b += raw(1);
    assert_eq!(b.value, i32::MIN);
}

#[test]
fn product_drops_the_low_eight_bits_of_each_factor() {
    // 0.8125 * 0.8125 = 0.66015625, exactly representable
    assert_eq!((raw(53248) * raw(53248)).value, 43264);
    // 1.5 * 2.0 = 3.0
    assert_eq!((raw(0x1_8000) * raw(0x2_0000)).value, 0x3_0000);
    // the low eight bits do not count
    assert_eq!((raw(0x1_80ff) * raw(0x2_00ff)).value, 0x3_0000);
    assert_eq!((raw(255) * raw(0x7fff_ffff)).value, 0);
    // the shift rounds toward negative infinity: -1 >> 8 is -1
    assert_eq!((raw(-1) * raw(0x1_0000)).value, -256);
    assert_eq!((raw(-0x1_8000) * raw(0x2_0000)).value, -0x3_0000);
    assert_eq!((raw(-0x1_8000) * raw(-0x2_0000)).value, 0x3_0000);
}

#[test]
fn product_wraps_around() {
    // (2^23 - 1)^2 does not fit in 32 bits
    let a = raw(i32::MAX);
    let expected = ((i32::MAX >> 8) as i64 * (i32::MAX >> 8) as i64) as i32;
    assert_eq!((a * a).value, expected);
    assert_eq!(expected, -16777215);
}

#[test]
fn quotient_keeps_sixteen_fractional_bits() {
    // 13 / 16 = 0.8125
    assert_eq!((FixedPt::from_i8(13) / FixedPt::from_i8(16)).value, 53248);
    // 1 / 3 = 0.33333...
    assert_eq!((FixedPt::from_i8(1) / FixedPt::from_i8(3)).value, 21845);
    // 100 / 1 is 100: no overflow on the way
    assert_eq!((FixedPt::from_i8(100) / FixedPt::from_i8(1)).value, 100 * 65536);
    assert_eq!((raw(1) / raw(65536)).value, 1);
    assert_eq!((raw(1) / raw(65537)).value, 0);
}

#[test]
fn quotient_rounds_toward_zero() {
    assert_eq!((FixedPt::from_i8(-1) / FixedPt::from_i8(3)).value, -21845);
    assert_eq!((FixedPt::from_i8(1) / FixedPt::from_i8(-3)).value, -21845);
    assert_eq!((FixedPt::from_i8(-1) / FixedPt::from_i8(-3)).value, 21845);
    assert_eq!((raw(-1) / raw(65537)).value, 0);
}

#[test]
fn quotient_wraps_around() {
    // 1 / 2^-16 = 65536, which is 2^32 raw
    assert_eq!((FixedPt::from_i8(1) / raw(1)).value, 0);
    assert_eq!((raw(i32::MIN) / raw(-1)).value, 0);
    assert_eq!((raw(0x8000) / raw(1)).value, i32::MIN);
}

#[test]
fn scaling_by_a_plain_integer() {
    assert_eq!((raw(0x1_8000) * 2).value, 0x3_0000);
    assert_eq!((raw(0x1_80ff) * 2).value, 0x3_0000);
    assert_eq!((raw(0x1_8000) * -2).value, -0x3_0000);
    assert_eq!((raw(0x1_8000) * 0).value, 0);
    // the integer itself wraps when it is shifted
    assert_eq!((raw(0x1_0000) * 0x0100_0000).value, 0);
}

#[test]
fn dividing_by_a_plain_integer_rounds_toward_zero() {
    assert_eq!((raw(0x1_8000) / 2).value, 0xc000);
    assert_eq!((raw(7) / 2).value, 3);
    assert_eq!((raw(-7) / 2).value, -3);
    assert_eq!((raw(7) / -2).value, -3);
    assert_eq!((raw(-7) / -2).value, 3);
    assert_eq!((raw(i32::MIN) / -1).value, i32::MIN);
}

#[test]
fn absolute_value() {
    assert_eq!(FixedPt::from_i8(-3).abs(), FixedPt::from_i8(3));
    assert_eq!(FixedPt::from_i8(3).abs(), FixedPt::from_i8(3));
    assert_eq!(raw(0).abs(), raw(0));
    assert_eq!(raw(-1).abs(), raw(1));
    assert_eq!(raw(i32::MIN).abs(), raw(i32::MIN));
}

#[test]
fn order_is_the_order_of_the_raw_values() {
    assert!(FixedPt::from_i8(1) < FixedPt::from_i8(2));
    assert!(FixedPt::from_i8(-1) < FixedPt::zero());
    assert!(raw(1) > raw(0));
    assert!(raw(5) <= raw(5));
    assert_eq!(raw(3).max(raw(-3)), raw(3));
}

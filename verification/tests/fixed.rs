use particles::fixed::{scale, ONE};

#[test]
fn one_whole_unit_is_two_to_the_32_raw_units() {
    assert_eq!(ONE, 4294967296);
}

#[test]
fn scaling_by_a_half() {
    assert_eq!(scale(0x8000_0000, 10 * ONE), 5 * ONE);
    assert_eq!(scale(0x8000_0000, 4), 2);
}

#[test]
fn scaling_rounds_down() {
    assert_eq!(scale(0x8000_0000, 3), 1);
    assert_eq!(scale(0x8000_0000, 1), 0);
    assert_eq!(scale(u32::MAX, 1), 0);
    assert_eq!(scale(u32::MAX, ONE), 4294967295);
    assert_eq!(scale(3554416254, 6442463289), 5331634597);
}

#[test]
fn scaling_a_negative_scalar_rounds_down_too() {
    assert_eq!(scale(0x8000_0000, -3), -2);
    assert_eq!(scale(0x8000_0000, -4), -2);
    assert_eq!(scale(1, -1), -1);
    assert_eq!(scale(u32::MAX, -ONE), -4294967295);
    assert_eq!(scale(2802067423, -6442463289), -4203109189);
}

#[test]
fn scaling_by_zero_or_of_zero_is_zero() {
    assert_eq!(scale(0, i64::MAX), 0);
    assert_eq!(scale(0, i64::MIN), 0);
    assert_eq!(scale(0, -1), 0);
    assert_eq!(scale(12345, 0), 0);
}

#[test]
fn scaling_the_extremes() {
    assert_eq!(scale(u32::MAX, i64::MAX), 9223372034707292159);
    assert_eq!(scale(u32::MAX, i64::MIN), -9223372034707292160);
    assert_eq!(scale(1, i64::MAX), 2147483647);
    assert_eq!(scale(1, i64::MIN), -2147483648);
}

#[test]
fn scaling_stays_between_zero_and_the_scalar() {
    let fractions: [u32; 5] = [0, 1, 0x8000_0000, 3554416254, u32::MAX];
    let scalars: [i64; 7] = [i64::MIN, -ONE, -1, 0, 1, 800 * ONE, i64::MAX];
    for f in fractions {
        for s in scalars {
            let r = scale(f, s);
            if s >= 0 {
                assert!(0 <= r && r <= s);
            } else {
                assert!(s <= r && r <= 0);
            }
            let exact = (f as i128 * s as i128).div_euclid(4294967296);
            assert_eq!(r as i128, exact);
        }
    }
}

use numeric::{max, min};

#[test]
fn test_min_max() {
    assert_eq!(min(3, 4), 3);
    assert_eq!(max(3, 4), 4);
    assert_eq!(min(3.783, 0.4736624), 0.4736624);
    assert_eq!(max(-3.783, 0.4736624), 0.4736624);
    assert_eq!(min(0.4736624, 0.4736624), 0.4736624);
    assert_eq!(max(-3.783, -3.783), -3.783);
}

#[test]
fn result_is_one_of_the_operands() {
    let pairs: [(i64, i64); 5] = [(0, 0), (-7, 12), (12, -7), (i64::MIN, i64::MAX), (5, 5)];
    for (a, b) in pairs {
        let lo = min(a, b);
        let hi = max(a, b);
        assert!(lo == a || lo == b);
        assert!(hi == a || hi == b);
        assert!(lo <= a && lo <= b);
        assert!(hi >= a && hi >= b);
    }
}

#[test]
fn same_value_twice_gives_it_back() {
    assert_eq!(min(9i32, 9i32), 9);
    assert_eq!(max(9i32, 9i32), 9);
    assert_eq!(min(-2.5f64, -2.5f64), -2.5);
    assert_eq!(max(-2.5f32, -2.5f32), -2.5);
}

#[test]
fn swapping_operands_keeps_the_result() {
    assert_eq!(min(-3i64, 8), -3);
    assert_eq!(min(8i64, -3), -3);
    assert_eq!(max(-3i64, 8), 8);
    assert_eq!(max(8i64, -3), 8);
    assert_eq!(min(1.5f64, 0.25), 0.25);
    assert_eq!(min(0.25f64, 1.5), 0.25);
}

#[test]
fn tie_returns_left_operand() {
    // Positive and negative zero compare equal and can be told apart by their sign.
    assert!(min(0.0f64, -0.0f64).is_sign_positive());
    assert!(min(-0.0f64, 0.0f64).is_sign_negative());
    assert!(max(0.0f64, -0.0f64).is_sign_positive());
    assert!(max(-0.0f64, 0.0f64).is_sign_negative());
}

#[test]
fn incomparable_operands_return_left() {
    assert!(min(f64::NAN, 1.0).is_nan());
    assert_eq!(min(1.0, f64::NAN), 1.0);
    assert!(max(f64::NAN, 1.0).is_nan());
    assert_eq!(max(1.0, f64::NAN), 1.0);
}

#[test]
fn extremes_of_the_range() {
    assert_eq!(min(i8::MIN, i8::MAX), i8::MIN);
    assert_eq!(max(i8::MIN, i8::MAX), i8::MAX);
    assert_eq!(max(i32::MAX, i32::MIN), i32::MAX);
    assert_eq!(min(f64::NEG_INFINITY, f64::INFINITY), f64::NEG_INFINITY);
    assert_eq!(max(f64::NEG_INFINITY, f64::INFINITY), f64::INFINITY);
}

use tickroute::rounding::{round, round_to_multiple, POS_SCALE};

// 1.5 units (900 steps) rounds half to even up to 2.0 units (1200 steps),
// matching banker's rounding at digit count 0.
#[test]
fn round_half_up_to_even() {
    assert_eq!(round(900, 0), 1200);
}

// 0.5 units rounds half to even down to 0.
#[test]
fn round_half_down_to_even() {
    assert_eq!(round(300, 0), 0);
}

// Rounding is symmetric under negation.
#[test]
fn round_negative_halves() {
    assert_eq!(round(-900, 0), -1200);
    assert_eq!(round(-300, 0), 0);
}

// One fractional digit: 0.125 units -> 0.1; the 0.15 tie -> 0.2 (even).
#[test]
fn round_one_digit() {
    assert_eq!(round(75, 1), 60);
    assert_eq!(round(90, 1), 120);
    assert_eq!(round(66, 1), 60);
}

// Two fractional digits: granularity is 6 steps (0.01 units).
#[test]
fn round_two_digits() {
    assert_eq!(round(8, 2), 6);
    assert_eq!(round(9, 2), 12);
    assert_eq!(round(2, 2), 0);
    assert_eq!(round(-2, 2), 0);
    assert_eq!(round(604, 2), 606);
}

// Values already on the grid stay put at every digit count.
#[test]
fn round_exact_values_unchanged() {
    for d in 0..3u32 {
        assert_eq!(round(0, d), 0);
        assert_eq!(round(6 * POS_SCALE, d), 6 * POS_SCALE);
        assert_eq!(round(-6 * POS_SCALE, d), -6 * POS_SCALE);
    }
}

// The rounded value is a multiple of the granularity and never farther
// than half of it: the statement of the rounding-consistency law, spot
// checked over a spread of inputs.
#[test]
fn round_consistency_sampled() {
    let granularities = [(1u32, 60i64), (2u32, 6i64)];
    let mut x: i64 = -3000;
    while x <= 3000 {
        for (d, m) in granularities {
            let r = round(x, d);
            assert_eq!(r % m, 0);
            assert!(2 * (r - x).abs() <= m);
        }
        x += 7;
    }
}

// Velocity quantization to a whole unit per second (10 velocity steps).
#[test]
fn round_to_multiple_velocity() {
    assert_eq!(round_to_multiple(14, 10), 10);
    assert_eq!(round_to_multiple(15, 10), 20);
    assert_eq!(round_to_multiple(25, 10), 20);
    assert_eq!(round_to_multiple(-15, 10), -20);
}

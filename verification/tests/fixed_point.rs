use pythia_markets::fixed_point::{
    exp_fixed, ln_fixed, EXP_INPUT_LIMIT, EXP_MAX, LN2, LN_MAX_INPUT, LN_MAX_REDUCIBLE, LN_MIN,
    LN_SERIES_LIMIT, SCALE,
};

/// The largest distance between `x` and `ln_fixed(exp_fixed(x))` over all
/// `x` from -5 to 5, found by trying every one of them.
const ROUND_TRIP_TOLERANCE: i128 = 90_178;

fn round_trip_error(x: i128) -> i128 {
    (ln_fixed(exp_fixed(x)) - x).abs()
}

fn worst_round_trip(from: i128, to: i128) -> i128 {
    let mut worst = 0;
    let mut x = from;
    while x <= to {
        let e = round_trip_error(x);
        if e > worst {
            worst = e;
        }
        x += 1;
    }
    worst
}

#[test]
fn exp_of_zero_is_one() {
    assert_eq!(exp_fixed(0), SCALE);
}

#[test]
fn exp_of_one_and_minus_one() {
    assert_eq!(exp_fixed(1_000_000), 2_718_268);
    assert_eq!(exp_fixed(-1_000_000), 367_877);
}

#[test]
fn exp_known_values() {
    assert_eq!(exp_fixed(250_000), 1_284_017);
    assert_eq!(exp_fixed(-250_000), 778_799);
    assert_eq!(exp_fixed(693_147), 1_999_984);
    assert_eq!(exp_fixed(2_500_000), 12_182_389);
    assert_eq!(exp_fixed(3_000_000), 20_085_419);
    assert_eq!(exp_fixed(-3_000_000), 49_787);
    assert_eq!(exp_fixed(4_000_000), 54_597_754);
    assert_eq!(exp_fixed(5_000_000), 148_412_481);
    assert_eq!(exp_fixed(-5_000_000), 6_737);
}

#[test]
fn exp_rounds_toward_zero() {
    assert_eq!(exp_fixed(3), 1_000_000);
    assert_eq!(exp_fixed(-3), 1_000_000);
    assert_eq!(exp_fixed(4), 1_000_004);
    assert_eq!(exp_fixed(-4), 999_996);
    assert_eq!(exp_fixed(7), 1_000_004);
    assert_eq!(exp_fixed(-7), 999_996);
}

#[test]
fn exp_clamps_its_input() {
    assert_eq!(exp_fixed(EXP_INPUT_LIMIT), 22_020_998_960);
    assert_eq!(exp_fixed(EXP_INPUT_LIMIT + 1), 22_020_998_960);
    assert_eq!(exp_fixed(20_000_000), 22_020_998_960);
    assert_eq!(exp_fixed(i128::MAX), 22_020_998_960);
    assert_eq!(exp_fixed(EXP_INPUT_LIMIT - 1), 22_020_919_421);
    assert_eq!(exp_fixed(-EXP_INPUT_LIMIT), 46);
    assert_eq!(exp_fixed(-EXP_INPUT_LIMIT - 1), 46);
    assert_eq!(exp_fixed(i128::MIN), 46);
}

#[test]
fn exp_never_exceeds_its_maximum() {
    assert_eq!(exp_fixed(EXP_INPUT_LIMIT), EXP_MAX);
    let mut x: i128 = -12_000_000;
    while x <= 12_000_000 {
        let e = exp_fixed(x);
        assert!(e <= EXP_MAX);
        assert!(e >= 46);
        x += 997;
    }
}

#[test]
fn exp_of_nonnegative_is_at_least_one() {
    let mut x: i128 = 0;
    while x <= 11_000_000 {
        assert!(exp_fixed(x) >= SCALE);
        x += 1_009;
    }
}

#[test]
fn ln_of_one_is_zero() {
    assert_eq!(ln_fixed(SCALE), 0);
}

#[test]
fn ln_of_nonpositive_is_the_sentinel() {
    assert_eq!(LN_MIN, -10 * SCALE);
    assert_eq!(ln_fixed(0), LN_MIN);
    assert_eq!(ln_fixed(-5), LN_MIN);
    assert_eq!(ln_fixed(i128::MIN), LN_MIN);
}

#[test]
fn ln_known_values() {
    assert_eq!(ln_fixed(1_500_000), 407_291);
    assert_eq!(ln_fixed(750_000), -287_629);
    assert_eq!(ln_fixed(2_718_282), 1_000_272);
    assert_eq!(ln_fixed(10_000_000), 2_302_618);
    assert_eq!(ln_fixed(148_413_159), 5_000_000);
    assert_eq!(ln_fixed(44_052_931_590), 10_693_359);
}

#[test]
fn ln_halves_from_two_on() {
    // 2.0 itself is halved once, to 1.0, where the series gives 0.
    assert_eq!(ln_fixed(2_000_000), LN2);
    assert_eq!(ln_fixed(2_000_000), 693_147);
    assert_eq!(ln_fixed(2_000_001), 693_147);
    assert_eq!(ln_fixed(2_000_002), 693_148);
    assert_eq!(ln_fixed(4_000_000), 2 * LN2);
    // Just below 2.0 nothing is halved: the series runs just below y = 1.
    assert_eq!(ln_fixed(1_999_999), 783_332);
    assert_eq!(ln_fixed(3_999_999), 1_476_479);
}

#[test]
fn ln_doubles_up_to_one_half() {
    // One half itself is doubled once, to 1.0.
    assert_eq!(ln_fixed(500_000), -LN2);
    assert_eq!(ln_fixed(500_000), -693_147);
    assert_eq!(ln_fixed(250_000), -2 * LN2);
    assert_eq!(ln_fixed(499_999), -693_149);
    // Just above one half nothing is doubled.
    assert_eq!(ln_fixed(500_001), -688_537);
}

#[test]
fn ln_next_to_one() {
    assert_eq!(ln_fixed(1_000_001), 1);
    assert_eq!(ln_fixed(999_999), -1);
}

#[test]
fn ln_of_smallest_inputs() {
    // 1 doubles twenty times to 1_048_576.
    assert_eq!(ln_fixed(1), -13_812_214);
    assert_eq!(ln_fixed(2), -13_119_067);
    assert_eq!(ln_fixed(3), -12_716_874);
}

#[test]
fn ln_of_largest_reducible_input() {
    // Twenty halvings bring it just below 2.0.
    assert_eq!(LN_MAX_REDUCIBLE, 2 * SCALE * 1_048_576 - 1);
    assert_eq!(ln_fixed(LN_MAX_REDUCIBLE), 20 * LN2 + 783_332);
    assert_eq!(ln_fixed(LN_MAX_REDUCIBLE), 14_646_272);
}

#[test]
fn ln_beyond_the_reducible_runs_the_series_from_two_on() {
    // Twenty halvings leave 2.0, 3.0 and 4.0: the series is run there all
    // the same.
    assert_eq!(ln_fixed(2 * SCALE * 1_048_576), 20 * LN2 + 783_333);
    assert_eq!(ln_fixed(3 * SCALE * 1_048_576), 18_929_606);
    assert_eq!(ln_fixed(4 * SCALE * 1_048_576), 49_712_940);
}

#[test]
fn ln_of_largest_input() {
    assert_eq!(LN_MAX_INPUT, LN_SERIES_LIMIT * 1_048_576);
    assert_eq!(ln_fixed(LN_MAX_INPUT), 1_999_875_003_333_283_333_833_344_912_940);
}

#[test]
fn round_trip_at_zero_is_exact() {
    assert_eq!(ln_fixed(exp_fixed(0)), 0);
}

#[test]
fn round_trip_worst_case_is_attained() {
    assert_eq!(round_trip_error(693_152), ROUND_TRIP_TOLERANCE);
    assert_eq!(round_trip_error(2_772_592), ROUND_TRIP_TOLERANCE);
}

#[test]
fn round_trip_where_the_exponential_is_a_power_of_two() {
    // The exponential is exactly 8.0, which three halvings bring to 1.0.
    assert_eq!(exp_fixed(2_079_448), 8_000_000);
    assert_eq!(ln_fixed(8_000_000), 3 * LN2);
    assert_eq!(round_trip_error(2_079_448), 7);
}

#[test]
fn round_trip_at_the_ends_of_the_range() {
    assert!(round_trip_error(-5_000_000) <= ROUND_TRIP_TOLERANCE);
    assert!(round_trip_error(5_000_000) <= ROUND_TRIP_TOLERANCE);
}

#[test]
fn round_trip_within_tolerance_from_minus_5_to_minus_4() {
    assert!(worst_round_trip(-5_000_000, -4_000_000) <= ROUND_TRIP_TOLERANCE);
}

#[test]
fn round_trip_within_tolerance_from_minus_4_to_minus_3() {
    assert!(worst_round_trip(-4_000_000, -3_000_000) <= ROUND_TRIP_TOLERANCE);
}

#[test]
fn round_trip_within_tolerance_from_minus_3_to_minus_2() {
    assert!(worst_round_trip(-3_000_000, -2_000_000) <= ROUND_TRIP_TOLERANCE);
}

#[test]
fn round_trip_within_tolerance_from_minus_2_to_minus_1() {
    assert!(worst_round_trip(-2_000_000, -1_000_000) <= ROUND_TRIP_TOLERANCE);
}

#[test]
fn round_trip_within_tolerance_from_minus_1_to_0() {
    assert!(worst_round_trip(-1_000_000, 0) <= ROUND_TRIP_TOLERANCE);
}

#[test]
fn round_trip_within_tolerance_from_0_to_1() {
    assert_eq!(worst_round_trip(0, 1_000_000), ROUND_TRIP_TOLERANCE);
}

#[test]
fn round_trip_within_tolerance_from_1_to_2() {
    assert!(worst_round_trip(1_000_000, 2_000_000) <= ROUND_TRIP_TOLERANCE);
}

#[test]
fn round_trip_within_tolerance_from_2_to_3() {
    assert_eq!(worst_round_trip(2_000_000, 3_000_000), ROUND_TRIP_TOLERANCE);
}

#[test]
fn round_trip_within_tolerance_from_3_to_4() {
    assert!(worst_round_trip(3_000_000, 4_000_000) <= ROUND_TRIP_TOLERANCE);
}

#[test]
fn round_trip_within_tolerance_from_4_to_5() {
    assert!(worst_round_trip(4_000_000, 5_000_000) <= ROUND_TRIP_TOLERANCE);
}

#[test]
fn round_trip_is_far_closer_below_zero() {
    assert_eq!(worst_round_trip(-2_500_000, 0), 4_612);
    assert_eq!(round_trip_error(-1_386_291), 4_612);
}

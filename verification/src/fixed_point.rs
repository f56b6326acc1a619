//! Fixed-point exponential and natural logarithm.
//!
//! Numbers carry six decimal digits after the point: the integer `v` stands
//! for `v / SCALE`. Both functions are finite approximations with a fixed
//! number of steps, and their contracts state the approximation itself, so
//! that two implementations which follow it agree to the last digit.
//! Division rounds toward zero throughout.

use vstd::prelude::*;

verus! {

/// The integer that stands for 1.
pub const SCALE: i128 = 1_000_000;

/// The natural logarithm of 2.
pub const LN2: i128 = 693_147;

/// The largest magnitude that `exp_fixed` takes as it is; inputs beyond it
/// are clamped to it.
pub const EXP_INPUT_LIMIT: i128 = 10_000_000;

/// What `ln_fixed` answers for an input that has no logarithm.
pub const LN_MIN: i128 = -10_000_000;

/// The largest input that `ln_fixed` takes: twenty halvings bring it down
/// to `LN_SERIES_LIMIT`. The series of a much larger value would leave
/// `i128`.
pub const LN_MAX_INPUT: i128 = 104_857_600_000_000_000;

/// The largest input that twenty halvings bring below 2.
pub const LN_MAX_REDUCIBLE: i128 = 2_097_151_999_999;

/// The largest value that `ln_fixed` runs its series on: 100_000.
pub const LN_SERIES_LIMIT: i128 = 100_000_000_000;

/// The largest result of `exp_fixed`, and a bound on the magnitude of all.
pub const EXP_MAX: i128 = 22_020_998_960;

/// The quotient of `a` by a positive `b`, rounded toward zero.
pub open spec fn trunc_div(a: int, b: int) -> int {
    if a >= 0 {
        a / b
    } else {
        -((-a) / b)
    }
}

/// The product of two fixed-point numbers.
pub open spec fn fixed_mul(a: int, b: int) -> int {
    trunc_div(a * b, SCALE as int)
}

/// `x` held to the range that `exp_fixed` works on.
pub open spec fn clamp_exp_input(x: int) -> int {
    if x > EXP_INPUT_LIMIT {
        EXP_INPUT_LIMIT as int
    } else if x < -EXP_INPUT_LIMIT {
        -EXP_INPUT_LIMIT
    } else {
        x
    }
}

/// The term of order `n` of the Taylor series of the exponential at `x`:
/// each term is the one before it, times `x`, over `n`.
pub open spec fn taylor_term(x: int, n: nat) -> int
    decreases n,
{
    if n == 0 {
        SCALE as int
    } else {
        trunc_div(taylor_term(x, (n - 1) as nat) * x, SCALE * n)
    }
}

/// The sum of the Taylor terms of orders 0 to `n`.
pub open spec fn taylor_sum(x: int, n: nat) -> int
    decreases n,
{
    if n == 0 {
        SCALE as int
    } else {
        taylor_sum(x, (n - 1) as nat) + taylor_term(x, n)
    }
}

/// The fourth power of the fixed-point number `s`, by three
/// multiplications.
pub open spec fn fourth_power(s: int) -> int {
    fixed_mul(fixed_mul(fixed_mul(s, s), s), s)
}

/// The exponential of `x`: the input is clamped, a quarter of it goes
/// through the Taylor series up to order 10, and the sum is raised to the
/// fourth power.
pub open spec fn spec_exp_fixed(x: int) -> int {
    fourth_power(taylor_sum(trunc_div(clamp_exp_input(x), 4), 10))
}

/// `x` after `steps` rounds of halving; a round halves a value of 2 or
/// more and leaves any other as it is.
pub open spec fn halved(x: int, steps: nat) -> int
    decreases steps,
{
    if steps == 0 {
        x
    } else {
        let prev = halved(x, (steps - 1) as nat);
        if prev >= 2 * SCALE {
            prev / 2
        } else {
            prev
        }
    }
}

/// How many of the first `steps` rounds of halving did halve.
pub open spec fn halvings(x: int, steps: nat) -> int
    decreases steps,
{
    if steps == 0 {
        0
    } else {
        halvings(x, (steps - 1) as nat) + if halved(x, (steps - 1) as nat) >= 2 * SCALE {
            1int
        } else {
            0int
        }
    }
}

/// `x` after `steps` rounds of doubling; a round doubles a value of one
/// half or less and leaves any other as it is.
pub open spec fn doubled(x: int, steps: nat) -> int
    decreases steps,
{
    if steps == 0 {
        x
    } else {
        let prev = doubled(x, (steps - 1) as nat);
        if prev <= SCALE / 2 {
            prev * 2
        } else {
            prev
        }
    }
}

/// How many of the first `steps` rounds of doubling did double.
pub open spec fn doublings(x: int, steps: nat) -> int
    decreases steps,
{
    if steps == 0 {
        0
    } else {
        doublings(x, (steps - 1) as nat) + if doubled(x, (steps - 1) as nat) <= SCALE / 2 {
            1int
        } else {
            0int
        }
    }
}

/// A positive `x` brought toward the open range from one half to 2, by
/// twenty rounds of halving and then twenty of doubling.
pub open spec fn ln_reduced(x: int) -> int {
    doubled(halved(x, 20), 20)
}

/// The power of two that `ln_reduced` took out of `x`.
pub open spec fn ln_shift(x: int) -> int {
    halvings(x, 20) - doublings(halved(x, 20), 20)
}

/// The logarithm of `1 + y` by the first five terms of the Mercator
/// series.
pub open spec fn ln_one_plus(y: int) -> int {
    let y2 = fixed_mul(y, y);
    let y3 = fixed_mul(y2, y);
    let y4 = fixed_mul(y3, y);
    let y5 = fixed_mul(y4, y);
    y - trunc_div(y2, 2) + trunc_div(y3, 3) - trunc_div(y4, 4) + trunc_div(y5, 5)
}

/// The natural logarithm of `x`: `LN_MIN` where `x` is not positive,
/// otherwise the shift times `LN2` plus the series at the reduced value.
pub open spec fn spec_ln_fixed(x: int) -> int {
    if x <= 0 {
        LN_MIN as int
    } else {
        ln_shift(x) * LN2 + ln_one_plus(ln_reduced(x) - SCALE)
    }
}

/// The value up to which `remaining` rounds of halving end at `base` or
/// less, for a `base` just below 2 or larger.
pub open spec fn halving_cap(base: int, remaining: nat) -> int
    decreases remaining,
{
    if remaining == 0 {
        base
    } else {
        2 * halving_cap(base, (remaining - 1) as nat) + 1
    }
}

/// Two to the power `remaining`.
pub open spec fn doubling_gain(remaining: nat) -> int
    decreases remaining,
{
    if remaining == 0 {
        1
    } else {
        2 * doubling_gain((remaining - 1) as nat)
    }
}

proof fn lemma_product_bound(a: int, b: int, ma: int, mb: int)
    by (nonlinear_arith)
    requires
        -ma <= a <= ma,
        -mb <= b <= mb,
    ensures
        -(ma * mb) <= a * b <= ma * mb,
{
}

proof fn lemma_product_nonneg(a: int, b: int)
    by (nonlinear_arith)
    requires
        a >= 0,
        b >= 0,
    ensures
        a * b >= 0,
{
}

proof fn lemma_product_at_least(a: int, b: int, low: int)
    by (nonlinear_arith)
    requires
        a >= low,
        b >= low,
        low >= 0,
    ensures
        a * b >= a * low,
        a * low >= low * low,
{
}

/// Every Taylor term and every partial sum that `exp_fixed` forms stays
/// within a few million, whatever the quarter input `x` in range.
pub proof fn lemma_taylor_bounds(x: int)
    requires
        -2_500_000 <= x <= 2_500_000,
    ensures
        forall|n: nat| n <= 10 ==> -3_125_000 <= #[trigger] taylor_term(x, n) <= 3_125_000,
        forall|n: nat| n <= 10 ==> -12_181_738 <= #[trigger] taylor_sum(x, n) <= 12_181_738,
{
    let t0 = taylor_term(x, 0);
    let t1 = taylor_term(x, 1);
    let t2 = taylor_term(x, 2);
    let t3 = taylor_term(x, 3);
    let t4 = taylor_term(x, 4);
    let t5 = taylor_term(x, 5);
    let t6 = taylor_term(x, 6);
    let t7 = taylor_term(x, 7);
    let t8 = taylor_term(x, 8);
    let t9 = taylor_term(x, 9);
    let t10 = taylor_term(x, 10);
    // Each call bounds the product that the next term is a quotient of; its
    // third argument is the bound of the term that it starts from.
    lemma_product_bound(t0, x, 1_000_000, 2_500_000);
    lemma_product_bound(t1, x, 2_500_000, 2_500_000);
    lemma_product_bound(t2, x, 3_125_000, 2_500_000);
    lemma_product_bound(t3, x, 2_604_166, 2_500_000);
    lemma_product_bound(t4, x, 1_627_603, 2_500_000);
    lemma_product_bound(t5, x, 813_801, 2_500_000);
    lemma_product_bound(t6, x, 339_083, 2_500_000);
    lemma_product_bound(t7, x, 121_101, 2_500_000);
    lemma_product_bound(t8, x, 37_844, 2_500_000);
    lemma_product_bound(t9, x, 10_512, 2_500_000);
    assert(-2_628 <= t10 <= 2_628);
    assert forall|n: nat| n <= 10 implies -3_125_000 <= #[trigger] taylor_term(x, n)
        <= 3_125_000 by {
        assert(n == 0 || n == 1 || n == 2 || n == 3 || n == 4 || n == 5 || n == 6 || n == 7 || n
            == 8 || n == 9 || n == 10);
    }
    reveal_with_fuel(taylor_sum, 11);
    assert forall|n: nat| n <= 10 implies -12_181_738 <= #[trigger] taylor_sum(x, n)
        <= 12_181_738 by {
        assert(n == 0 || n == 1 || n == 2 || n == 3 || n == 4 || n == 5 || n == 6 || n == 7 || n
            == 8 || n == 9 || n == 10);
    }
}

/// For a quarter input that is not negative, no Taylor term is negative
/// and no partial sum is below 1.
pub proof fn lemma_taylor_nonneg(x: int, n: nat)
    requires
        x >= 0,
    ensures
        taylor_term(x, n) >= 0,
        taylor_sum(x, n) >= SCALE,
    decreases n,
{
    if n > 0 {
        lemma_taylor_nonneg(x, (n - 1) as nat);
        lemma_product_nonneg(taylor_term(x, (n - 1) as nat), x);
        let p = taylor_term(x, (n - 1) as nat) * x;
        assert(p / (SCALE * n) >= 0) by (nonlinear_arith)
            requires
                p >= 0,
                n > 0,
        ;
    }
}

/// The fourth power of a sum within the Taylor bound stays within
/// `EXP_MAX`, and that of a sum of at least 1 is at least 1.
pub proof fn lemma_fourth_power_bounds(s: int)
    requires
        -12_181_738 <= s <= 12_181_738,
    ensures
        -EXP_MAX <= fourth_power(s) <= EXP_MAX,
        -148_394_740 <= fixed_mul(s, s) <= 148_394_740,
        -1_807_705_843 <= fixed_mul(fixed_mul(s, s), s) <= 1_807_705_843,
        s >= SCALE ==> fourth_power(s) >= SCALE,
{
    let r1 = fixed_mul(s, s);
    lemma_product_bound(s, s, 12_181_738, 12_181_738);
    let r2 = fixed_mul(r1, s);
    lemma_product_bound(r1, s, 148_394_740, 12_181_738);
    let r3 = fixed_mul(r2, s);
    lemma_product_bound(r2, s, 1_807_705_843, 12_181_738);
    if s >= SCALE {
        lemma_product_at_least(s, s, SCALE as int);
        lemma_product_at_least(r1, s, SCALE as int);
        lemma_product_at_least(r2, s, SCALE as int);
    }
}

/// Every result of `exp_fixed` lies within `EXP_MAX`, and the exponential
/// of a number that is not negative is at least 1.
pub proof fn lemma_exp_fixed_bounds(x: int)
    ensures
        -EXP_MAX <= spec_exp_fixed(x) <= EXP_MAX,
        x >= 0 ==> spec_exp_fixed(x) >= SCALE,
{
    let q = trunc_div(clamp_exp_input(x), 4);
    lemma_taylor_bounds(q);
    lemma_fourth_power_bounds(taylor_sum(q, 10));
    if x >= 0 {
        lemma_taylor_nonneg(q, 10);
    }
}

/// Computes the exponential of the fixed-point number `x`.
pub fn exp_fixed(x: i128) -> (r: i128)
    ensures
        r == spec_exp_fixed(x as int),
{
    let clamped: i128 = if x > EXP_INPUT_LIMIT {
        EXP_INPUT_LIMIT
    } else if x < -EXP_INPUT_LIMIT {
        -EXP_INPUT_LIMIT
    } else {
        x
    };
    let quarter: i128 = clamped / 4;
    let mut term: i128 = SCALE;
    let mut sum: i128 = SCALE;
    let mut n: i128 = 1;
    proof {
        lemma_taylor_bounds(quarter as int);
    }
    while n <= 10
        invariant
            1 <= n <= 11,
            -2_500_000 <= quarter <= 2_500_000,
            term == taylor_term(quarter as int, (n - 1) as nat),
            sum == taylor_sum(quarter as int, (n - 1) as nat),
            forall|m: nat|
                m <= 10 ==> -3_125_000 <= #[trigger] taylor_term(quarter as int, m) <= 3_125_000,
            forall|m: nat|
                m <= 10 ==> -12_181_738 <= #[trigger] taylor_sum(quarter as int, m) <= 12_181_738,
        decreases 11 - n,
    {
        proof {
            lemma_product_bound(term as int, quarter as int, 3_125_000, 2_500_000);
        }
        term = (term * quarter) / (SCALE * n);
        sum = sum + term;
        n = n + 1;
    }
    proof {
        lemma_fourth_power_bounds(sum as int);
        lemma_product_bound(sum as int, sum as int, 12_181_738, 12_181_738);
        lemma_product_bound(fixed_mul(sum as int, sum as int), sum as int, 148_394_740, 12_181_738);
        lemma_product_bound(
            fixed_mul(fixed_mul(sum as int, sum as int), sum as int),
            sum as int,
            1_807_705_843,
            12_181_738,
        );
    }
    let mut result: i128 = sum;
    result = (result * sum) / SCALE;
    result = (result * sum) / SCALE;
    result = (result * sum) / SCALE;
    result
}

proof fn lemma_halving_cap_values()
    ensures
        halving_cap(2 * SCALE - 1, 20) == LN_MAX_REDUCIBLE,
        halving_cap(LN_SERIES_LIMIT as int, 20) >= LN_MAX_INPUT,
{
    reveal_with_fuel(halving_cap, 21);
}

proof fn lemma_halving_cap_at_least_base(base: int, remaining: nat)
    requires
        base >= 0,
    ensures
        halving_cap(base, remaining) >= base,
    decreases remaining,
{
    if remaining > 0 {
        lemma_halving_cap_at_least_base(base, (remaining - 1) as nat);
    }
}

proof fn lemma_halved_within_cap(x: int, base: int, steps: nat)
    requires
        0 < x <= halving_cap(base, 20),
        base >= 2 * SCALE - 1,
        steps <= 20,
    ensures
        0 < halved(x, steps) <= halving_cap(base, (20 - steps) as nat),
        0 <= halvings(x, steps) <= steps,
    decreases steps,
{
    if steps > 0 {
        lemma_halved_within_cap(x, base, (steps - 1) as nat);
        lemma_halving_cap_at_least_base(base, (20 - steps) as nat);
        assert(halving_cap(base, (20 - (steps - 1)) as nat) == 2 * halving_cap(
            base,
            (20 - steps) as nat,
        ) + 1);
    }
}

proof fn lemma_gain_step(v: int, g: int)
    by (nonlinear_arith)
    requires
        v > 0,
        g >= 1,
    ensures
        (v * 2) * g == v * (2 * g),
        v * g >= v,
{
}

proof fn lemma_doubling_gain_positive(remaining: nat)
    ensures
        doubling_gain(remaining) >= 1,
    decreases remaining,
{
    if remaining > 0 {
        lemma_doubling_gain_positive((remaining - 1) as nat);
    }
}

proof fn lemma_doubled_within(x: int, limit: int, steps: nat)
    requires
        0 < x <= limit,
        limit >= SCALE,
    ensures
        0 < doubled(x, steps) <= limit,
        0 <= doublings(x, steps) <= steps,
    decreases steps,
{
    if steps > 0 {
        lemma_doubled_within(x, limit, (steps - 1) as nat);
    }
}

proof fn lemma_doubled_reaches_half(x: int, steps: nat)
    requires
        0 < x,
        steps <= 20,
    ensures
        doubled(x, steps) * doubling_gain((20 - steps) as nat) > SCALE / 2,
        doubled(x, steps) > 0,
    decreases steps,
{
    if steps == 0 {
        reveal_with_fuel(doubling_gain, 21);
        assert(x * 1_048_576 >= 1_048_576);
    } else {
        let prev = doubled(x, (steps - 1) as nat);
        let g = doubling_gain((20 - steps) as nat);
        lemma_doubled_reaches_half(x, (steps - 1) as nat);
        lemma_doubling_gain_positive((20 - steps) as nat);
        lemma_gain_step(prev, g);
    }
}

/// For every input that has a logarithm and is at most
/// `LN_MAX_REDUCIBLE`, the reduction ends above one half and below 2, having
/// shifted by at most twenty powers of two either way.
pub proof fn lemma_ln_reduced_range(x: int)
    requires
        0 < x <= LN_MAX_REDUCIBLE,
    ensures
        SCALE / 2 < ln_reduced(x) < 2 * SCALE,
        -20 <= ln_shift(x) <= 20,
{
    lemma_halving_cap_values();
    lemma_halved_within_cap(x, 2 * SCALE - 1, 20);
    lemma_doubled_within(halved(x, 20), 2 * SCALE - 1, 20);
    lemma_doubled_reaches_half(halved(x, 20), 20);
}

/// The magnitude of the Mercator series on a value between one half and 2
/// is at most 2.3, so that of the logarithm of an input up to
/// `LN_MAX_REDUCIBLE` is at most 16.2.
pub proof fn lemma_ln_fixed_bounds(x: int)
    requires
        x <= LN_MAX_REDUCIBLE,
    ensures
        -16_162_940 <= spec_ln_fixed(x) <= 16_162_940,
{
    if x > 0 {
        lemma_ln_reduced_range(x);
        lemma_series_fits_unit(ln_reduced(x) - SCALE);
    }
}

/// The powers that the series forms of a value up to `LN_SERIES_LIMIT`,
/// and the products on the way to them, fit in `i128`.
proof fn lemma_series_fits_limit(y: int)
    requires
        -LN_SERIES_LIMIT <= y <= LN_SERIES_LIMIT,
    ensures
        ({
            let y2 = fixed_mul(y, y);
            let y3 = fixed_mul(y2, y);
            let y4 = fixed_mul(y3, y);
            let y5 = fixed_mul(y4, y);
            &&& -10_000_000_000_000_000_000_000 <= y * y <= 10_000_000_000_000_000_000_000
            &&& -10_000_000_000_000_000 <= y2 <= 10_000_000_000_000_000
            &&& -1_000_000_000_000_000_000_000_000_000 <= y2 * y
                <= 1_000_000_000_000_000_000_000_000_000
            &&& -1_000_000_000_000_000_000_000 <= y3 <= 1_000_000_000_000_000_000_000
            &&& -100_000_000_000_000_000_000_000_000_000_000 <= y3 * y
                <= 100_000_000_000_000_000_000_000_000_000_000
            &&& -100_000_000_000_000_000_000_000_000 <= y4 <= 100_000_000_000_000_000_000_000_000
            &&& -10_000_000_000_000_000_000_000_000_000_000_000_000 <= y4 * y
                <= 10_000_000_000_000_000_000_000_000_000_000_000_000
            &&& -10_000_000_000_000_000_000_000_000_000_000 <= y5
                <= 10_000_000_000_000_000_000_000_000_000_000
        }),
{
    let y2 = fixed_mul(y, y);
    let y3 = fixed_mul(y2, y);
    let y4 = fixed_mul(y3, y);
    lemma_product_bound(y, y, 100_000_000_000, 100_000_000_000);
    lemma_product_bound(y2, y, 10_000_000_000_000_000, 100_000_000_000);
    lemma_product_bound(y3, y, 1_000_000_000_000_000_000_000, 100_000_000_000);
    lemma_product_bound(y4, y, 100_000_000_000_000_000_000_000_000, 100_000_000_000);
}

/// The powers that the series forms of a value between -1 and 1 lie
/// between -1 and 1.
proof fn lemma_series_fits_unit(y: int)
    requires
        -SCALE <= y <= SCALE,
    ensures
        ({
            let y2 = fixed_mul(y, y);
            let y3 = fixed_mul(y2, y);
            let y4 = fixed_mul(y3, y);
            let y5 = fixed_mul(y4, y);
            &&& -SCALE <= y2 <= SCALE
            &&& -SCALE <= y3 <= SCALE
            &&& -SCALE <= y4 <= SCALE
            &&& -SCALE <= y5 <= SCALE
        }),
{
    let y2 = fixed_mul(y, y);
    let y3 = fixed_mul(y2, y);
    let y4 = fixed_mul(y3, y);
    lemma_product_bound(y, y, 1_000_000, 1_000_000);
    lemma_product_bound(y2, y, 1_000_000, 1_000_000);
    lemma_product_bound(y3, y, 1_000_000, 1_000_000);
    lemma_product_bound(y4, y, 1_000_000, 1_000_000);
}

/// Computes the logarithm of `1 + y` by the Mercator series.
fn mercator(y: i128) -> (r: i128)
    requires
        -LN_SERIES_LIMIT <= y <= LN_SERIES_LIMIT,
    ensures
        r == ln_one_plus(y as int),
        -20_000_000_000_000_000_000_000_000_000_000 <= r
            <= 20_000_000_000_000_000_000_000_000_000_000,
{
    proof {
        lemma_series_fits_limit(y as int);
    }
    let y2: i128 = (y * y) / SCALE;
    let y3: i128 = (y2 * y) / SCALE;
    let y4: i128 = (y3 * y) / SCALE;
    let y5: i128 = (y4 * y) / SCALE;
    y - y2 / 2 + y3 / 3 - y4 / 4 + y5 / 5
}

/// Computes the natural logarithm of the fixed-point number `x`. An input
/// that is not positive has none and is answered with `LN_MIN`.
pub fn ln_fixed(x: i128) -> (r: i128)
    requires
        x <= LN_MAX_INPUT,
    ensures
        r == spec_ln_fixed(x as int),
{
    let valid = x > 0;
    let start: i128 = if valid {
        x
    } else {
        SCALE
    };
    let mut v: i128 = start;
    let mut k: i128 = 0;
    proof {
        lemma_halving_cap_values();
    }
    let mut i: u32 = 0;
    while i < 20
        invariant
            i <= 20,
            0 < start <= halving_cap(LN_SERIES_LIMIT as int, 20),
            v == halved(start as int, i as nat),
            k == halvings(start as int, i as nat),
        decreases 20 - i,
    {
        proof {
            lemma_halved_within_cap(start as int, LN_SERIES_LIMIT as int, i as nat);
        }
        if v >= 2 * SCALE {
            v = v / 2;
            k = k + 1;
        }
        i = i + 1;
    }
    proof {
        lemma_halved_within_cap(start as int, LN_SERIES_LIMIT as int, 20);
    }
    let mid: i128 = v;
    let halvings_done: i128 = k;
    let mut j: u32 = 0;
    while j < 20
        invariant
            j <= 20,
            0 < mid <= LN_SERIES_LIMIT,
            0 <= halvings_done <= 20,
            v == doubled(mid as int, j as nat),
            k == halvings_done - doublings(mid as int, j as nat),
        decreases 20 - j,
    {
        proof {
            lemma_doubled_within(mid as int, LN_SERIES_LIMIT as int, j as nat);
        }
        if v <= SCALE / 2 {
            v = v * 2;
            k = k - 1;
        }
        j = j + 1;
    }
    proof {
        lemma_doubled_within(mid as int, LN_SERIES_LIMIT as int, 20);
    }
    let ln_1p_y: i128 = mercator(v - SCALE);
    let result: i128 = k * LN2 + ln_1p_y;
    if valid {
        result
    } else {
        LN_MIN
    }
}

} // verus!

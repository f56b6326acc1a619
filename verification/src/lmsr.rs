//! The logarithmic market scoring rule.
//!
//! With pools `q_yes` and `q_no` and liquidity parameter `b`, the cost of
//! the market is `b * ln(e^(q_yes/b) + e^(q_no/b))` and the price of YES is
//! `e^(q_yes/b) / (e^(q_yes/b) + e^(q_no/b))`, both in the fixed-point
//! arithmetic of `fixed_point`. Pools and `b` count thousandths of a share.
//! A trade buys one share per currency unit.

use crate::errors::ErrorCode;
use crate::fixed_point::{
    exp_fixed, lemma_exp_fixed_bounds, lemma_ln_fixed_bounds, ln_fixed, spec_exp_fixed,
    spec_ln_fixed, trunc_div, SCALE,
};
use crate::position::{record_trade, UserPosition};
use crate::pricing::TradeInput;
use vstd::prelude::*;

verus! {

/// The price that stands for certainty: prices are basis points.
pub const PRICE_SCALE: u64 = 10_000;

/// The smallest liquidity parameter that the rule is defined for: one
/// whole share.
pub const MIN_LIQUIDITY_PARAM: u64 = 1000;

/// A count of thousandths as a fixed-point number.
pub open spec fn to_fixed(v: u64) -> int {
    v * SCALE / 1000
}

/// The quotient `q / b` as a fixed-point number, with `b` taken in whole
/// shares.
pub open spec fn exponent(q: u64, b: u64) -> int {
    to_fixed(q) / (to_fixed(b) / (SCALE as int))
}

/// The cost of a market with pools `q_yes` and `q_no`.
pub open spec fn spec_lmsr_cost(q_yes: u64, q_no: u64, b: u64) -> int {
    let sum_exp = spec_exp_fixed(exponent(q_yes, b)) + spec_exp_fixed(exponent(q_no, b));
    trunc_div(to_fixed(b) * spec_ln_fixed(sum_exp), SCALE as int)
}

/// The share of the YES exponential in the sum of both, in basis points,
/// before it is held to the range of a price.
pub open spec fn price_ratio(q_yes: u64, q_no: u64, b: u64) -> int {
    let exp_yes = spec_exp_fixed(exponent(q_yes, b));
    let exp_no = spec_exp_fixed(exponent(q_no, b));
    trunc_div(exp_yes * PRICE_SCALE, exp_yes + exp_no)
}

/// The price of YES in a market with pools `q_yes` and `q_no`, in basis
/// points.
pub open spec fn spec_lmsr_price(q_yes: u64, q_no: u64, b: u64) -> int {
    let ratio = price_ratio(q_yes, q_no, b);
    if ratio < 0 {
        0
    } else if ratio > PRICE_SCALE {
        PRICE_SCALE as int
    } else {
        ratio
    }
}

proof fn lemma_half_in_basis_points(e: int)
    by (nonlinear_arith)
    requires
        e > 0,
    ensures
        (e * 10_000) / (e + e) == 5_000,
{
}

proof fn lemma_ratio_bounds(a: int, b: int)
    by (nonlinear_arith)
    requires
        a > 0,
        b > 0,
    ensures
        0 <= (a * 10_000) / (a + b) <= 10_000,
{
}

/// In a market whose pools are equal the price of YES is exactly one
/// half.
pub proof fn lemma_price_symmetric(q: u64, b: u64)
    requires
        b >= MIN_LIQUIDITY_PARAM,
    ensures
        spec_lmsr_price(q, q, b) == 5_000,
{
    let e = spec_exp_fixed(exponent(q, b));
    lemma_exponent_nonneg(q, b);
    lemma_exp_fixed_bounds(exponent(q, b));
    lemma_half_in_basis_points(e);
}

/// The price lies between 0 and `PRICE_SCALE`, and is the ratio itself:
/// the ratio of two exponentials of numbers that are not negative never
/// leaves that range.
pub proof fn lemma_price_is_ratio(q_yes: u64, q_no: u64, b: u64)
    requires
        b >= MIN_LIQUIDITY_PARAM,
    ensures
        0 <= spec_lmsr_price(q_yes, q_no, b) <= PRICE_SCALE,
        spec_lmsr_price(q_yes, q_no, b) == price_ratio(q_yes, q_no, b),
{
    lemma_exponent_nonneg(q_yes, b);
    lemma_exponent_nonneg(q_no, b);
    lemma_exp_fixed_bounds(exponent(q_yes, b));
    lemma_exp_fixed_bounds(exponent(q_no, b));
    lemma_ratio_bounds(spec_exp_fixed(exponent(q_yes, b)), spec_exp_fixed(exponent(q_no, b)));
}

proof fn lemma_exponent_nonneg(q: u64, b: u64)
    requires
        b >= MIN_LIQUIDITY_PARAM,
    ensures
        exponent(q, b) >= 0,
        to_fixed(q) == q * 1000,
        to_fixed(b) / (SCALE as int) == b / 1000,
        to_fixed(b) / (SCALE as int) >= 1,
{
    let d = to_fixed(b) / (SCALE as int);
    let n = to_fixed(q);
    assert(n / d >= 0) by (nonlinear_arith)
        requires
            n >= 0,
            d >= 1,
    ;
}

fn exponent_of(q: u64, b: u64) -> (x: i128)
    requires
        b >= MIN_LIQUIDITY_PARAM,
    ensures
        x == exponent(q, b),
        x >= 0,
{
    proof {
        lemma_exponent_nonneg(q, b);
    }
    let b_scaled: i128 = (b as i128) * SCALE / 1000;
    let q_scaled: i128 = (q as i128) * SCALE / 1000;
    q_scaled / (b_scaled / SCALE)
}

/// Computes the cost of a market with pools `q_yes` and `q_no` and
/// liquidity parameter `b`.
pub fn lmsr_cost(q_yes: u64, q_no: u64, b: u64) -> (cost: i128)
    requires
        b >= MIN_LIQUIDITY_PARAM,
    ensures
        cost == spec_lmsr_cost(q_yes, q_no, b),
{
    let b_scaled: i128 = (b as i128) * SCALE / 1000;
    let x_yes: i128 = exponent_of(q_yes, b);
    let x_no: i128 = exponent_of(q_no, b);
    let exp_yes: i128 = exp_fixed(x_yes);
    let exp_no: i128 = exp_fixed(x_no);
    proof {
        lemma_exp_fixed_bounds(x_yes as int);
        lemma_exp_fixed_bounds(x_no as int);
    }
    let sum_exp: i128 = exp_yes + exp_no;
    let ln_sum: i128 = ln_fixed(sum_exp);
    proof {
        lemma_ln_fixed_bounds(sum_exp as int);
        assert(-16_162_940 * 18_446_744_073_709_551_615_000 <= b_scaled * ln_sum <= 16_162_940
            * 18_446_744_073_709_551_615_000) by (nonlinear_arith)
            requires
                0 <= b_scaled <= 18_446_744_073_709_551_615_000,
                -16_162_940 <= ln_sum <= 16_162_940,
        ;
    }
    (b_scaled * ln_sum) / SCALE
}

/// Computes the price of YES, in basis points, in a market with pools
/// `q_yes` and `q_no` and liquidity parameter `b`.
pub fn lmsr_price(q_yes: u64, q_no: u64, b: u64) -> (price: u64)
    requires
        b >= MIN_LIQUIDITY_PARAM,
    ensures
        price == spec_lmsr_price(q_yes, q_no, b),
        price <= PRICE_SCALE,
        q_yes == q_no ==> price == 5_000,
{
    let x_yes: i128 = exponent_of(q_yes, b);
    let x_no: i128 = exponent_of(q_no, b);
    let exp_yes: i128 = exp_fixed(x_yes);
    let exp_no: i128 = exp_fixed(x_no);
    proof {
        lemma_exp_fixed_bounds(x_yes as int);
        lemma_exp_fixed_bounds(x_no as int);
        lemma_price_is_ratio(q_yes, q_no, b);
        if q_yes == q_no {
            lemma_price_symmetric(q_yes, b);
        }
    }
    let price_scaled: i128 = (exp_yes * (PRICE_SCALE as i128)) / (exp_yes + exp_no);
    let clamped: i128 = if price_scaled < 0 {
        0
    } else if price_scaled > PRICE_SCALE as i128 {
        PRICE_SCALE as i128
    } else {
        price_scaled
    };
    clamped as u64
}

/// The pool of a market that prices by the scoring rule.
#[derive(Clone, Copy, Debug, PartialEq, Eq, Structural)]
pub struct MarketState {
    pub yes_pool: u64,
    pub no_pool: u64,
    /// The price of YES after the last trade, in basis points.
    pub last_price: u64,
    pub total_trades: u64,
    /// The parameter `b` of the rule.
    pub liquidity_param: u64,
}

impl MarketState {
    /// A pool is well formed when the rule is defined for its liquidity
    /// parameter.
    pub open spec fn wf(self) -> bool {
        self.liquidity_param >= MIN_LIQUIDITY_PARAM
    }

    /// The yes pool after `trade`, as an unbounded integer.
    pub open spec fn yes_pool_after(self, trade: TradeInput) -> int {
        if trade.is_buy_yes {
            self.yes_pool + trade.amount
        } else {
            self.yes_pool as int
        }
    }

    /// The no pool after `trade`, as an unbounded integer.
    pub open spec fn no_pool_after(self, trade: TradeInput) -> int {
        if trade.is_buy_yes {
            self.no_pool as int
        } else {
            self.no_pool + trade.amount
        }
    }

    /// Whether a pool or the trade count after `trade` leaves the range of
    /// `u64`.
    pub open spec fn trade_overflows(self, trade: TradeInput) -> bool {
        ||| self.yes_pool_after(trade) > u64::MAX
        ||| self.no_pool_after(trade) > u64::MAX
        ||| self.total_trades + 1 > u64::MAX
    }

    /// The pool after `trade`, where the trade is accepted: the side
    /// bought grows by one share per currency unit, the price is that of
    /// the new pools, and the trade is counted.
    pub open spec fn after_trade(self, trade: TradeInput) -> MarketState {
        let yes_pool = self.yes_pool_after(trade) as u64;
        let no_pool = self.no_pool_after(trade) as u64;
        MarketState {
            yes_pool,
            no_pool,
            last_price: spec_lmsr_price(yes_pool, no_pool, self.liquidity_param) as u64,
            total_trades: (self.total_trades + 1) as u64,
            liquidity_param: self.liquidity_param,
        }
    }

    /// What `trade` is answered with: `InvalidTrade` for a zero amount,
    /// `Overflow` where a pool or the trade count would leave `u64`,
    /// otherwise the new pool and the shares bought.
    pub open spec fn trade_result(self, trade: TradeInput) -> Result<(MarketState, u64), ErrorCode> {
        if trade.amount == 0 {
            Err(ErrorCode::InvalidTrade)
        } else if self.trade_overflows(trade) {
            Err(ErrorCode::Overflow)
        } else {
            Ok((self.after_trade(trade), trade.amount))
        }
    }
}

/// The first pool of a market: the given pools at the price that the rule
/// gives them, and no trades.
pub fn initialize_market(initial_yes: u64, initial_no: u64, liquidity_param: u64) -> (state:
    MarketState)
    requires
        liquidity_param >= MIN_LIQUIDITY_PARAM,
    ensures
        state == (MarketState {
            yes_pool: initial_yes,
            no_pool: initial_no,
            last_price: spec_lmsr_price(initial_yes, initial_no, liquidity_param) as u64,
            total_trades: 0,
            liquidity_param,
        }),
        state.wf(),
{
    let price: u64 = lmsr_price(initial_yes, initial_no, liquidity_param);
    MarketState {
        yes_pool: initial_yes,
        no_pool: initial_no,
        last_price: price,
        total_trades: 0,
        liquidity_param,
    }
}

/// Executes `trade` on `state` under the scoring rule.
pub fn process_private_trade(state: &MarketState, trade: &TradeInput) -> (r: Result<
    (MarketState, u64),
    ErrorCode,
>)
    requires
        state.wf(),
    ensures
        r == state.trade_result(*trade),
        r matches Ok((next, _)) ==> next.wf(),
{
    if trade.amount == 0 {
        return Err(ErrorCode::InvalidTrade);
    }
    let shares: u64 = trade.amount;
    let mut next = *state;
    if trade.is_buy_yes {
        match state.yes_pool.checked_add(shares) {
            Some(pool) => {
                next.yes_pool = pool;
            },
            None => {
                return Err(ErrorCode::Overflow);
            },
        }
    } else {
        match state.no_pool.checked_add(shares) {
            Some(pool) => {
                next.no_pool = pool;
            },
            None => {
                return Err(ErrorCode::Overflow);
            },
        }
    }
    match state.total_trades.checked_add(1) {
        Some(count) => {
            next.total_trades = count;
        },
        None => {
            return Err(ErrorCode::Overflow);
        },
    }
    next.last_price = lmsr_price(next.yes_pool, next.no_pool, next.liquidity_param);
    Ok((next, shares))
}

/// The values of `state` in the clear, each as it is: the pools, the
/// price, the trade count and the liquidity parameter.
pub fn reveal_market_state(state: &MarketState) -> (revealed: (u64, u64, u64, u64, u64))
    ensures
        revealed == (
            state.yes_pool,
            state.no_pool,
            state.last_price,
            state.total_trades,
            state.liquidity_param,
        ),
{
    (state.yes_pool, state.no_pool, state.last_price, state.total_trades, state.liquidity_param)
}

/// The pool that holds the given values, each as it is.
pub fn hide_market_state(
    yes_pool: u64,
    no_pool: u64,
    last_price: u64,
    total_trades: u64,
    liquidity_param: u64,
) -> (state: MarketState)
    ensures
        state == (MarketState { yes_pool, no_pool, last_price, total_trades, liquidity_param }),
{
    MarketState { yes_pool, no_pool, last_price, total_trades, liquidity_param }
}

/// Records the buy of `trade` in `position`: one share per currency unit
/// is added to the open count of the side bought.
pub fn update_user_position(position: &UserPosition, trade: &TradeInput) -> (r: Result<
    UserPosition,
    ErrorCode,
>)
    ensures
        r == position.record_result(trade.is_buy_yes, trade.amount),
{
    record_trade(position, trade.is_buy_yes, trade.amount)
}

} // verus!

//! The constant-product pricing model.
//!
//! Pools count shares, a thousand to the currency unit. The product of the
//! two pools is held at a constant, which the pool stores divided by a
//! million. A buy adds its shares to the pool of the other side; the pool
//! of the side bought becomes the constant over that sum, rounded down,
//! and the trader receives what left it.
//!
//! The constant is computed once, when the market opens, and never again.
//! It is revealed and hidden with the pools, as it is. Where trades of a
//! public window have moved the pools in between, the constant is still
//! the one that the market opened with: the first trade under this model
//! brings the product of the pools back to it.

use crate::errors::ErrorCode;
use crate::position::{record_trade, UserPosition};
use crate::pricing::{TradeInput, SHARES_PER_USDC};
use vstd::prelude::*;

verus! {

/// The factor by which the stored constant is scaled down.
pub const K_SCALE: u64 = 1_000_000;

/// The price, in thousandths, that stands for certainty.
pub const PRICE_UNIT: u64 = 1000;

/// The pool of a market that prices by constant product.
#[derive(Clone, Copy, Debug, PartialEq, Eq, Structural)]
pub struct MarketState {
    pub yes_pool: u64,
    pub no_pool: u64,
    /// The constant product, divided by `K_SCALE`.
    pub k: u64,
    pub total_trades: u64,
}

/// The shares that `amount` currency units stand for.
pub open spec fn shares_for(amount: u64) -> int {
    amount * SHARES_PER_USDC
}

/// The shares on each side of a market opened with `liquidity` currency
/// units: half of what the liquidity stands for.
pub open spec fn shares_per_side(liquidity: u64) -> int {
    shares_for(liquidity) / 2
}

/// What opening a market with `liquidity` currency units is answered
/// with: `Overflow` where the shares or the stored constant would leave
/// `u64`, otherwise equal pools, their stored constant and no trades.
pub open spec fn initial_result(liquidity: u64) -> Result<MarketState, ErrorCode> {
    let side = shares_per_side(liquidity);
    if shares_for(liquidity) > u64::MAX || (side / 1000) * (side / 1000) > u64::MAX {
        Err(ErrorCode::Overflow)
    } else {
        Ok(
            MarketState {
                yes_pool: side as u64,
                no_pool: side as u64,
                k: ((side / 1000) * (side / 1000)) as u64,
                total_trades: 0,
            },
        )
    }
}

/// The price of YES, in thousandths, that pools `yes_pool` and `no_pool`
/// show: the share of the no pool in both, or one half where both are
/// empty.
pub open spec fn yes_price(yes_pool: u64, no_pool: u64) -> int {
    if yes_pool + no_pool > 0 {
        (no_pool * 1000) / (yes_pool + no_pool)
    } else {
        500
    }
}

impl MarketState {
    /// The constant product that trades hold the pools to.
    pub open spec fn k_scaled(self) -> int {
        self.k * K_SCALE
    }

    /// The pool that `trade` pays into: that of the side not bought.
    pub open spec fn paying_pool(self, trade: TradeInput) -> u64 {
        if trade.is_buy_yes {
            self.no_pool
        } else {
            self.yes_pool
        }
    }

    /// The pool that `trade` takes from: that of the side bought.
    pub open spec fn bought_pool(self, trade: TradeInput) -> u64 {
        if trade.is_buy_yes {
            self.yes_pool
        } else {
            self.no_pool
        }
    }

    /// The paying pool after `trade`, as an unbounded integer.
    pub open spec fn paying_pool_after(self, trade: TradeInput) -> int {
        self.paying_pool(trade) + shares_for(trade.amount)
    }

    /// The bought pool after `trade`: the constant over the new paying
    /// pool, rounded down.
    pub open spec fn bought_pool_after(self, trade: TradeInput) -> int {
        self.k_scaled() / self.paying_pool_after(trade)
    }

    /// Whether a value that `trade` computes leaves the range of `u64`.
    pub open spec fn trade_overflows(self, trade: TradeInput) -> bool {
        ||| shares_for(trade.amount) > u64::MAX
        ||| self.k_scaled() > u64::MAX
        ||| self.paying_pool_after(trade) > u64::MAX
        ||| self.total_trades + 1 > u64::MAX
    }

    /// Whether `trade` would empty the bought pool, or take from it more
    /// than it holds.
    pub open spec fn trade_drains(self, trade: TradeInput) -> bool {
        self.bought_pool_after(trade) == 0 || self.bought_pool_after(trade) > self.bought_pool(
            trade,
        )
    }

    /// The pool after `trade`, where the trade is accepted.
    pub open spec fn after_trade(self, trade: TradeInput) -> MarketState {
        if trade.is_buy_yes {
            MarketState {
                yes_pool: self.bought_pool_after(trade) as u64,
                no_pool: self.paying_pool_after(trade) as u64,
                k: self.k,
                total_trades: (self.total_trades + 1) as u64,
            }
        } else {
            MarketState {
                yes_pool: self.paying_pool_after(trade) as u64,
                no_pool: self.bought_pool_after(trade) as u64,
                k: self.k,
                total_trades: (self.total_trades + 1) as u64,
            }
        }
    }

    /// The shares that the trader receives for `trade`: what leaves the
    /// bought pool.
    pub open spec fn shares_received(self, trade: TradeInput) -> int {
        self.bought_pool(trade) - self.bought_pool_after(trade)
    }

    /// What `trade` is answered with: `InvalidTrade` for a zero amount,
    /// `Overflow` where a computed value would leave `u64`, `InvalidTrade`
    /// where the bought pool would be emptied or overdrawn, otherwise the
    /// new pool and the shares received.
    pub open spec fn trade_result(self, trade: TradeInput) -> Result<(MarketState, u64), ErrorCode> {
        if trade.amount == 0 {
            Err(ErrorCode::InvalidTrade)
        } else if self.trade_overflows(trade) {
            Err(ErrorCode::Overflow)
        } else if self.trade_drains(trade) {
            Err(ErrorCode::InvalidTrade)
        } else {
            Ok((self.after_trade(trade), self.shares_received(trade) as u64))
        }
    }
}

/// The first pool of a market opened with `initial_liquidity_usdc`
/// currency units, split evenly between the two sides.
pub fn initialize_market(initial_liquidity_usdc: u64) -> (r: Result<MarketState, ErrorCode>)
    ensures
        r == initial_result(initial_liquidity_usdc),
{
    let total_shares: u64 = match initial_liquidity_usdc.checked_mul(SHARES_PER_USDC) {
        Some(shares) => shares,
        None => {
            return Err(ErrorCode::Overflow);
        },
    };
    let side: u64 = total_shares / 2;
    let k: u64 = match (side / 1000).checked_mul(side / 1000) {
        Some(k) => k,
        None => {
            return Err(ErrorCode::Overflow);
        },
    };
    Ok(MarketState { yes_pool: side, no_pool: side, k, total_trades: 0 })
}

/// Executes `trade` on `state` under the constant-product model. After an
/// accepted trade the product of the pools is the constant, less what the
/// one division rounded away: less than one unit of the bought pool.
pub fn process_private_trade(state: &MarketState, trade: &TradeInput) -> (r: Result<
    (MarketState, u64),
    ErrorCode,
>)
    ensures
        r == state.trade_result(*trade),
        r matches Ok((next, _)) ==> next.yes_pool * next.no_pool <= state.k_scaled()
            && state.k_scaled() - state.paying_pool_after(*trade) < next.yes_pool * next.no_pool,
{
    if trade.amount == 0 {
        return Err(ErrorCode::InvalidTrade);
    }
    let shares_input: u64 = match trade.amount.checked_mul(SHARES_PER_USDC) {
        Some(shares) => shares,
        None => {
            return Err(ErrorCode::Overflow);
        },
    };
    let k_scaled: u64 = match state.k.checked_mul(K_SCALE) {
        Some(k) => k,
        None => {
            return Err(ErrorCode::Overflow);
        },
    };
    let paying: u64 = if trade.is_buy_yes {
        state.no_pool
    } else {
        state.yes_pool
    };
    let bought: u64 = if trade.is_buy_yes {
        state.yes_pool
    } else {
        state.no_pool
    };
    let new_paying: u64 = match paying.checked_add(shares_input) {
        Some(pool) => pool,
        None => {
            return Err(ErrorCode::Overflow);
        },
    };
    let total_trades: u64 = match state.total_trades.checked_add(1) {
        Some(count) => count,
        None => {
            return Err(ErrorCode::Overflow);
        },
    };
    let new_bought: u64 = k_scaled / new_paying;
    if new_bought == 0 || new_bought > bought {
        return Err(ErrorCode::InvalidTrade);
    }
    let shares_received: u64 = bought - new_bought;
    proof {
        lemma_product_near_constant(*state, *trade);
    }
    let next = if trade.is_buy_yes {
        MarketState { yes_pool: new_bought, no_pool: new_paying, k: state.k, total_trades }
    } else {
        MarketState { yes_pool: new_paying, no_pool: new_bought, k: state.k, total_trades }
    };
    Ok((next, shares_received))
}

/// Records the buy of `trade` in `position`: the shares that the amount
/// stands for are added to the open count of the side bought.
///
/// These are the shares that the trade pays into the pool, a thousand to
/// the currency unit, not the shares that the pool pays out: this update is
/// a computation of its own, which is handed the trade and the position and
/// never sees the pool. `MarketPool::trade`, which has both the pool and
/// the position before it, credits the shares that the trader receives.
pub fn update_user_position(position: &UserPosition, trade: &TradeInput) -> (r: Result<
    UserPosition,
    ErrorCode,
>)
    ensures
        r == if shares_for(trade.amount) > u64::MAX {
            Err::<UserPosition, ErrorCode>(ErrorCode::Overflow)
        } else {
            position.record_result(trade.is_buy_yes, shares_for(trade.amount) as u64)
        },
{
    match trade.amount.checked_mul(SHARES_PER_USDC) {
        Some(shares) => record_trade(position, trade.is_buy_yes, shares),
        None => Err(ErrorCode::Overflow),
    }
}

/// The values of `state` in the clear: the pools as they are, the prices
/// of YES and of NO in thousandths, which add up to `PRICE_UNIT`, and the
/// trade count and the stored constant as they are.
pub fn reveal_market_state(state: &MarketState) -> (revealed: (u64, u64, u64, u64, u64, u64))
    ensures
        revealed.0 == state.yes_pool,
        revealed.1 == state.no_pool,
        revealed.2 == yes_price(state.yes_pool, state.no_pool),
        revealed.3 == PRICE_UNIT - yes_price(state.yes_pool, state.no_pool),
        revealed.4 == state.total_trades,
        revealed.5 == state.k,
        revealed.2 <= PRICE_UNIT,
{
    let total_pool: u128 = state.yes_pool as u128 + state.no_pool as u128;
    let yes_price: u64 = if total_pool > 0 {
        let scaled: u128 = state.no_pool as u128 * 1000;
        assert(scaled / total_pool <= 1000) by (nonlinear_arith)
            requires
                0 <= scaled <= 1000 * total_pool,
                total_pool > 0,
        ;
        (scaled / total_pool) as u64
    } else {
        500
    };
    let no_price: u64 = PRICE_UNIT - yes_price;
    (state.yes_pool, state.no_pool, yes_price, no_price, state.total_trades, state.k)
}

/// The pool that holds the given values, each as it is. The stored
/// constant is the one handed in, whatever the pools are: it is not
/// computed from them.
pub fn hide_market_state(yes_pool: u64, no_pool: u64, k: u64, total_trades: u64) -> (state:
    MarketState)
    ensures
        state == (MarketState { yes_pool, no_pool, k, total_trades }),
{
    MarketState { yes_pool, no_pool, k, total_trades }
}

proof fn lemma_quotient_brackets(a: int, b: int)
    by (nonlinear_arith)
    requires
        a >= 0,
        b > 0,
    ensures
        (a / b) * b <= a,
        a - b < (a / b) * b,
        b * (a / b) == (a / b) * b,
{
}

/// After an accepted trade the product of the pools is at most the
/// constant and misses it by less than the paying pool: by what one
/// division rounds away, less than one unit of the bought pool. The stored
/// constant itself is unchanged.
pub proof fn lemma_product_near_constant(state: MarketState, trade: TradeInput)
    requires
        state.trade_result(trade) is Ok,
    ensures
        ({
            let next = state.after_trade(trade);
            &&& next.k == state.k
            &&& next.yes_pool * next.no_pool <= state.k_scaled()
            &&& state.k_scaled() - state.paying_pool_after(trade) < next.yes_pool * next.no_pool
        }),
{
    lemma_quotient_brackets(state.k_scaled(), state.paying_pool_after(trade));
}

} // verus!

//! The linear pricing model, under which trades of the public window run.
//!
//! A trade adds its amount to the pool of the side bought and moves the
//! price by a hundredth of the amount: up for a YES buy, down for a NO buy.
//! The price is not held to any range. The trader receives one share per
//! currency unit. The trade count is that of the confidential models: a
//! trade under the linear model leaves it as it is.

use crate::errors::ErrorCode;
use crate::pricing::TradeInput;
use vstd::prelude::*;

verus! {

/// The pool of a market in the clear.
#[derive(Clone, Copy, Debug, PartialEq, Eq, Structural)]
pub struct MarketState {
    pub yes_pool: u64,
    pub no_pool: u64,
    pub last_price: u64,
    pub total_trades: u64,
}

/// By how much a trade of `amount` moves the price.
pub open spec fn price_step(amount: u64) -> int {
    amount as int / 100
}

impl MarketState {
    /// The yes pool after `trade`, as an unbounded integer.
    pub open spec fn yes_pool_after(self, trade: TradeInput) -> int {
        if trade.is_buy_yes {
            self.yes_pool + trade.amount
        } else {
            self.yes_pool as int
        }
    }

    /// The no pool after `trade`, as an unbounded integer.
    pub open spec fn no_pool_after(self, trade: TradeInput) -> int {
        if trade.is_buy_yes {
            self.no_pool as int
        } else {
            self.no_pool + trade.amount
        }
    }

    /// The price after `trade`, as an unbounded integer.
    pub open spec fn price_after(self, trade: TradeInput) -> int {
        if trade.is_buy_yes {
            self.last_price + price_step(trade.amount)
        } else {
            self.last_price - price_step(trade.amount)
        }
    }

    /// Whether some value after `trade` leaves the range of `u64`.
    pub open spec fn trade_overflows(self, trade: TradeInput) -> bool {
        ||| self.yes_pool_after(trade) > u64::MAX
        ||| self.no_pool_after(trade) > u64::MAX
        ||| self.price_after(trade) > u64::MAX
        ||| self.price_after(trade) < 0
    }

    /// The pool after `trade`, where the trade is accepted.
    pub open spec fn after_trade(self, trade: TradeInput) -> MarketState {
        MarketState {
            yes_pool: self.yes_pool_after(trade) as u64,
            no_pool: self.no_pool_after(trade) as u64,
            last_price: self.price_after(trade) as u64,
            total_trades: self.total_trades,
        }
    }

    /// What `trade` is answered with: `InvalidTrade` for a zero amount,
    /// `Overflow` where a pool or the price would leave `u64`, otherwise
    /// the new pool and the shares bought, one per currency unit.
    pub open spec fn trade_result(self, trade: TradeInput) -> Result<(MarketState, u64), ErrorCode> {
        if trade.amount == 0 {
            Err(ErrorCode::InvalidTrade)
        } else if self.trade_overflows(trade) {
            Err(ErrorCode::Overflow)
        } else {
            Ok((self.after_trade(trade), trade.amount))
        }
    }
}

/// Executes `trade` on `state` under the linear model.
pub fn process_public_trade(state: &MarketState, trade: &TradeInput) -> (r: Result<
    (MarketState, u64),
    ErrorCode,
>)
    ensures
        r == state.trade_result(*trade),
{
    if trade.amount == 0 {
        return Err(ErrorCode::InvalidTrade);
    }
    let step: u64 = trade.amount / 100;
    let mut next = *state;
    if trade.is_buy_yes {
        match (state.yes_pool.checked_add(trade.amount), state.last_price.checked_add(step)) {
            (Some(pool), Some(price)) => {
                next.yes_pool = pool;
                next.last_price = price;
            },
            _ => {
                return Err(ErrorCode::Overflow);
            },
        }
    } else {
        match (state.no_pool.checked_add(trade.amount), state.last_price.checked_sub(step)) {
            (Some(pool), Some(price)) => {
                next.no_pool = pool;
                next.last_price = price;
            },
            _ => {
                return Err(ErrorCode::Overflow);
            },
        }
    }
    Ok((next, trade.amount))
}

} // verus!

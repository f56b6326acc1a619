//! The pricing engine: one entry point over the three pricing models.
//!
//! A pool carries the state of the model that prices it. `apply_trade`
//! hands a trade to that model; `reveal_pool` and `hide_pool` carry a pool
//! across the boundary between confidential and plaintext storage, every
//! value as it is.

use crate::constant_product;
use crate::errors::ErrorCode;
use crate::linear_dollar;
use crate::lmsr;
use vstd::prelude::*;

verus! {

/// How many shares one currency unit stands for in the constant-product
/// pools.
pub const SHARES_PER_USDC: u64 = 1000;

/// A request to buy one side of the market for `amount` currency units.
#[derive(Clone, Copy, Debug, PartialEq, Eq, Structural)]
pub struct TradeInput {
    pub amount: u64,
    pub is_buy_yes: bool,
}

/// The models that can price a pool.
#[derive(Clone, Copy, Debug, PartialEq, Eq, Structural)]
pub enum PricingModel {
    LinearDollar,
    ConstantProduct,
    Lmsr,
}

/// A pool together with the model that prices it.
#[derive(Clone, Copy, Debug, PartialEq, Eq, Structural)]
pub enum PoolState {
    LinearDollar(linear_dollar::MarketState),
    ConstantProduct(constant_product::MarketState),
    Lmsr(lmsr::MarketState),
}

impl PoolState {
    /// The model that prices the pool.
    pub open spec fn model(self) -> PricingModel {
        match self {
            PoolState::LinearDollar(_) => PricingModel::LinearDollar,
            PoolState::ConstantProduct(_) => PricingModel::ConstantProduct,
            PoolState::Lmsr(_) => PricingModel::Lmsr,
        }
    }

    /// The yes pool of the pool.
    pub open spec fn yes_pool(self) -> u64 {
        match self {
            PoolState::LinearDollar(s) => s.yes_pool,
            PoolState::ConstantProduct(s) => s.yes_pool,
            PoolState::Lmsr(s) => s.yes_pool,
        }
    }

    /// The no pool of the pool.
    pub open spec fn no_pool(self) -> u64 {
        match self {
            PoolState::LinearDollar(s) => s.no_pool,
            PoolState::ConstantProduct(s) => s.no_pool,
            PoolState::Lmsr(s) => s.no_pool,
        }
    }

    /// The trade count of the pool.
    pub open spec fn total_trades(self) -> u64 {
        match self {
            PoolState::LinearDollar(s) => s.total_trades,
            PoolState::ConstantProduct(s) => s.total_trades,
            PoolState::Lmsr(s) => s.total_trades,
        }
    }

    /// The parameter that the pool's model holds fixed: the stored
    /// constant under constant product, the liquidity parameter under the
    /// scoring rule; zero under the linear model, which has none.
    pub open spec fn param(self) -> u64 {
        match self {
            PoolState::LinearDollar(_) => 0,
            PoolState::ConstantProduct(s) => s.k,
            PoolState::Lmsr(s) => s.liquidity_param,
        }
    }

    /// A pool is well formed when its model is defined on it.
    pub open spec fn wf(self) -> bool {
        match self {
            PoolState::Lmsr(s) => s.wf(),
            _ => true,
        }
    }

    /// What `trade` is answered with: what the pool's model answers, the
    /// new pool staying under that model.
    pub open spec fn trade_result(self, trade: TradeInput) -> Result<(PoolState, u64), ErrorCode> {
        match self {
            PoolState::LinearDollar(s) => match s.trade_result(trade) {
                Ok((next, shares)) => Ok((PoolState::LinearDollar(next), shares)),
                Err(e) => Err(e),
            },
            PoolState::ConstantProduct(s) => match s.trade_result(trade) {
                Ok((next, shares)) => Ok((PoolState::ConstantProduct(next), shares)),
                Err(e) => Err(e),
            },
            PoolState::Lmsr(s) => match s.trade_result(trade) {
                Ok((next, shares)) => Ok((PoolState::Lmsr(next), shares)),
                Err(e) => Err(e),
            },
        }
    }

    /// The price that the pool shows when it is revealed: the last price
    /// where the model keeps one, the price of YES in thousandths under
    /// constant product.
    pub open spec fn shown_price(self) -> u64 {
        match self {
            PoolState::LinearDollar(s) => s.last_price,
            PoolState::ConstantProduct(s) => constant_product::yes_price(
                s.yes_pool,
                s.no_pool,
            ) as u64,
            PoolState::Lmsr(s) => s.last_price,
        }
    }

    /// The pool in the clear: pools and trade count as they are, with the
    /// price that the pool shows.
    pub open spec fn revealed(self) -> linear_dollar::MarketState {
        linear_dollar::MarketState {
            yes_pool: self.yes_pool(),
            no_pool: self.no_pool(),
            last_price: self.shown_price(),
            total_trades: self.total_trades(),
        }
    }

    /// The plaintext pool `plain` hidden under `model` with parameter
    /// `param`. Every value goes over as it is: pools and trade count, the
    /// price where the model keeps one, and the parameter where the model
    /// has one. Nothing is computed from the pools.
    pub open spec fn hidden(
        model: PricingModel,
        param: u64,
        plain: linear_dollar::MarketState,
    ) -> PoolState {
        match model {
            PricingModel::LinearDollar => PoolState::LinearDollar(plain),
            PricingModel::ConstantProduct => PoolState::ConstantProduct(
                constant_product::MarketState {
                    yes_pool: plain.yes_pool,
                    no_pool: plain.no_pool,
                    k: param,
                    total_trades: plain.total_trades,
                },
            ),
            PricingModel::Lmsr => PoolState::Lmsr(
                lmsr::MarketState {
                    yes_pool: plain.yes_pool,
                    no_pool: plain.no_pool,
                    last_price: plain.last_price,
                    total_trades: plain.total_trades,
                    liquidity_param: param,
                },
            ),
        }
    }

    /// Reveals the pool: its values in the clear, and its parameter.
    pub fn reveal_pool(&self) -> (shown: (linear_dollar::MarketState, u64))
        ensures
            shown.0 == self.revealed(),
            shown.1 == self.param(),
    {
        match self {
            PoolState::LinearDollar(s) => (*s, 0),
            PoolState::ConstantProduct(s) => {
                let shown = constant_product::reveal_market_state(s);
                (
                    linear_dollar::MarketState {
                        yes_pool: shown.0,
                        no_pool: shown.1,
                        last_price: shown.2,
                        total_trades: shown.4,
                    },
                    shown.5,
                )
            },
            PoolState::Lmsr(s) => {
                let shown = lmsr::reveal_market_state(s);
                (
                    linear_dollar::MarketState {
                        yes_pool: shown.0,
                        no_pool: shown.1,
                        last_price: shown.2,
                        total_trades: shown.3,
                    },
                    shown.4,
                )
            },
        }
    }

    /// Hides the plaintext pool `plain` under `model` with parameter
    /// `param`.
    pub fn hide_pool(model: PricingModel, param: u64, plain: &linear_dollar::MarketState) -> (hidden:
        PoolState)
        ensures
            hidden == Self::hidden(model, param, *plain),
    {
        match model {
            PricingModel::LinearDollar => PoolState::LinearDollar(*plain),
            PricingModel::ConstantProduct => PoolState::ConstantProduct(
                constant_product::hide_market_state(
                    plain.yes_pool,
                    plain.no_pool,
                    param,
                    plain.total_trades,
                ),
            ),
            PricingModel::Lmsr => PoolState::Lmsr(
                lmsr::hide_market_state(
                    plain.yes_pool,
                    plain.no_pool,
                    plain.last_price,
                    plain.total_trades,
                    param,
                ),
            ),
        }
    }
}

/// Executes `trade` on `state` under the model that prices it, and answers
/// with the new pool and the shares that the trader receives. A refused
/// trade has no new pool: the caller keeps the old one.
pub fn apply_trade(state: &PoolState, trade: &TradeInput) -> (r: Result<(PoolState, u64), ErrorCode>)
    requires
        state.wf(),
    ensures
        r == state.trade_result(*trade),
        r matches Ok((next, _)) ==> next.wf() && next.model() == state.model() && next.param()
            == state.param() && next.total_trades() >= state.total_trades(),
{
    match state {
        PoolState::LinearDollar(s) => match linear_dollar::process_public_trade(s, trade) {
            Ok((next, shares)) => Ok((PoolState::LinearDollar(next), shares)),
            Err(e) => Err(e),
        },
        PoolState::ConstantProduct(s) => match constant_product::process_private_trade(s, trade) {
            Ok((next, shares)) => Ok((PoolState::ConstantProduct(next), shares)),
            Err(e) => Err(e),
        },
        PoolState::Lmsr(s) => match lmsr::process_private_trade(s, trade) {
            Ok((next, shares)) => Ok((PoolState::Lmsr(next), shares)),
            Err(e) => Err(e),
        },
    }
}

} // verus!

//! One market as a whole: the ledger record together with the pool that
//! confidential storage holds, and the model that prices it.
//!
//! This is the state machine that a trade request and a window switch run
//! through. A trade is priced by the model of the current window and
//! credited to the trader; a switch carries the pool across the boundary
//! between confidential and plaintext storage. A switch computes nothing:
//! pools, trade count, price and the model's parameter have the same values
//! after it as before it, and a market that goes out of hiding and back
//! with no trade in between has the very pool that it started with.

use crate::errors::ErrorCode;
use crate::linear_dollar::MarketState;
use crate::lmsr::MIN_LIQUIDITY_PARAM;
use crate::market::{ComputationOutputs, Market, MarketWindow, RevealedPool, WindowSwitchEvent};
use crate::position::{record_trade, UserPosition};
use crate::pricing::{apply_trade, PoolState, PricingModel, TradeInput};
use vstd::prelude::*;

verus! {

/// The authoritative state of one market.
#[derive(Clone, Debug, PartialEq, Eq)]
pub struct MarketPool {
    /// The ledger record; its confidential storage holds the pool of the
    /// private window.
    pub market: Market<PoolState>,
    /// The model that prices trades of the private window. Trades of the
    /// public window are priced by the linear model.
    pub model: PricingModel,
}

impl MarketPool {
    /// A market is well formed when, in the private window, confidential
    /// storage holds a well-formed pool of the market's model and the
    /// plaintext pools and parameter are zero, and in the public window
    /// confidential storage holds nothing and the plaintext parameter is
    /// one that the market's model is defined for: at least
    /// `MIN_LIQUIDITY_PARAM` under the scoring rule, zero under the linear
    /// model.
    pub open spec fn wf(self) -> bool {
        match self.market.window_state {
            MarketWindow::Private => {
                &&& self.market.market_state matches Some(s)
                &&& s.model() == self.model
                &&& s.wf()
                &&& self.market.public_pool() == (RevealedPool {
                    pool: MarketState { yes_pool: 0, no_pool: 0, last_price: 0, total_trades: 0 },
                    param: 0,
                })
            },
            MarketWindow::Public => {
                &&& self.market.market_state is None
                &&& self.model == PricingModel::Lmsr ==> self.market.public_param
                    >= MIN_LIQUIDITY_PARAM
                &&& self.model == PricingModel::LinearDollar ==> self.market.public_param == 0
            },
        }
    }

    /// The pool that trades of the current window run on: the one in
    /// confidential storage in the private window, the plaintext one,
    /// under the linear model, in the public window.
    pub open spec fn pool(self) -> PoolState {
        match self.market.window_state {
            MarketWindow::Private => self.market.market_state->0,
            MarketWindow::Public => PoolState::LinearDollar(self.market.public_state()),
        }
    }

    /// The yes pool of the pool of the current window.
    pub open spec fn yes_pool(self) -> u64 {
        self.pool().yes_pool()
    }

    /// The no pool of the pool of the current window.
    pub open spec fn no_pool(self) -> u64 {
        self.pool().no_pool()
    }

    /// The trade count of the pool of the current window.
    pub open spec fn total_trades(self) -> u64 {
        self.pool().total_trades()
    }

    /// The parameter of the market's model: that of the pool in
    /// confidential storage in the private window, the one held in the
    /// clear in the public window.
    pub open spec fn param(self) -> u64 {
        match self.market.window_state {
            MarketWindow::Private => self.pool().param(),
            MarketWindow::Public => self.market.public_param,
        }
    }

    /// The market with `next` as the pool of the current window and all
    /// else, the plaintext parameter too, as it was.
    pub open spec fn with_pool(self, next: PoolState) -> MarketPool {
        match self.market.window_state {
            MarketWindow::Private => MarketPool { market: self.market.stored(next), ..self },
            MarketWindow::Public => MarketPool {
                market: Market {
                    public_yes_pool: next.yes_pool(),
                    public_no_pool: next.no_pool(),
                    public_last_price: next.shown_price(),
                    public_total_trades: next.total_trades(),
                    ..self.market
                },
                ..self
            },
        }
    }

    /// What a trade submitted for `window` is answered with. A trade for
    /// the window that the market is not in is refused with `WrongPhase`.
    /// Otherwise the model of the window prices it, and the shares that it
    /// yields are added to the trader's open count; whatever either of the
    /// two refuses, the trade is refused with. An accepted trade gives the
    /// new market, the new position and the shares received.
    pub open spec fn trade_result(
        self,
        position: UserPosition,
        trade: TradeInput,
        window: MarketWindow,
    ) -> Result<(MarketPool, UserPosition, u64), ErrorCode> {
        if window != self.market.window_state {
            Err(ErrorCode::WrongPhase)
        } else {
            match self.pool().trade_result(trade) {
                Err(e) => Err(e),
                Ok((next, shares)) => match position.record_result(trade.is_buy_yes, shares) {
                    Err(e) => Err(e),
                    Ok(credited) => Ok((self.with_pool(next), credited, shares)),
                },
            }
        }
    }

    /// What a request to enter the public window at time `now` is answered
    /// with: refused as the ledger record refuses it, otherwise the market
    /// with the revealed pool and its parameter in plaintext storage, and
    /// the notification.
    pub open spec fn switch_to_public_result(self, now: i64) -> Result<
        (MarketPool, WindowSwitchEvent),
        ErrorCode,
    > {
        match self.market.switch_check(
            MarketWindow::Private,
            self.market.opp_window_duration,
            now,
        ) {
            Err(e) => Err(e),
            Ok(_) => {
                let shown = RevealedPool {
                    pool: self.pool().revealed(),
                    param: self.pool().param(),
                };
                Ok(
                    (
                        MarketPool { market: self.market.revealed(shown, now), ..self },
                        WindowSwitchEvent {
                            new_window: MarketWindow::Public,
                            yes_pool: shown.pool.yes_pool,
                            no_pool: shown.pool.no_pool,
                        },
                    ),
                )
            },
        }
    }

    /// What a request to enter the private window at time `now` is
    /// answered with: refused as the ledger record refuses it, otherwise
    /// the market with the plaintext pool hidden under its model, with the
    /// parameter that was held in the clear, and the notification. The
    /// parameter is the one that came out of hiding whether or not trades
    /// of the public window have moved the pools since.
    pub open spec fn switch_to_private_result(self, now: i64) -> Result<
        (MarketPool, WindowSwitchEvent),
        ErrorCode,
    > {
        match self.market.switch_check(MarketWindow::Public, self.market.pub_window_duration, now) {
            Err(e) => Err(e),
            Ok(_) => Ok(
                (
                    MarketPool {
                        market: self.market.hidden(
                            PoolState::hidden(
                                self.model,
                                self.market.public_param,
                                self.market.public_state(),
                            ),
                            now,
                        ),
                        ..self
                    },
                    WindowSwitchEvent { new_window: MarketWindow::Private, yes_pool: 0, no_pool: 0 },
                ),
            ),
        }
    }

    /// A new market, created at time `now` in the private window with
    /// `initial` as its pool. The model of `initial` is the model of the
    /// market's private windows.
    pub fn new(
        sponsor: [u8; 32],
        resolution_date: i64,
        liquidity_cap: u64,
        opp_window_duration: u64,
        pub_window_duration: u64,
        now: i64,
        initial: PoolState,
    ) -> (pool: MarketPool)
        requires
            initial.wf(),
        ensures
            pool.wf(),
            pool.model == initial.model(),
            pool.pool() == initial,
            pool.market == (Market::<PoolState> {
                sponsor,
                authority: sponsor,
                resolution_date,
                window_state: MarketWindow::Private,
                liquidity_cap,
                market_state: Some(initial),
                public_yes_pool: 0,
                public_no_pool: 0,
                public_last_price: 0,
                public_total_trades: 0,
                public_param: 0,
                opp_window_duration,
                pub_window_duration,
                last_switch_ts: now,
                resolved: false,
                outcome: None,
            }),
    {
        let mut market: Market<PoolState> = Market::init_market(
            sponsor,
            resolution_date,
            liquidity_cap,
            opp_window_duration,
            pub_window_duration,
            now,
        );
        let _ = market.initialize_market_callback(ComputationOutputs::Success(initial));
        let model: PricingModel = match initial {
            PoolState::LinearDollar(_) => PricingModel::LinearDollar,
            PoolState::ConstantProduct(_) => PricingModel::ConstantProduct,
            PoolState::Lmsr(_) => PricingModel::Lmsr,
        };
        MarketPool { market, model }
    }

    /// The pool that trades of the current window run on.
    pub fn active_pool(&self) -> (pool: PoolState)
        requires
            self.wf(),
        ensures
            pool == self.pool(),
    {
        match self.market.window_state {
            MarketWindow::Private => match self.market.market_state {
                Some(s) => s,
                None => PoolState::LinearDollar(self.plaintext_pool()),
            },
            MarketWindow::Public => PoolState::LinearDollar(self.plaintext_pool()),
        }
    }

    fn plaintext_pool(&self) -> (plain: MarketState)
        ensures
            plain == self.market.public_state(),
    {
        MarketState {
            yes_pool: self.market.public_yes_pool,
            no_pool: self.market.public_no_pool,
            last_price: self.market.public_last_price,
            total_trades: self.market.public_total_trades,
        }
    }

    /// Executes a trade submitted for `window` and credits `position` with
    /// the shares that it yields. A trade for the window that the market
    /// is not in is refused with `WrongPhase`. A refused trade leaves both
    /// the market and the position as they were. An accepted trade never
    /// lowers the trade count and leaves the model's parameter as it was.
    pub fn trade(
        &mut self,
        position: &mut UserPosition,
        trade: &TradeInput,
        window: MarketWindow,
    ) -> (r: Result<u64, ErrorCode>)
        requires
            old(self).wf(),
        ensures
            final(self).wf(),
            match old(self).trade_result(*old(position), *trade, window) {
                Ok((next, credited, shares)) => r == Ok::<u64, ErrorCode>(shares) && *final(self)
                    == next && *final(position) == credited,
                Err(e) => r == Err::<u64, ErrorCode>(e) && *final(self) == *old(self) && *final(position) == *old(position),
            },
            window != old(self).market.window_state ==> r == Err::<u64, ErrorCode>(
                ErrorCode::WrongPhase,
            ) && *final(self) == *old(self) && *final(position) == *old(position),
            final(self).market.window_state == old(self).market.window_state,
            final(self).total_trades() >= old(self).total_trades(),
            final(self).param() == old(self).param(),
    {
        if window != self.market.window_state {
            return Err(ErrorCode::WrongPhase);
        }
        let current: PoolState = self.active_pool();
        let (next, shares): (PoolState, u64) = match apply_trade(&current, trade) {
            Ok(done) => done,
            Err(e) => {
                return Err(e);
            },
        };
        let credited: UserPosition = match record_trade(position, trade.is_buy_yes, shares) {
            Ok(credited) => credited,
            Err(e) => {
                return Err(e);
            },
        };
        match window {
            MarketWindow::Private => {
                let _ = self.market.process_private_trade_callback(
                    ComputationOutputs::Success(next),
                );
            },
            MarketWindow::Public => {
                let _ = self.market.trade_public(trade.amount, trade.is_buy_yes);
            },
        }
        *position = credited;
        Ok(shares)
    }

    /// Switches the market to the public window at time `now`: the pool
    /// leaves confidential storage and its values become the plaintext
    /// pools. A refused switch changes nothing. Pools, trade count and
    /// parameter are the same after the call as before it.
    pub fn switch_to_public(&mut self, now: i64) -> (r: Result<WindowSwitchEvent, ErrorCode>)
        requires
            old(self).wf(),
        ensures
            final(self).wf(),
            match old(self).switch_to_public_result(now) {
                Ok((next, event)) => r == Ok::<WindowSwitchEvent, ErrorCode>(event) && *final(self)
                    == next,
                Err(e) => r == Err::<WindowSwitchEvent, ErrorCode>(e) && *final(self) == *old(self),
            },
            final(self).yes_pool() == old(self).yes_pool(),
            final(self).no_pool() == old(self).no_pool(),
            final(self).total_trades() == old(self).total_trades(),
            final(self).param() == old(self).param(),
    {
        match self.market.switch_to_public(now) {
            Ok(_) => {},
            Err(e) => {
                return Err(e);
            },
        }
        let (pool, param): (MarketState, u64) = self.active_pool().reveal_pool();
        self.market.reveal_market_state_callback(
            ComputationOutputs::Success(RevealedPool { pool, param }),
            now,
        )
    }

    /// Switches the market to the private window at time `now`: the
    /// plaintext pools and parameter go into confidential storage under
    /// the market's model, each as it is, and are zeroed in the clear. A
    /// refused switch changes nothing. Pools, trade count and parameter
    /// are the same after the call as before it.
    pub fn switch_to_private(&mut self, now: i64) -> (r: Result<WindowSwitchEvent, ErrorCode>)
        requires
            old(self).wf(),
        ensures
            final(self).wf(),
            match old(self).switch_to_private_result(now) {
                Ok((next, event)) => r == Ok::<WindowSwitchEvent, ErrorCode>(event) && *final(self)
                    == next,
                Err(e) => r == Err::<WindowSwitchEvent, ErrorCode>(e) && *final(self) == *old(self),
            },
            final(self).yes_pool() == old(self).yes_pool(),
            final(self).no_pool() == old(self).no_pool(),
            final(self).total_trades() == old(self).total_trades(),
            final(self).param() == old(self).param(),
    {
        let plain: RevealedPool = match self.market.switch_to_private(now) {
            Ok(plain) => plain,
            Err(e) => {
                return Err(e);
            },
        };
        let hidden: PoolState = PoolState::hide_pool(self.model, plain.param, &plain.pool);
        self.market.hide_market_state_callback(ComputationOutputs::Success(hidden), now)
    }
}

/// A window switch leaves the pools, the trade count and the model's
/// parameter of a market as they were, in either direction.
pub proof fn lemma_switch_keeps_pools(pool: MarketPool, now: i64)
    requires
        pool.wf(),
    ensures
        pool.switch_to_public_result(now) matches Ok((next, _)) ==> next.wf() && next.yes_pool()
            == pool.yes_pool() && next.no_pool() == pool.no_pool() && next.total_trades()
            == pool.total_trades() && next.param() == pool.param() && next.market.window_state
            == MarketWindow::Public,
        pool.switch_to_private_result(now) matches Ok((next, _)) ==> next.wf() && next.yes_pool()
            == pool.yes_pool() && next.no_pool() == pool.no_pool() && next.total_trades()
            == pool.total_trades() && next.param() == pool.param() && next.market.window_state
            == MarketWindow::Private,
{
}

/// A market that goes from the private window to the public one at
/// `revealed_at` and, with no trade in between, back to the private one at
/// `hidden_at` has the pools, the trade count and the parameter that it
/// started with. It has the very pool that it started with: the whole
/// market is as it was, but for the time at which its window began.
pub proof fn lemma_round_trip_keeps_pools(pool: MarketPool, revealed_at: i64, hidden_at: i64)
    requires
        pool.wf(),
        pool.switch_to_public_result(revealed_at) is Ok,
        pool.switch_to_public_result(revealed_at)->Ok_0.0.switch_to_private_result(hidden_at) is Ok,
    ensures
        ({
            let public = pool.switch_to_public_result(revealed_at)->Ok_0.0;
            let back = public.switch_to_private_result(hidden_at)->Ok_0.0;
            &&& back.wf()
            &&& back.market.window_state == MarketWindow::Private
            &&& back.yes_pool() == pool.yes_pool()
            &&& back.no_pool() == pool.no_pool()
            &&& back.total_trades() == pool.total_trades()
            &&& back.param() == pool.param()
            &&& back.pool() == pool.pool()
            &&& back == (MarketPool {
                market: Market { last_switch_ts: hidden_at, ..pool.market },
                ..pool
            })
        }),
{
    let public = pool.switch_to_public_result(revealed_at)->Ok_0.0;
    lemma_switch_keeps_pools(pool, revealed_at);
    lemma_switch_keeps_pools(public, hidden_at);
}

/// An accepted trade, of either window, leaves the parameter of the
/// market's model as it was. With `lemma_switch_keeps_pools`: the stored
/// constant of a constant-product market and the liquidity parameter of a
/// scoring-rule market are those that the market opened with, for as long
/// as it lives, whatever trades of a public window do to the pools.
pub proof fn lemma_trade_keeps_param(
    pool: MarketPool,
    position: UserPosition,
    trade: TradeInput,
    window: MarketWindow,
)
    requires
        pool.wf(),
        pool.trade_result(position, trade, window) is Ok,
    ensures
        ({
            let next = pool.trade_result(position, trade, window)->Ok_0.0;
            &&& next.wf()
            &&& next.model == pool.model
            &&& next.param() == pool.param()
            &&& next.total_trades() >= pool.total_trades()
        }),
{
}

/// A trade submitted for the window that the market is not in is refused
/// with `WrongPhase`, whatever the trade and the position.
pub proof fn lemma_wrong_phase_is_refused(
    pool: MarketPool,
    position: UserPosition,
    trade: TradeInput,
    window: MarketWindow,
)
    requires
        window != pool.market.window_state,
    ensures
        pool.trade_result(position, trade, window) == Err::<
            (MarketPool, UserPosition, u64),
            ErrorCode,
        >(ErrorCode::WrongPhase),
{
}

} // verus!

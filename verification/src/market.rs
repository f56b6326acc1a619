//! The ledger-visible records of a market and of a trader's position, and
//! the window state machine of the market.
//!
//! The records are generic in `S`, the form in which confidential state is
//! stored: ciphertexts on a ledger, plain values in a model. The rules
//! below never look inside an `S`; they only decide when it is replaced or
//! cleared.

use crate::errors::ErrorCode;
use crate::linear_dollar::{process_public_trade, MarketState};
use crate::pricing::TradeInput;
use vstd::prelude::*;

verus! {

/// The window a market is in.
#[derive(Clone, Copy, Debug, PartialEq, Eq, Structural)]
pub enum MarketWindow {
    /// Trades are computed over confidential pool state.
    Private,
    /// Trades are computed over plaintext pool state.
    Public,
}

/// What a confidential computation handed back.
#[derive(Debug, PartialEq, Eq)]
pub enum ComputationOutputs<O> {
    Success(O),
    Failure,
}

/// A pool in the clear, as a reveal hands it out and a hide takes it back:
/// the plaintext pool and the parameter of the model that it was hidden
/// under.
#[derive(Clone, Copy, Debug, PartialEq, Eq, Structural)]
pub struct RevealedPool {
    pub pool: MarketState,
    /// The stored constant under constant product, the liquidity parameter
    /// under the scoring rule, zero under the linear model.
    pub param: u64,
}

/// Notification that a trade was committed in `window`.
#[derive(Clone, Copy, Debug, PartialEq, Eq, Structural)]
pub struct TradeEvent {
    pub window: MarketWindow,
}

/// Notification that the market entered `new_window`, with the pools that
/// are visible in it (zero when the pools went back into hiding).
#[derive(Clone, Copy, Debug, PartialEq, Eq, Structural)]
pub struct WindowSwitchEvent {
    pub new_window: MarketWindow,
    pub yes_pool: u64,
    pub no_pool: u64,
}

/// Notification that the market was resolved to `outcome`.
#[derive(Clone, Copy, Debug, PartialEq, Eq, Structural)]
pub struct MarketResolvedEvent {
    pub outcome: bool,
}

/// One market as the ledger sees it.
#[derive(Clone, Debug, PartialEq, Eq)]
pub struct Market<S> {
    /// Key of the sponsor, who may ask for privileged views.
    pub sponsor: [u8; 32],
    /// Key that may resolve the market.
    pub authority: [u8; 32],
    /// Time from which the market may be resolved.
    pub resolution_date: i64,
    pub window_state: MarketWindow,
    pub liquidity_cap: u64,
    /// Confidential storage of the pool; `None` while it is cleared.
    pub market_state: Option<S>,
    pub public_yes_pool: u64,
    pub public_no_pool: u64,
    pub public_last_price: u64,
    pub public_total_trades: u64,
    /// The parameter of the model of the private window, held in the clear
    /// through the public window so that it goes back into hiding as it
    /// came out; zero in the private window.
    pub public_param: u64,
    /// Length of a private window, in seconds.
    pub opp_window_duration: u64,
    /// Length of a public window, in seconds.
    pub pub_window_duration: u64,
    /// Time at which the current window began.
    pub last_switch_ts: i64,
    pub resolved: bool,
    pub outcome: Option<bool>,
}

/// The position of one trader in one market as the ledger sees it.
#[derive(Clone, Debug, PartialEq, Eq)]
pub struct UserPositionRecord<S> {
    /// Key of the trader.
    pub user: [u8; 32],
    /// Key of the market.
    pub market: [u8; 32],
    /// Confidential storage of the share counts; `None` until the first
    /// counts are committed.
    pub position_state: Option<S>,
}

/// Whether two keys are the same key.
pub fn same_key(a: &[u8; 32], b: &[u8; 32]) -> (same: bool)
    ensures
        same == (a@ == b@),
{
    let mut i: usize = 0;
    while i < 32
        invariant
            i <= 32,
            forall|j: int| 0 <= j < i ==> a@[j] == b@[j],
        decreases 32 - i,
    {
        if a[i] != b[i] {
            return false;
        }
        i += 1;
    }
    assert(a@ =~= b@);
    true
}

impl<O> ComputationOutputs<O> {
    /// The output of a computation that completed; `AbortedComputation`
    /// for one that did not.
    pub fn into_result(self) -> (r: Result<O, ErrorCode>)
        ensures
            r == match self {
                ComputationOutputs::Success(o) => Ok::<O, ErrorCode>(o),
                ComputationOutputs::Failure => Err::<O, ErrorCode>(ErrorCode::AbortedComputation),
            },
    {
        match self {
            ComputationOutputs::Success(o) => Ok(o),
            ComputationOutputs::Failure => Err(ErrorCode::AbortedComputation),
        }
    }
}

impl<S> Market<S> {
    /// The plaintext pool fields as one value.
    pub open spec fn public_state(self) -> MarketState {
        MarketState {
            yes_pool: self.public_yes_pool,
            no_pool: self.public_no_pool,
            last_price: self.public_last_price,
            total_trades: self.public_total_trades,
        }
    }

    /// Whether, at time `now`, the current window has run for at least
    /// `duration` seconds.
    pub open spec fn elapsed(self, duration: u64, now: i64) -> bool {
        now - self.last_switch_ts >= duration
    }

    /// What a request to leave `window` at time `now` is answered with:
    /// the window must be the current one and must have run its duration.
    pub open spec fn switch_check(self, window: MarketWindow, duration: u64, now: i64) -> Result<
        (),
        ErrorCode,
    > {
        if self.window_state != window {
            Err(ErrorCode::WrongPhase)
        } else if !self.elapsed(duration, now) {
            Err(ErrorCode::WindowNotExpired)
        } else {
            Ok(())
        }
    }

    /// The plaintext pool and the parameter held with it.
    pub open spec fn public_pool(self) -> RevealedPool {
        RevealedPool { pool: self.public_state(), param: self.public_param }
    }

    /// The market after a reveal that handed out `o` was committed at `now`.
    pub open spec fn revealed(self, o: RevealedPool, now: i64) -> Self {
        Market {
            public_yes_pool: o.pool.yes_pool,
            public_no_pool: o.pool.no_pool,
            public_last_price: o.pool.last_price,
            public_total_trades: o.pool.total_trades,
            public_param: o.param,
            window_state: MarketWindow::Public,
            last_switch_ts: now,
            market_state: None,
            ..self
        }
    }

    /// The market after a hide that produced `s` was committed at `now`.
    pub open spec fn hidden(self, s: S, now: i64) -> Self {
        Market {
            market_state: Some(s),
            window_state: MarketWindow::Private,
            last_switch_ts: now,
            public_yes_pool: 0,
            public_no_pool: 0,
            public_last_price: 0,
            public_total_trades: 0,
            public_param: 0,
            ..self
        }
    }

    fn has_elapsed(&self, duration: u64, now: i64) -> (r: bool)
        ensures
            r == self.elapsed(duration, now),
    {
        (now as i128) - (self.last_switch_ts as i128) >= (duration as i128)
    }

    /// A new market, created at time `now`. It starts in the private
    /// window with nothing in confidential storage, no plaintext pools and
    /// no outcome; the sponsor is its first authority.
    pub fn init_market(
        sponsor: [u8; 32],
        resolution_date: i64,
        liquidity_cap: u64,
        opp_window_duration: u64,
        pub_window_duration: u64,
        now: i64,
    ) -> (market: Self)
        ensures
            market == (Market::<S> {
                sponsor,
                authority: sponsor,
                resolution_date,
                window_state: MarketWindow::Private,
                liquidity_cap,
                market_state: None,
                public_yes_pool: 0,
                public_no_pool: 0,
                public_last_price: 0,
                public_total_trades: 0,
                public_param: 0,
                opp_window_duration,
                pub_window_duration,
                last_switch_ts: now,
                resolved: false,
                outcome: None,
            }),
    {
        Market {
            sponsor,
            authority: sponsor,
            resolution_date,
            window_state: MarketWindow::Private,
            liquidity_cap,
            market_state: None,
            public_yes_pool: 0,
            public_no_pool: 0,
            public_last_price: 0,
            public_total_trades: 0,
            public_param: 0,
            opp_window_duration,
            pub_window_duration,
            last_switch_ts: now,
            resolved: false,
            outcome: None,
        }
    }

    /// Decides a request to leave the private window at time `now`.
    /// Accepted when the market is in the private window and that window
    /// has lasted `opp_window_duration`; the caller then queues
    /// `Computation::RevealMarketState` and commits what it hands back with
    /// `reveal_market_state_callback`.
    pub fn switch_to_public(&self, now: i64) -> (r: Result<(), ErrorCode>)
        ensures
            r == self.switch_check(MarketWindow::Private, self.opp_window_duration, now),
    {
        if self.window_state != MarketWindow::Private {
            return Err(ErrorCode::WrongPhase);
        }
        if !self.has_elapsed(self.opp_window_duration, now) {
            return Err(ErrorCode::WindowNotExpired);
        }
        Ok(())
    }

    /// Decides a request to leave the public window at time `now`.
    /// Accepted when the market is in the public window and that window
    /// has lasted `pub_window_duration`; the answer then carries the
    /// plaintext pool values and the parameter, unchanged, that are to go
    /// into hiding. The caller queues `Computation::HideMarketState` with
    /// them and commits what it hands back with
    /// `hide_market_state_callback`.
    pub fn switch_to_private(&self, now: i64) -> (r: Result<RevealedPool, ErrorCode>)
        ensures
            r == match self.switch_check(MarketWindow::Public, self.pub_window_duration, now) {
                Ok(_) => Ok::<RevealedPool, ErrorCode>(self.public_pool()),
                Err(e) => Err::<RevealedPool, ErrorCode>(e),
            },
    {
        if self.window_state != MarketWindow::Public {
            return Err(ErrorCode::WrongPhase);
        }
        if !self.has_elapsed(self.pub_window_duration, now) {
            return Err(ErrorCode::WindowNotExpired);
        }
        Ok(
            RevealedPool {
                pool: MarketState {
                    yes_pool: self.public_yes_pool,
                    no_pool: self.public_no_pool,
                    last_price: self.public_last_price,
                    total_trades: self.public_total_trades,
                },
                param: self.public_param,
            },
        )
    }

    /// The market with `s` in confidential storage and all else as it was.
    pub open spec fn stored(self, s: S) -> Self {
        Market { market_state: Some(s), ..self }
    }

    /// The market after `trade` was executed on its plaintext pools, where
    /// the linear model accepts the trade.
    pub open spec fn after_public_trade(self, trade: TradeInput) -> Self {
        let next = self.public_state().after_trade(trade);
        Market {
            public_yes_pool: next.yes_pool,
            public_no_pool: next.no_pool,
            public_last_price: next.last_price,
            public_total_trades: next.total_trades,
            ..self
        }
    }

    /// What a request by `caller` to resolve the market at time `now` is
    /// answered with: the caller must be the authority, the resolution
    /// date must have come, and the market must not have an outcome yet.
    pub open spec fn resolve_check(self, caller: Seq<u8>, now: i64) -> Result<(), ErrorCode> {
        if caller != self.authority@ {
            Err(ErrorCode::Unauthorized)
        } else if now < self.resolution_date {
            Err(ErrorCode::NotYetResolvable)
        } else if self.resolved {
            Err(ErrorCode::AlreadyResolved)
        } else {
            Ok(())
        }
    }

    /// The market once resolved to `outcome`.
    pub open spec fn resolved_to(self, outcome: bool) -> Self {
        Market { resolved: true, outcome: Some(outcome), ..self }
    }

    /// Commits the first confidential pool state of the market. A
    /// computation that failed changes nothing.
    pub fn initialize_market_callback(&mut self, output: ComputationOutputs<S>) -> (r: Result<
        (),
        ErrorCode,
    >)
        ensures
            match output {
                ComputationOutputs::Success(s) => r == Ok::<(), ErrorCode>(()) && *final(self)
                    == old(self).stored(s),
                ComputationOutputs::Failure => r == Err::<(), ErrorCode>(
                    ErrorCode::AbortedComputation,
                ) && *final(self) == *old(self),
            },
    {
        match output {
            ComputationOutputs::Success(s) => {
                self.market_state = Some(s);
                Ok(())
            },
            ComputationOutputs::Failure => Err(ErrorCode::AbortedComputation),
        }
    }

    /// Decides whether a confidential trade may be submitted: only in the
    /// private window. The caller then queues
    /// `Computation::ProcessPrivateTrade` and commits what it hands back
    /// with `process_private_trade_callback`.
    pub fn trade_private(&self) -> (r: Result<(), ErrorCode>)
        ensures
            r == if self.window_state == MarketWindow::Private {
                Ok::<(), ErrorCode>(())
            } else {
                Err::<(), ErrorCode>(ErrorCode::WrongPhase)
            },
    {
        if self.window_state != MarketWindow::Private {
            return Err(ErrorCode::WrongPhase);
        }
        Ok(())
    }

    /// Commits the pool state that a confidential trade produced and
    /// announces the trade. A computation that failed changes nothing.
    pub fn process_private_trade_callback(&mut self, output: ComputationOutputs<S>) -> (r: Result<
        TradeEvent,
        ErrorCode,
    >)
        ensures
            match output {
                ComputationOutputs::Success(s) => r == Ok::<TradeEvent, ErrorCode>(
                    TradeEvent { window: MarketWindow::Private },
                ) && *final(self) == old(self).stored(s),
                ComputationOutputs::Failure => r == Err::<TradeEvent, ErrorCode>(
                    ErrorCode::AbortedComputation,
                ) && *final(self) == *old(self),
            },
    {
        match output {
            ComputationOutputs::Success(s) => {
                self.market_state = Some(s);
                Ok(TradeEvent { window: MarketWindow::Private })
            },
            ComputationOutputs::Failure => Err(ErrorCode::AbortedComputation),
        }
    }

    /// Commits a reveal at time `now`: the revealed values become the
    /// plaintext pools and the plaintext parameter as they are, the market
    /// enters the public window, the window clock restarts and
    /// confidential storage is cleared. A computation that failed changes
    /// nothing.
    pub fn reveal_market_state_callback(
        &mut self,
        output: ComputationOutputs<RevealedPool>,
        now: i64,
    ) -> (r: Result<WindowSwitchEvent, ErrorCode>)
        ensures
            match output {
                ComputationOutputs::Success(o) => r == Ok::<WindowSwitchEvent, ErrorCode>(
                    WindowSwitchEvent {
                        new_window: MarketWindow::Public,
                        yes_pool: o.pool.yes_pool,
                        no_pool: o.pool.no_pool,
                    },
                ) && *final(self) == old(self).revealed(o, now),
                ComputationOutputs::Failure => r == Err::<WindowSwitchEvent, ErrorCode>(
                    ErrorCode::AbortedComputation,
                ) && *final(self) == *old(self),
            },
    {
        match output {
            ComputationOutputs::Success(o) => {
                self.public_yes_pool = o.pool.yes_pool;
                self.public_no_pool = o.pool.no_pool;
                self.public_last_price = o.pool.last_price;
                self.public_total_trades = o.pool.total_trades;
                self.public_param = o.param;
                self.window_state = MarketWindow::Public;
                self.last_switch_ts = now;
                self.market_state = None;
                Ok(
                    WindowSwitchEvent {
                        new_window: MarketWindow::Public,
                        yes_pool: o.pool.yes_pool,
                        no_pool: o.pool.no_pool,
                    },
                )
            },
            ComputationOutputs::Failure => Err(ErrorCode::AbortedComputation),
        }
    }

    /// Executes a trade of the public window on the plaintext pools, under
    /// the linear model. Refused with `WrongPhase` outside the public
    /// window, and otherwise as the linear model refuses it; a refused
    /// trade changes nothing.
    pub fn trade_public(&mut self, amount: u64, is_buy_yes: bool) -> (r: Result<
        TradeEvent,
        ErrorCode,
    >)
        ensures
            old(self).window_state != MarketWindow::Public ==> r == Err::<TradeEvent, ErrorCode>(
                ErrorCode::WrongPhase,
            ) && *final(self) == *old(self),
            old(self).window_state == MarketWindow::Public ==> match old(self).public_state().trade_result(TradeInput { amount, is_buy_yes }) {
                Ok(_) => r == Ok::<TradeEvent, ErrorCode>(
                    TradeEvent { window: MarketWindow::Public },
                ) && *final(self) == old(self).after_public_trade(
                    TradeInput { amount, is_buy_yes },
                ),
                Err(e) => r == Err::<TradeEvent, ErrorCode>(e) && *final(self) == *old(self),
            },
    {
        if self.window_state != MarketWindow::Public {
            return Err(ErrorCode::WrongPhase);
        }
        let state = MarketState {
            yes_pool: self.public_yes_pool,
            no_pool: self.public_no_pool,
            last_price: self.public_last_price,
            total_trades: self.public_total_trades,
        };
        let trade = TradeInput { amount, is_buy_yes };
        match process_public_trade(&state, &trade) {
            Ok((next, _)) => {
                self.public_yes_pool = next.yes_pool;
                self.public_no_pool = next.no_pool;
                self.public_last_price = next.last_price;
                self.public_total_trades = next.total_trades;
                Ok(TradeEvent { window: MarketWindow::Public })
            },
            Err(e) => Err(e),
        }
    }

    /// Commits a hide at time `now`: `s` goes into confidential storage,
    /// the market enters the private window, the window clock restarts and
    /// the plaintext pools and parameter are zeroed. A computation that failed changes
    /// nothing.
    pub fn hide_market_state_callback(&mut self, output: ComputationOutputs<S>, now: i64) -> (r:
        Result<WindowSwitchEvent, ErrorCode>)
        ensures
            match output {
                ComputationOutputs::Success(s) => r == Ok::<WindowSwitchEvent, ErrorCode>(
                    WindowSwitchEvent { new_window: MarketWindow::Private, yes_pool: 0, no_pool: 0 },
                ) && *final(self) == old(self).hidden(s, now),
                ComputationOutputs::Failure => r == Err::<WindowSwitchEvent, ErrorCode>(
                    ErrorCode::AbortedComputation,
                ) && *final(self) == *old(self),
            },
    {
        match output {
            ComputationOutputs::Success(s) => {
                self.market_state = Some(s);
                self.window_state = MarketWindow::Private;
                self.last_switch_ts = now;
                self.public_yes_pool = 0;
                self.public_no_pool = 0;
                self.public_last_price = 0;
                self.public_total_trades = 0;
                self.public_param = 0;
                Ok(WindowSwitchEvent { new_window: MarketWindow::Private, yes_pool: 0, no_pool: 0 })
            },
            ComputationOutputs::Failure => Err(ErrorCode::AbortedComputation),
        }
    }

    /// Decides whether `caller` may be sent a view of the confidential
    /// pool: only the sponsor, and only in the private window. The caller
    /// then queues `Computation::ViewMarketState`.
    pub fn get_sponsor_view(&self, caller: &[u8; 32]) -> (r: Result<(), ErrorCode>)
        ensures
            r == if caller@ != self.sponsor@ {
                Err::<(), ErrorCode>(ErrorCode::Unauthorized)
            } else if self.window_state != MarketWindow::Private {
                Err::<(), ErrorCode>(ErrorCode::WrongPhase)
            } else {
                Ok::<(), ErrorCode>(())
            },
    {
        if !same_key(caller, &self.sponsor) {
            return Err(ErrorCode::Unauthorized);
        }
        if self.window_state != MarketWindow::Private {
            return Err(ErrorCode::WrongPhase);
        }
        Ok(())
    }

    /// Decides whether `caller` may be sent a view of a trader's position:
    /// only the sponsor. The caller then queues
    /// `Computation::ViewUserPosition`.
    pub fn get_user_position_view(&self, caller: &[u8; 32]) -> (r: Result<(), ErrorCode>)
        ensures
            r == if caller@ != self.sponsor@ {
                Err::<(), ErrorCode>(ErrorCode::Unauthorized)
            } else {
                Ok::<(), ErrorCode>(())
            },
    {
        if !same_key(caller, &self.sponsor) {
            return Err(ErrorCode::Unauthorized);
        }
        Ok(())
    }

    /// Resolves the market to `outcome` at time `now` on behalf of
    /// `caller`. Refused with `Unauthorized` unless the caller is the
    /// authority, with `NotYetResolvable` before the resolution date, and
    /// with `AlreadyResolved` once an outcome is set; a refusal changes
    /// nothing.
    pub fn resolve_market(&mut self, caller: &[u8; 32], outcome: bool, now: i64) -> (r: Result<
        MarketResolvedEvent,
        ErrorCode,
    >)
        ensures
            match old(self).resolve_check(caller@, now) {
                Ok(_) => r == Ok::<MarketResolvedEvent, ErrorCode>(MarketResolvedEvent { outcome })
                    && *final(self) == old(self).resolved_to(outcome),
                Err(e) => r == Err::<MarketResolvedEvent, ErrorCode>(e) && *final(self) == *old(self),
            },
    {
        if !same_key(caller, &self.authority) {
            return Err(ErrorCode::Unauthorized);
        }
        if now < self.resolution_date {
            return Err(ErrorCode::NotYetResolvable);
        }
        if self.resolved {
            return Err(ErrorCode::AlreadyResolved);
        }
        self.resolved = true;
        self.outcome = Some(outcome);
        Ok(MarketResolvedEvent { outcome })
    }
}

impl<S> UserPositionRecord<S> {
    /// The record with `s` in confidential storage and all else as it was.
    pub open spec fn stored(self, s: S) -> Self {
        UserPositionRecord { position_state: Some(s), ..self }
    }

    /// A new record for `user` in `market`, with nothing in confidential
    /// storage.
    pub fn init_user_position(user: [u8; 32], market: [u8; 32]) -> (record: Self)
        ensures
            record == (UserPositionRecord::<S> { user, market, position_state: None }),
    {
        UserPositionRecord { user, market, position_state: None }
    }

    /// Commits the first share counts of the position. A computation that
    /// failed changes nothing.
    pub fn initialize_user_position_callback(&mut self, output: ComputationOutputs<S>) -> (r:
        Result<(), ErrorCode>)
        ensures
            match output {
                ComputationOutputs::Success(s) => r == Ok::<(), ErrorCode>(()) && *final(self)
                    == old(self).stored(s),
                ComputationOutputs::Failure => r == Err::<(), ErrorCode>(
                    ErrorCode::AbortedComputation,
                ) && *final(self) == *old(self),
            },
    {
        match output {
            ComputationOutputs::Success(s) => {
                self.position_state = Some(s);
                Ok(())
            },
            ComputationOutputs::Failure => Err(ErrorCode::AbortedComputation),
        }
    }

    /// Decides whether a confidential trade of `user` in `market`, which
    /// is in `window`, may be recorded in this position. Refused with
    /// `WrongPhase` unless the market is in the private window, and with
    /// `Unauthorized` unless the position is that of `user` in `market`.
    /// The record is only read: a refusal leaves the position as it was,
    /// and the caller queues nothing. Where the answer is `Ok`, the caller
    /// queues `Computation::UpdateUserPosition` and commits what it hands
    /// back with `update_user_position_callback`.
    pub fn update_user_position_private(
        &self,
        user: &[u8; 32],
        market: &[u8; 32],
        window: MarketWindow,
    ) -> (r: Result<(), ErrorCode>)
        ensures
            r == if window != MarketWindow::Private {
                Err::<(), ErrorCode>(ErrorCode::WrongPhase)
            } else if user@ == self.user@ && market@ == self.market@ {
                Ok::<(), ErrorCode>(())
            } else {
                Err::<(), ErrorCode>(ErrorCode::Unauthorized)
            },
    {
        if window != MarketWindow::Private {
            return Err(ErrorCode::WrongPhase);
        }
        if !same_key(user, &self.user) || !same_key(market, &self.market) {
            return Err(ErrorCode::Unauthorized);
        }
        Ok(())
    }

    /// Commits the share counts that recording a trade produced. A
    /// computation that failed changes nothing.
    pub fn update_user_position_callback(&mut self, output: ComputationOutputs<S>) -> (r: Result<
        (),
        ErrorCode,
    >)
        ensures
            match output {
                ComputationOutputs::Success(s) => r == Ok::<(), ErrorCode>(()) && *final(self)
                    == old(self).stored(s),
                ComputationOutputs::Failure => r == Err::<(), ErrorCode>(
                    ErrorCode::AbortedComputation,
                ) && *final(self) == *old(self),
            },
    {
        match output {
            ComputationOutputs::Success(s) => {
                self.position_state = Some(s);
                Ok(())
            },
            ComputationOutputs::Failure => Err(ErrorCode::AbortedComputation),
        }
    }
}

} // verus!

//! The share ledger of one trader in one market.
//!
//! Each side has an open count, which buys add to, and a closed count, which
//! holds shares moved into escrow until the market is resolved. A close
//! moves shares from open to closed and never changes their sum.

use crate::errors::ErrorCode;
use vstd::prelude::*;

verus! {

/// The shares of one trader in one market.
#[derive(Clone, Copy, Debug, PartialEq, Eq, Structural)]
pub struct UserPosition {
    pub yes_tokens_open: u64,
    pub no_tokens_open: u64,
    pub yes_tokens_closed: u64,
    pub no_tokens_closed: u64,
}

/// A request to move open shares into escrow.
#[derive(Clone, Copy, Debug, PartialEq, Eq, Structural)]
pub struct CloseInput {
    pub close_yes_tokens: u64,
    pub close_no_tokens: u64,
}

impl UserPosition {
    /// All YES shares of the position, open and closed.
    pub open spec fn yes_total(self) -> int {
        self.yes_tokens_open + self.yes_tokens_closed
    }

    /// All NO shares of the position, open and closed.
    pub open spec fn no_total(self) -> int {
        self.no_tokens_open + self.no_tokens_closed
    }

    /// The position with `shares` more open on the side bought, where
    /// that count fits.
    pub open spec fn credited(self, is_buy_yes: bool, shares: u64) -> UserPosition {
        if is_buy_yes {
            UserPosition { yes_tokens_open: (self.yes_tokens_open + shares) as u64, ..self }
        } else {
            UserPosition { no_tokens_open: (self.no_tokens_open + shares) as u64, ..self }
        }
    }

    /// Whether `shares` more on the side bought would leave `u64`.
    pub open spec fn credit_overflows(self, is_buy_yes: bool, shares: u64) -> bool {
        if is_buy_yes {
            self.yes_tokens_open + shares > u64::MAX
        } else {
            self.no_tokens_open + shares > u64::MAX
        }
    }

    /// What recording a buy of `shares` is answered with.
    pub open spec fn record_result(self, is_buy_yes: bool, shares: u64) -> Result<
        UserPosition,
        ErrorCode,
    > {
        if self.credit_overflows(is_buy_yes, shares) {
            Err(ErrorCode::Overflow)
        } else {
            Ok(self.credited(is_buy_yes, shares))
        }
    }

    /// Whether the position holds open what `close` asks to move.
    pub open spec fn covers(self, close: CloseInput) -> bool {
        close.close_yes_tokens <= self.yes_tokens_open && close.close_no_tokens
            <= self.no_tokens_open
    }

    /// Whether a closed count after `close` would leave `u64`.
    pub open spec fn close_overflows(self, close: CloseInput) -> bool {
        self.yes_tokens_closed + close.close_yes_tokens > u64::MAX || self.no_tokens_closed
            + close.close_no_tokens > u64::MAX
    }

    /// The position after `close`, where the close is accepted: on each
    /// side the amount asked for has moved from open to closed.
    pub open spec fn closed_by(self, close: CloseInput) -> UserPosition {
        UserPosition {
            yes_tokens_open: (self.yes_tokens_open - close.close_yes_tokens) as u64,
            no_tokens_open: (self.no_tokens_open - close.close_no_tokens) as u64,
            yes_tokens_closed: (self.yes_tokens_closed + close.close_yes_tokens) as u64,
            no_tokens_closed: (self.no_tokens_closed + close.close_no_tokens) as u64,
        }
    }

    /// What `close` is answered with: `InsufficientOpenPosition` where it
    /// asks for more than is open on either side, `Overflow` where a
    /// closed count would leave `u64`, otherwise the new position.
    pub open spec fn close_result(self, close: CloseInput) -> Result<UserPosition, ErrorCode> {
        if !self.covers(close) {
            Err(ErrorCode::InsufficientOpenPosition)
        } else if self.close_overflows(close) {
            Err(ErrorCode::Overflow)
        } else {
            Ok(self.closed_by(close))
        }
    }

    /// The position after one close call: the new position where the
    /// close is accepted, the old one where it is refused.
    pub open spec fn after_close_call(self, close: CloseInput) -> UserPosition {
        match self.close_result(close) {
            Ok(next) => next,
            Err(_) => self,
        }
    }

    /// The position after the close calls of `closes`, made in order.
    pub open spec fn after_close_calls(self, closes: Seq<CloseInput>) -> UserPosition
        decreases closes.len(),
    {
        if closes.len() == 0 {
            self
        } else {
            self.after_close_calls(closes.drop_last()).after_close_call(closes.last())
        }
    }
}

/// The position of a trader who has not traded: every count is zero.
pub fn initialize_user_position() -> (position: UserPosition)
    ensures
        position == (UserPosition {
            yes_tokens_open: 0,
            no_tokens_open: 0,
            yes_tokens_closed: 0,
            no_tokens_closed: 0,
        }),
{
    UserPosition { yes_tokens_open: 0, no_tokens_open: 0, yes_tokens_closed: 0, no_tokens_closed: 0 }
}

/// Records a buy: `shares` more are open on the side bought.
pub fn record_trade(position: &UserPosition, is_buy_yes: bool, shares: u64) -> (r: Result<
    UserPosition,
    ErrorCode,
>)
    ensures
        r == position.record_result(is_buy_yes, shares),
{
    let mut next = *position;
    if is_buy_yes {
        match position.yes_tokens_open.checked_add(shares) {
            Some(open) => {
                next.yes_tokens_open = open;
            },
            None => {
                return Err(ErrorCode::Overflow);
            },
        }
    } else {
        match position.no_tokens_open.checked_add(shares) {
            Some(open) => {
                next.no_tokens_open = open;
            },
            None => {
                return Err(ErrorCode::Overflow);
            },
        }
    }
    Ok(next)
}

/// Moves open shares into escrow. The sum of open and closed shares of
/// each side is the same after the call as before it, accepted or not.
pub fn close_position(position: &UserPosition, close: &CloseInput) -> (r: Result<
    UserPosition,
    ErrorCode,
>)
    ensures
        r == position.close_result(*close),
        r matches Ok(next) ==> next.yes_total() == position.yes_total() && next.no_total()
            == position.no_total(),
{
    if close.close_yes_tokens > position.yes_tokens_open || close.close_no_tokens
        > position.no_tokens_open {
        return Err(ErrorCode::InsufficientOpenPosition);
    }
    match (
        position.yes_tokens_closed.checked_add(close.close_yes_tokens),
        position.no_tokens_closed.checked_add(close.close_no_tokens),
    ) {
        (Some(yes_closed), Some(no_closed)) => Ok(
            UserPosition {
                yes_tokens_open: position.yes_tokens_open - close.close_yes_tokens,
                no_tokens_open: position.no_tokens_open - close.close_no_tokens,
                yes_tokens_closed: yes_closed,
                no_tokens_closed: no_closed,
            },
        ),
        _ => Err(ErrorCode::Overflow),
    }
}

/// The four counts of `position` in the clear: open YES, open NO, closed
/// YES, closed NO.
pub fn reveal_user_position(position: &UserPosition) -> (revealed: (u64, u64, u64, u64))
    ensures
        revealed == (
            position.yes_tokens_open,
            position.no_tokens_open,
            position.yes_tokens_closed,
            position.no_tokens_closed,
        ),
{
    (
        position.yes_tokens_open,
        position.no_tokens_open,
        position.yes_tokens_closed,
        position.no_tokens_closed,
    )
}

/// One close call, accepted or refused, leaves the sum of open and closed
/// shares of each side as it was.
pub proof fn lemma_close_conserves(position: UserPosition, close: CloseInput)
    ensures
        position.after_close_call(close).yes_total() == position.yes_total(),
        position.after_close_call(close).no_total() == position.no_total(),
{
}

/// Any sequence of close calls leaves the sum of open and closed shares of
/// each side as it was.
pub proof fn lemma_close_calls_conserve(position: UserPosition, closes: Seq<CloseInput>)
    ensures
        position.after_close_calls(closes).yes_total() == position.yes_total(),
        position.after_close_calls(closes).no_total() == position.no_total(),
    decreases closes.len(),
{
    if closes.len() > 0 {
        lemma_close_calls_conserve(position, closes.drop_last());
        lemma_close_conserves(position.after_close_calls(closes.drop_last()), closes.last());
    }
}

} // verus!

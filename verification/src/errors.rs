//! The reasons for which an operation is refused.

use vstd::prelude::*;

verus! {

/// Why an operation was refused. Every refusal leaves all state as it was.
#[derive(Clone, Copy, Debug, PartialEq, Eq, Structural)]
pub enum ErrorCode {
    /// The confidential computation did not complete.
    AbortedComputation,
    /// The operation was attempted in the other window.
    WrongPhase,
    /// A window switch was attempted before the window's duration had passed.
    WindowNotExpired,
    /// The trade has a zero amount, or would leave a pool empty or overdrawn.
    InvalidTrade,
    /// A close asked for more shares than the position holds open.
    InsufficientOpenPosition,
    /// The caller is not the key that the operation is reserved for.
    Unauthorized,
    /// Resolution was attempted before the resolution date.
    NotYetResolvable,
    /// Resolution was attempted on a market that already has an outcome.
    AlreadyResolved,
    /// A result would not fit the integer type that holds it.
    Overflow,
}

} // verus!

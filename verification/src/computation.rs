//! The confidential computations that the ledger queues.
//!
//! Each computation is known to the confidential environment by the name of
//! its instruction, and its definition is registered under an offset that
//! the environment derives from that name.

use vstd::prelude::*;

verus! {

/// A confidential computation that the ledger can queue.
#[derive(Clone, Copy, Debug, PartialEq, Eq, Structural)]
pub enum Computation {
    InitializeMarket,
    InitializeUserPosition,
    ProcessPrivateTrade,
    UpdateUserPosition,
    RevealMarketState,
    HideMarketState,
    ViewMarketState,
    ViewUserPosition,
}

/// The offset under which the definition of the computation named `name`
/// is registered.
pub uninterp spec fn definition_offset(name: Seq<char>) -> u32;

/// Calls `arcium_anchor::comp_def_offset`, which hashes the name with
/// SHA-256 and reads the first four bytes of the digest as a little-endian
/// number. The contract claims only that the result depends on nothing but
/// the name.
#[verifier::external_body]
fn offset_of_name(name: &str) -> (offset: u32)
    ensures
        offset == definition_offset(name@),
{
    arcium_anchor::comp_def_offset(name)
}

impl Computation {
    /// The name of the instruction that carries out the computation.
    pub open spec fn instruction_name(self) -> Seq<char> {
        match self {
            Computation::InitializeMarket => "initialize_market"@,
            Computation::InitializeUserPosition => "initialize_user_position"@,
            Computation::ProcessPrivateTrade => "process_private_trade"@,
            Computation::UpdateUserPosition => "update_user_position"@,
            Computation::RevealMarketState => "reveal_market_state"@,
            Computation::HideMarketState => "hide_market_state"@,
            Computation::ViewMarketState => "view_market_state"@,
            Computation::ViewUserPosition => "view_user_position"@,
        }
    }

    /// The name of the instruction that carries out the computation.
    pub fn name(&self) -> (name: &'static str)
        ensures
            name@ == self.instruction_name(),
    {
        match self {
            Computation::InitializeMarket => "initialize_market",
            Computation::InitializeUserPosition => "initialize_user_position",
            Computation::ProcessPrivateTrade => "process_private_trade",
            Computation::UpdateUserPosition => "update_user_position",
            Computation::RevealMarketState => "reveal_market_state",
            Computation::HideMarketState => "hide_market_state",
            Computation::ViewMarketState => "view_market_state",
            Computation::ViewUserPosition => "view_user_position",
        }
    }

    /// The offset under which the definition of the computation is
    /// registered: that of its instruction's name.
    pub fn comp_def_offset(&self) -> (offset: u32)
        ensures
            offset == definition_offset(self.instruction_name()),
    {
        offset_of_name(self.name())
    }
}

} // verus!

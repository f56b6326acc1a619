//! Pricing engine and window state machine of a two-phase prediction market.
//!
//! A market for a yes/no question alternates between a private window, in
//! which the pools are held in confidential storage, and a public window, in
//! which they are held in the clear. This crate holds the arithmetic of the
//! three pricing models, the share ledger of a trader, and the rules that say
//! when a trade or a window switch is accepted and what it leaves behind.
//! Every function is stated over plain values: how a value is encrypted,
//! stored or sent is the caller's business.

pub mod computation;
pub mod constant_product;
pub mod errors;
pub mod fixed_point;
pub mod linear_dollar;
pub mod lmsr;
pub mod market;
pub mod pool;
pub mod position;
pub mod pricing;

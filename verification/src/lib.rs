//! Account-state engine of an on-chain lending protocol.
//!
//! The library models every persistent record (lending market, reserve,
//! borrower obligation) as a fixed-layout binary account, and every
//! instruction handler as a pure validate-then-mutate function over staged
//! copies of the accounts it touches.  The host applies the staged writes,
//! and performs the returned external actions, only when a handler succeeds;
//! any error discards the whole stage.

pub mod account;
pub mod codec;
pub mod envelope;
pub mod errors;
pub mod laws;
pub mod lending_market;
pub mod lifecycle;
pub mod market_instructions;
pub mod obligation;
pub mod obligation_instructions;
pub mod pda;
pub mod reserve;
pub mod reserve_instructions;

use vstd::prelude::*;

verus! {

/// Basis-point denominator: ratio fields are integers out of 10000.
pub const BPS_MAX: u16 = 10000;

/// Upper bound on a reserve's liquidation bonus, in basis points.
pub const LIQUIDATION_BONUS_MAX: u16 = 2000;

} // verus!

//! Verified core of a token-lockup program.
//!
//! A token owner deposits tokens into a time-boxed custodial escrow
//! (`Lockup`), later starts a fixed cooldown (`Unlock`), and withdraws the
//! tokens back once the cooldown has elapsed (`Withdraw`).  This crate holds
//! the instruction codec, the lockup record layout, the derivation of the
//! escrow addresses, and the instruction-processing state machine, each with
//! a contract that pins its behaviour down.

use vstd::prelude::*;

pub mod error;
pub mod instruction;
pub mod laws;
pub mod processor;
pub mod state;

verus! {

/// Seconds between unlocking a lockup and eligibility for withdrawal.
pub const LOCKUP_COOLDOWN_SECONDS: u64 = 30 * 60;

} // verus!

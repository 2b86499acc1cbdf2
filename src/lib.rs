//! Bounded rolling windows of severity records, kept per account and per
//! category, with the session-boundary hook that drives them.

pub mod policy;
pub mod window;
pub mod store;
pub mod hook;
pub mod genesis;

use vstd::prelude::*;

verus! {

/// Identifier of an account; carries no structure of its own.
pub type AccountId = u64;

/// Step counter (block number or session index) that orders records.
pub type Period = u64;

/// Weight of one observed offense.
pub type Severity = u64;

/// Balance of an account in the genesis configuration.
pub type Balance = u64;

/// Wide integer in which sums of severities are taken without overflow.
pub type ExtendedBalance = u128;

} // verus!

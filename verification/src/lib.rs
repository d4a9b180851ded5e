//! Verified bookkeeping for a token presale with cliff-plus-interval vesting,
//! an admin lifecycle (price, pause, close), a pre-vesting refund path, and a
//! reward-per-share yield accumulator for staked positions.
//!
//! The library holds the state transitions and the arithmetic alone. Moving
//! funds, reading the clock, and reading a price feed are the host's work: each
//! operation takes the current time, balances and oracle readings as plain
//! values, and returns the amount the host must transfer when it succeeds.

pub mod airdrop;
pub mod oracle;
pub mod presale;
pub mod sale;
pub mod vesting;
pub mod yield_pool;

use vstd::prelude::*;

verus! {

/// An already-authenticated identity handed in by the host: a wallet, a mint,
/// or a program-derived account. The ledger only ever compares identities for
/// equality, so a plain number stands for one.
pub type AccountId = u64;

} // verus!

//! Splitting one staking position into two.
//!
//! The crate decides, from a snapshot of the accounts of a transaction and a
//! requested amount, what the source and the destination account hold after
//! the split, or which error precludes it. Nothing here reads or writes an
//! account: the caller takes the snapshot and stores the outcome.
//!
//! - [`state`]: what a stake account holds, who may act on it, and how a
//!   delegation gives up stake;
//! - [`account`]: the accounts of a transaction, their signers, and the
//!   moving of balance;
//! - [`validate`]: which amounts leave both accounts exempt from rent;
//! - [`split`]: the split: the division of stake, the refusals, the outcome;
//! - [`laws`]: what holds of every split;
//! - [`error`], [`pubkey`]: the refusals and the keys.

pub mod account;
pub mod error;
pub mod laws;
pub mod pubkey;
pub mod split;
pub mod state;
pub mod validate;

//! Deterministic state-transition core of a small currency ledger.
//!
//! Three operations change the ledger: `CreateWallet` registers a wallet,
//! `Issue` credits one, and `Transfer` moves currency from one wallet to three
//! others during a window of time that starts at the transfer's own
//! timestamp. Each operation either takes effect as a whole or leaves the
//! ledger exactly as it was, and what it does is a function of the ledger,
//! the operation and, for a transfer, the time.
//!
//! - [`keys`]: public keys and hashes.
//! - [`wallet`] and [`ledger`]: the state.
//! - [`timestamp`]: timestamps and the transfer window.
//! - [`error`]: why an operation is refused.
//! - [`transactions`]: the operations and their execution.
//! - [`laws`]: what holds of every ledger and every run of operations.

pub mod error;
pub mod keys;
pub mod laws;
pub mod ledger;
pub mod timestamp;
pub mod transactions;
pub mod wallet;

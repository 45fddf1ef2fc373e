//! A verified crowdfunding ledger core: a single dispatch entry point that
//! routes byte-encoded instructions to three state transitions (create a
//! campaign, withdraw funds, donate), each gated by ownership, signer and
//! rent-exemption checks before it mutates account state.

pub mod account;
pub mod codec;
pub mod dispatch;
pub mod errors;
pub mod handlers;
pub mod keys;
pub mod laws;
pub mod record;

pub use keys::Pubkey;

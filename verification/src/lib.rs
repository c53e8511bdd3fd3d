//! A phased token-sale settlement engine.
//!
//! A sale collects deposits of a stable reference asset during timed
//! deposit windows, hands out interim redeemable claim tokens, and later
//! converts those claims pro rata into the offered asset against a
//! supply snapshot frozen at first settlement. A whitelisted early phase
//! sells the offered asset directly at a fixed price, gated by a keccak
//! Merkle membership proof.
//!
//! The engine is modelled over plain balances: every operation is a
//! function from the sale's state, the caller's balances and the current
//! time to either a new state or an error, with nothing moved on error.

pub mod access;
pub mod account;
pub mod error;
pub mod ledger;
pub mod merkle_proof;
pub mod processor;

pub use account::IdoAccount;
pub use account::IdoTimes;
pub use account::SettlementSnapshot;
pub use error::ErrorCode;
pub use ledger::SaleState;
pub use ledger::UserPosition;
pub use merkle_proof::MerkleProof;

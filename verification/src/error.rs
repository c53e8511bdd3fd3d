//! Error codes carried by every fallible operation of the engine.

use vstd::prelude::*;

verus! {

/// Why an operation was refused. Each code names the business reason, so
/// that a caller can tell "too early" from "too late" and a bad proof from
/// an underfunded balance.
#[derive(Clone, Copy, Debug, PartialEq, Eq, Structural)]
pub enum ErrorCode {
    /// The sale's first boundary is not strictly in the future.
    IdoFuture,
    /// The sale's time boundaries are not strictly increasing.
    SeqTimes,
    /// The configured private target is zero while private supply is not.
    InvalidConfiguration,
    /// The operation came before the sale started.
    StartIdoTime,
    /// The deposit window is over.
    EndDeposits,
    /// The whitelisted window is over.
    EndWhitelistedTime,
    /// The sale is over.
    EndIdoTime,
    /// The sale has not reached the requested later phase yet.
    IdoNotOver,
    /// The whitelisted window is still in progress.
    WhitelistNotOver,
    /// The payer's reference-asset balance is too low.
    LowUsdc,
    /// The participant's claim-token balance is too low.
    LowRedeemable,
    /// The pool does not hold enough of the offered asset.
    LowWatermelon,
    /// The Merkle membership proof does not match the whitelist root.
    InvalidProof,
    /// The caller is not the sale's authority.
    Unauthorized,
    /// A whitelisted purchase asked for zero offered tokens.
    InvalidAmountOut,
    /// A whitelisted purchase would round down to a free purchase.
    InvalidAmountPaid,
    /// A balance or an intermediate product cannot be represented.
    MathOverflow,
}

} // verus!

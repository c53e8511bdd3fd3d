//! The phase clock: pure functions of the current time and a sale's
//! configured boundaries that classify "now" into exactly one phase and
//! gate every operation.
//!
//! No phase is ever stored; each gate recomputes it from the wall-clock
//! time its caller read, so a stale stored phase cannot exist.

use vstd::prelude::*;

use crate::account::IdoAccount;
use crate::account::IdoTimes;
use crate::error::ErrorCode;
use crate::merkle_proof::leaf_digest;
use crate::merkle_proof::spec_process_proof;
use crate::merkle_proof::MerkleProof;

verus! {

/// The phase a sale is in at one moment. Exactly one holds at any time.
#[derive(Clone, Copy, Debug, PartialEq, Eq, Structural)]
pub enum Phase {
    /// Before the sale starts; nothing is permitted.
    Pending,
    /// Only whitelist-gated purchases are permitted.
    WhitelistedDeposit,
    /// Only unrestricted deposits are permitted.
    OpenDeposit,
    /// Claim tokens settle into the offered asset or into escrow.
    Settlement,
    /// Participants withdraw escrowed reference asset.
    EscrowWithdraw,
    /// The sale is over; the authority may withdraw proceeds.
    Closed,
}

/// Which phase `now` falls in for a sale with boundaries `times`.
///
/// `whitelisted` says whether whitelist gating is configured: without it
/// the open-deposit window spans from the start boundary, and without a
/// configured escrow boundary the sale closes at `end_ido`.
pub open spec fn spec_phase_of(times: IdoTimes, whitelisted: bool, now: i64) -> Phase {
    if now < times.start_ido {
        Phase::Pending
    } else if whitelisted && now < times.end_whitelisted {
        Phase::WhitelistedDeposit
    } else if now < times.end_deposits {
        Phase::OpenDeposit
    } else if now < times.end_ido {
        Phase::Settlement
    } else if times.end_escrow is Some && now < times.end_escrow->0 {
        Phase::EscrowWithdraw
    } else {
        Phase::Closed
    }
}

/// Classifies `now` into the sale's phase.
pub fn phase_of(times: &IdoTimes, whitelisted: bool, now: i64) -> (r: Phase)
    ensures
        r == spec_phase_of(*times, whitelisted, now),
{
    if now < times.start_ido {
        Phase::Pending
    } else if whitelisted && now < times.end_whitelisted {
        Phase::WhitelistedDeposit
    } else if now < times.end_deposits {
        Phase::OpenDeposit
    } else if now < times.end_ido {
        Phase::Settlement
    } else {
        match times.end_escrow {
            Some(t) if now < t => Phase::EscrowWithdraw,
            _ => Phase::Closed,
        }
    }
}

/// Rejects a configuration whose boundaries are not strictly increasing
/// or whose start is not strictly in the future of `now`, the time at
/// which the sale is being configured.
pub fn validate_ido_times(ido_times: &IdoTimes, now: i64) -> (r: Result<(), ErrorCode>)
    ensures
        r is Ok <==> now < ido_times.start_ido && ido_times.wf(),
        r == Err::<(), ErrorCode>(ErrorCode::IdoFuture) <==> now >= ido_times.start_ido,
        r == Err::<(), ErrorCode>(ErrorCode::SeqTimes) <==> now < ido_times.start_ido
            && !ido_times.wf(),
{
    if !(ido_times.start_ido > now) {
        return Err(ErrorCode::IdoFuture);
    }
    let escrow_ordered = match ido_times.end_escrow {
        Some(t) => ido_times.end_ido < t,
        None => true,
    };
    if !(ido_times.start_ido < ido_times.end_whitelisted
        && ido_times.end_whitelisted < ido_times.end_deposits
        && ido_times.end_deposits < ido_times.end_ido && escrow_ordered) {
        return Err(ErrorCode::SeqTimes);
    }
    Ok(())
}

/// Fails with `StartIdoTime` unless the sale has started.
pub fn only_when_ido_is_started(ido_account: &IdoAccount, now: i64) -> (r: Result<
    (),
    ErrorCode,
>)
    ensures
        r is Ok <==> now >= ido_account.ido_times.start_ido,
        r is Err ==> r->Err_0 == ErrorCode::StartIdoTime,
{
    if now < ido_account.ido_times.start_ido {
        return Err(ErrorCode::StartIdoTime);
    }
    Ok(())
}

/// Gate for operations legal during either deposit window: from the
/// start boundary until deposits close.
pub fn unrestricted_phase(ido_account: &IdoAccount, now: i64) -> (r: Result<(), ErrorCode>)
    requires
        ido_account.ido_times.wf(),
    ensures
        r is Ok <==> ido_account.ido_times.start_ido <= now < ido_account.ido_times.end_deposits,
        r == Err::<(), ErrorCode>(ErrorCode::StartIdoTime) <==> now
            < ido_account.ido_times.start_ido,
        r == Err::<(), ErrorCode>(ErrorCode::EndDeposits) <==> now
            >= ido_account.ido_times.end_deposits,
{
    if now < ido_account.ido_times.start_ido {
        return Err(ErrorCode::StartIdoTime);
    }
    if now >= ido_account.ido_times.end_deposits {
        return Err(ErrorCode::EndDeposits);
    }
    Ok(())
}

/// Gate for whitelist-gated purchases: the sale must have started, have
/// whitelist gating configured, and the whitelisted window must still be
/// open.
pub fn whitelisted_phase(ido_account: &IdoAccount, now: i64) -> (r: Result<(), ErrorCode>)
    requires
        ido_account.ido_times.wf(),
    ensures
        r is Ok <==> spec_phase_of(ido_account.ido_times, ido_account.spec_whitelisted(), now)
            == Phase::WhitelistedDeposit,
        r == Err::<(), ErrorCode>(ErrorCode::StartIdoTime) <==> now
            < ido_account.ido_times.start_ido,
        r == Err::<(), ErrorCode>(ErrorCode::EndWhitelistedTime) <==> now
            >= ido_account.ido_times.start_ido && !(ido_account.spec_whitelisted() && now
            < ido_account.ido_times.end_whitelisted),
{
    if now < ido_account.ido_times.start_ido {
        return Err(ErrorCode::StartIdoTime);
    }
    if !(ido_account.whitelisted() && now < ido_account.ido_times.end_whitelisted) {
        return Err(ErrorCode::EndWhitelistedTime);
    }
    Ok(())
}

/// Gate for unrestricted deposits: the open-deposit window, which begins
/// at the start boundary when no whitelist is configured and at the end
/// of the whitelisted window when one is.
pub fn deposit_phase(ido_account: &IdoAccount, now: i64) -> (r: Result<(), ErrorCode>)
    requires
        ido_account.ido_times.wf(),
    ensures
        r is Ok <==> spec_phase_of(ido_account.ido_times, ido_account.spec_whitelisted(), now)
            == Phase::OpenDeposit,
        r == Err::<(), ErrorCode>(ErrorCode::StartIdoTime) <==> now
            < ido_account.ido_times.start_ido,
        r == Err::<(), ErrorCode>(ErrorCode::WhitelistNotOver) <==> now
            >= ido_account.ido_times.start_ido && ido_account.spec_whitelisted() && now
            < ido_account.ido_times.end_whitelisted,
        r == Err::<(), ErrorCode>(ErrorCode::EndDeposits) <==> now
            >= ido_account.ido_times.end_deposits,
{
    if now < ido_account.ido_times.start_ido {
        return Err(ErrorCode::StartIdoTime);
    }
    if ido_account.whitelisted() && now < ido_account.ido_times.end_whitelisted {
        return Err(ErrorCode::WhitelistNotOver);
    }
    if now >= ido_account.ido_times.end_deposits {
        return Err(ErrorCode::EndDeposits);
    }
    Ok(())
}

/// Gate for settlement: deposits must be over and the sale not yet ended.
pub fn withdraw_phase(ido_account: &IdoAccount, now: i64) -> (r: Result<(), ErrorCode>)
    requires
        ido_account.ido_times.wf(),
    ensures
        r is Ok <==> ido_account.ido_times.end_deposits <= now < ido_account.ido_times.end_ido,
        r == Err::<(), ErrorCode>(ErrorCode::IdoNotOver) <==> now
            < ido_account.ido_times.end_deposits,
        r == Err::<(), ErrorCode>(ErrorCode::EndIdoTime) <==> now
            >= ido_account.ido_times.end_ido,
{
    if now < ido_account.ido_times.end_deposits {
        return Err(ErrorCode::IdoNotOver);
    }
    if now >= ido_account.ido_times.end_ido {
        return Err(ErrorCode::EndIdoTime);
    }
    Ok(())
}

/// Gate for escrow withdrawal: settlement must be over and a configured
/// escrow window still open.
pub fn escrow_phase(ido_account: &IdoAccount, now: i64) -> (r: Result<(), ErrorCode>)
    requires
        ido_account.ido_times.wf(),
    ensures
        r is Ok <==> ido_account.ido_times.end_ido <= now
            && ido_account.ido_times.end_escrow is Some && now
            < ido_account.ido_times.end_escrow->0,
        r == Err::<(), ErrorCode>(ErrorCode::IdoNotOver) <==> now < ido_account.ido_times.end_ido,
        r == Err::<(), ErrorCode>(ErrorCode::EndIdoTime) <==> now >= ido_account.ido_times.end_ido
            && !(ido_account.ido_times.end_escrow is Some && now
            < ido_account.ido_times.end_escrow->0),
{
    if now < ido_account.ido_times.end_ido {
        return Err(ErrorCode::IdoNotOver);
    }
    let open = match ido_account.ido_times.end_escrow {
        Some(t) => now < t,
        None => false,
    };
    if !open {
        return Err(ErrorCode::EndIdoTime);
    }
    Ok(())
}

/// Gate for the authority's proceeds withdrawal: every configured window
/// must be over.
pub fn closed_phase(ido_account: &IdoAccount, now: i64) -> (r: Result<(), ErrorCode>)
    ensures
        r is Ok <==> now >= ido_account.ido_times.spec_final_boundary(),
        r is Err ==> r->Err_0 == ErrorCode::IdoNotOver,
{
    if now < ido_account.ido_times.final_boundary() {
        return Err(ErrorCode::IdoNotOver);
    }
    Ok(())
}

/// Fails with `InvalidProof` unless `proof` shows that the hash of
/// `value` is a leaf of the Merkle tree committed to by `root`.
pub fn only_for_whitelisted(proof: Vec<[u8; 32]>, root: [u8; 32], value: &[u8]) -> (r: Result<
    (),
    ErrorCode,
>)
    ensures
        r is Ok <==> spec_process_proof(proof.deep_view(), leaf_digest(value@)) == root@,
        r is Err ==> r->Err_0 == ErrorCode::InvalidProof,
{
    let leaf = MerkleProof::calc_leaf_hash(value);
    if !MerkleProof::verify(proof, root, leaf) {
        return Err(ErrorCode::InvalidProof);
    }
    Ok(())
}

} // verus!

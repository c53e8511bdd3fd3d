//! The operations of the sale engine.
//!
//! Every operation takes the current time from its caller, gates itself
//! through the phase clock, checks each balance before moving value, and
//! either applies all of its movements or none: on any error the sale
//! and the participant come back unchanged.

use vstd::prelude::*;

use crate::access;
use crate::account::IdoAccount;
use crate::account::IdoTimes;
use crate::account::SettlementSnapshot;
use crate::account::pad_ido_name;
use crate::account::spec_padded_name;
use crate::error::ErrorCode;
use crate::ledger::burn;
use crate::ledger::close_if_empty;
use crate::merkle_proof::hash_eq;
use crate::ledger::mint;
use crate::ledger::mul_div_floor;
use crate::ledger::spec_settlement_payout;
use crate::ledger::spec_snapshot_denominator;
use crate::ledger::spec_whitelisted_price;
use crate::ledger::transfer;
use crate::ledger::SaleState;
use crate::ledger::UserPosition;

verus! {

/// The root stored when none is configured: all zero, meaning no
/// whitelist gating.
pub open spec fn spec_zero_root() -> Seq<u8> {
    Seq::new(32, |i: int| 0u8)
}

/// Creates a sale: validates the configuration against the current
/// time, builds the record, and moves the full offered-asset supply -
/// the public and the private allotment together - from the authority's
/// holding into the sale's distribution pool.
pub fn initialize_pool(
    ido_name: &[u8],
    ido_authority: [u8; 32],
    usdc_mint: [u8; 32],
    redeemable_mint: [u8; 32],
    watermelon_mint: [u8; 32],
    private_target_investment: u64,
    num_ido_tokens_public: u64,
    num_ido_tokens_private: u64,
    ido_times: IdoTimes,
    merkle_root: Option<[u8; 32]>,
    authority_watermelon: &mut u64,
    now: i64,
) -> (r: Result<SaleState, ErrorCode>)
    requires
        ido_name@.len() <= 10,
    ensures
        r is Ok <==> now < ido_times.start_ido && ido_times.wf() && (num_ido_tokens_private > 0
            ==> private_target_investment > 0) && num_ido_tokens_public + num_ido_tokens_private
            <= u64::MAX && *old(authority_watermelon) >= num_ido_tokens_public
            + num_ido_tokens_private,
        r == Err::<SaleState, ErrorCode>(ErrorCode::IdoFuture) <==> now >= ido_times.start_ido,
        r == Err::<SaleState, ErrorCode>(ErrorCode::SeqTimes) <==> now < ido_times.start_ido
            && !ido_times.wf(),
        r == Err::<SaleState, ErrorCode>(ErrorCode::InvalidConfiguration) <==> now
            < ido_times.start_ido && ido_times.wf() && num_ido_tokens_private > 0
            && private_target_investment == 0,
        r == Err::<SaleState, ErrorCode>(ErrorCode::MathOverflow) <==> now < ido_times.start_ido
            && ido_times.wf() && (num_ido_tokens_private > 0 ==> private_target_investment > 0)
            && num_ido_tokens_public + num_ido_tokens_private > u64::MAX,
        r == Err::<SaleState, ErrorCode>(ErrorCode::LowWatermelon) <==> now < ido_times.start_ido
            && ido_times.wf() && (num_ido_tokens_private > 0 ==> private_target_investment > 0)
            && num_ido_tokens_public + num_ido_tokens_private <= u64::MAX && *old(
            authority_watermelon,
        ) < num_ido_tokens_public + num_ido_tokens_private,
        r is Ok ==> {
            let s = r->Ok_0;
            &&& s.wf()
            &&& s.ido.ido_name@ == spec_padded_name(ido_name@)
            &&& s.ido.merkle_root@ == (match merkle_root {
                Some(root) => root@,
                None => spec_zero_root(),
            })
            &&& s.ido.ido_authority == ido_authority
            &&& s.ido.usdc_mint == usdc_mint
            &&& s.ido.redeemable_mint == redeemable_mint
            &&& s.ido.watermelon_mint == watermelon_mint
            &&& s.ido.private_target_investment == private_target_investment
            &&& s.ido.num_ido_tokens_private == num_ido_tokens_private
            &&& s.ido.num_ido_tokens_public == num_ido_tokens_public
            &&& s.ido.ido_times == ido_times
            &&& s.ido.settlement_snapshot == SettlementSnapshot::Unsettled
            &&& s.redeemable_supply == 0
            &&& s.pool_usdc == 0
            &&& s.pool_watermelon == num_ido_tokens_public + num_ido_tokens_private
            &&& *final(authority_watermelon) == *old(authority_watermelon)
                - num_ido_tokens_public - num_ido_tokens_private
        },
        r is Err ==> *final(authority_watermelon) == *old(authority_watermelon),
{
    if let Err(e) = access::validate_ido_times(&ido_times, now) {
        return Err(e);
    }
    if num_ido_tokens_private > 0 && private_target_investment == 0 {
        return Err(ErrorCode::InvalidConfiguration);
    }
    if num_ido_tokens_public > u64::MAX - num_ido_tokens_private {
        return Err(ErrorCode::MathOverflow);
    }
    let total_ido_tokens = num_ido_tokens_public + num_ido_tokens_private;
    if *authority_watermelon < total_ido_tokens {
        return Err(ErrorCode::LowWatermelon);
    }
    let root = match merkle_root {
        Some(root) => root,
        None => [0u8; 32],
    };
    proof {
        if merkle_root is None {
            assert(root@ =~= spec_zero_root());
        }
    }
    let mut pool_watermelon: u64 = 0;
    transfer(authority_watermelon, &mut pool_watermelon, total_ido_tokens);
    let ido = IdoAccount {
        ido_name: pad_ido_name(ido_name),
        merkle_root: root,
        ido_authority,
        usdc_mint,
        redeemable_mint,
        watermelon_mint,
        private_target_investment,
        num_ido_tokens_private,
        num_ido_tokens_public,
        ido_times,
        settlement_snapshot: SettlementSnapshot::Unsettled,
    };
    Ok(
        SaleState {
            ido,
            redeemable_supply: 0,
            pool_usdc: 0,
            pool_watermelon,
        },
    )
}

/// Opens a participant's claim holding, empty, during either deposit
/// window.
pub fn init_user_redeemable(sale: &SaleState, user: &mut UserPosition, now: i64) -> (r: Result<
    (),
    ErrorCode,
>)
    requires
        sale.wf(),
        old(user).wf(),
        !old(user).redeemable_open,
    ensures
        r is Ok <==> sale.ido.ido_times.start_ido <= now < sale.ido.ido_times.end_deposits,
        r == Err::<(), ErrorCode>(ErrorCode::StartIdoTime) <==> now
            < sale.ido.ido_times.start_ido,
        r == Err::<(), ErrorCode>(ErrorCode::EndDeposits) <==> now
            >= sale.ido.ido_times.end_deposits,
        r is Ok ==> *final(user) == (UserPosition {
            redeemable: 0,
            redeemable_open: true,
            ..*old(user)
        }),
        r is Err ==> *final(user) == *old(user),
        final(user).wf(),
{
    if let Err(e) = access::unrestricted_phase(&sale.ido, now) {
        return Err(e);
    }
    user.redeemable = 0;
    user.redeemable_open = true;
    Ok(())
}

/// An unrestricted deposit: during the open-deposit window, moves
/// `amount_in` reference asset from the participant into the sale's
/// deposit pool and mints the same number of claim tokens to the
/// participant - a 1:1 receipt, with no other balance touched.
pub fn exchange_usdc_for_redeemable(
    sale: &mut SaleState,
    user: &mut UserPosition,
    amount_in: u64,
    now: i64,
) -> (r: Result<(), ErrorCode>)
    requires
        old(sale).wf(),
        old(user).wf(),
        old(user).consistent_with(*old(sale)),
        old(user).redeemable_open,
    ensures
        final(sale).wf(),
        final(user).wf(),
        final(user).consistent_with(*final(sale)),
        r is Ok <==> access::spec_phase_of(
            old(sale).ido.ido_times,
            old(sale).ido.spec_whitelisted(),
            now,
        ) == access::Phase::OpenDeposit && old(user).usdc >= amount_in && old(sale).pool_usdc
            + amount_in <= u64::MAX && old(
            sale,
        ).redeemable_supply + amount_in <= u64::MAX && old(user).redeemable + amount_in
            <= u64::MAX,
        r == Err::<(), ErrorCode>(ErrorCode::StartIdoTime) <==> now
            < old(sale).ido.ido_times.start_ido,
        r == Err::<(), ErrorCode>(ErrorCode::WhitelistNotOver) <==> now
            >= old(sale).ido.ido_times.start_ido && old(sale).ido.spec_whitelisted() && now
            < old(sale).ido.ido_times.end_whitelisted,
        r == Err::<(), ErrorCode>(ErrorCode::EndDeposits) <==> now
            >= old(sale).ido.ido_times.end_deposits,
        r == Err::<(), ErrorCode>(ErrorCode::LowUsdc) <==> access::spec_phase_of(
            old(sale).ido.ido_times,
            old(sale).ido.spec_whitelisted(),
            now,
        ) == access::Phase::OpenDeposit && old(user).usdc < amount_in,
        r == Err::<(), ErrorCode>(ErrorCode::MathOverflow) <==> access::spec_phase_of(
            old(sale).ido.ido_times,
            old(sale).ido.spec_whitelisted(),
            now,
        ) == access::Phase::OpenDeposit && old(user).usdc >= amount_in && !(old(sale).pool_usdc
            + amount_in <= u64::MAX && old(sale).redeemable_supply + amount_in <= u64::MAX && old(
            user,
        ).redeemable + amount_in <= u64::MAX),
        r is Ok ==> {
            &&& final(user).usdc == old(user).usdc - amount_in
            &&& final(sale).pool_usdc == old(sale).pool_usdc + amount_in
            &&& final(sale).redeemable_supply == old(sale).redeemable_supply + amount_in
            &&& final(user).redeemable == old(user).redeemable + amount_in
            &&& final(sale).ido == old(sale).ido
            &&& final(sale).pool_watermelon == old(sale).pool_watermelon
            &&& final(user).watermelon == old(user).watermelon
            &&& final(user).escrow == old(user).escrow
            &&& final(user).escrow_open == old(user).escrow_open
            &&& final(user).redeemable_open == old(user).redeemable_open
        },
        r is Err ==> *final(sale) == *old(sale) && *final(user) == *old(user),
{
    if let Err(e) = access::deposit_phase(&sale.ido, now) {
        return Err(e);
    }
    if user.usdc < amount_in {
        return Err(ErrorCode::LowUsdc);
    }
    if sale.pool_usdc > u64::MAX - amount_in || sale.redeemable_supply > u64::MAX - amount_in
        || user.redeemable > u64::MAX - amount_in {
        return Err(ErrorCode::MathOverflow);
    }
    transfer(&mut user.usdc, &mut sale.pool_usdc, amount_in);
    mint(&mut sale.redeemable_supply, &mut user.redeemable, amount_in);
    Ok(())
}

/// A whitelisted purchase: during the whitelisted window, a participant
/// whose identity hash is proven to be a leaf of the whitelist tree
/// pays `floor(amount_out * private_target / private_supply)` reference
/// asset and receives `amount_out` offered asset at once, bypassing the
/// claim token.
pub fn exchange_usdc_for_watermelon(
    sale: &mut SaleState,
    user: &mut UserPosition,
    user_key: &[u8],
    proof: Vec<[u8; 32]>,
    amount_out: u64,
    now: i64,
) -> (r: Result<(), ErrorCode>)
    requires
        old(sale).wf(),
        old(user).wf(),
    ensures
        final(sale).wf(),
        final(user).wf(),
        ({
            let phase_ok = access::spec_phase_of(
                old(sale).ido.ido_times,
                old(sale).ido.spec_whitelisted(),
                now,
            ) == access::Phase::WhitelistedDeposit;
            let proof_ok = crate::merkle_proof::spec_process_proof(
                proof.deep_view(),
                crate::merkle_proof::leaf_digest(user_key@),
            ) == old(sale).ido.merkle_root@;
            let supply = old(sale).ido.num_ido_tokens_private;
            let price = spec_whitelisted_price(
                amount_out,
                old(sale).ido.private_target_investment,
                supply,
            );
            let price_fits = price <= u64::MAX;
            let pool_fits = old(sale).pool_usdc + price <= u64::MAX;
            let user_fits = old(user).watermelon + amount_out <= u64::MAX;
            let pool_covers = old(sale).pool_watermelon >= amount_out;
            let paid_ok = supply > 0 && amount_out > 0 && price_fits && price > 0;
            let funded = paid_ok && old(user).usdc >= price;
            &&& (r == Err::<(), ErrorCode>(ErrorCode::StartIdoTime) <==> now < old(
                sale,
            ).ido.ido_times.start_ido)
            &&& (r == Err::<(), ErrorCode>(ErrorCode::EndWhitelistedTime) <==> now >= old(
                sale,
            ).ido.ido_times.start_ido && !(old(sale).ido.spec_whitelisted() && now < old(
                sale,
            ).ido.ido_times.end_whitelisted))
            &&& (r == Err::<(), ErrorCode>(ErrorCode::InvalidProof) <==> phase_ok && !proof_ok)
            &&& (r == Err::<(), ErrorCode>(ErrorCode::InvalidAmountOut) <==> phase_ok && proof_ok
                && supply > 0 && amount_out == 0)
            &&& (r == Err::<(), ErrorCode>(ErrorCode::InvalidAmountPaid) <==> phase_ok && proof_ok
                && supply > 0 && amount_out > 0 && price_fits && price == 0)
            &&& (r == Err::<(), ErrorCode>(ErrorCode::LowUsdc) <==> phase_ok && proof_ok
                && paid_ok && old(user).usdc < price)
            &&& (r == Err::<(), ErrorCode>(ErrorCode::LowWatermelon) <==> phase_ok && proof_ok
                && funded && pool_fits && !pool_covers)
            &&& (r == Err::<(), ErrorCode>(ErrorCode::MathOverflow) <==> phase_ok && proof_ok && (
            supply == 0 || (supply > 0 && amount_out > 0 && !price_fits) || (funded && !pool_fits)
                || (funded && pool_fits && pool_covers && !user_fits)))
            &&& (r is Ok <==> phase_ok && proof_ok && funded && pool_fits && pool_covers
                && user_fits)
            &&& (r is Ok ==> {
                &&& final(user).usdc == old(user).usdc - price
                &&& final(sale).pool_usdc == old(sale).pool_usdc + price
                &&& final(sale).pool_watermelon == old(sale).pool_watermelon - amount_out
                &&& final(user).watermelon == old(user).watermelon + amount_out
                &&& final(sale).ido == old(sale).ido
                &&& final(sale).redeemable_supply == old(sale).redeemable_supply
                &&& final(user).redeemable == old(user).redeemable
                &&& final(user).redeemable_open == old(user).redeemable_open
                &&& final(user).escrow == old(user).escrow
                &&& final(user).escrow_open == old(user).escrow_open
            })
            &&& (r is Err ==> *final(sale) == *old(sale) && *final(user) == *old(user))
        }),
{
    if let Err(e) = access::whitelisted_phase(&sale.ido, now) {
        return Err(e);
    }
    if let Err(e) = access::only_for_whitelisted(proof, sale.ido.merkle_root, user_key) {
        return Err(e);
    }
    if sale.ido.num_ido_tokens_private == 0 {
        return Err(ErrorCode::MathOverflow);
    }
    if amount_out == 0 {
        return Err(ErrorCode::InvalidAmountOut);
    }
    let amount_paid = match mul_div_floor(
        amount_out,
        sale.ido.private_target_investment,
        sale.ido.num_ido_tokens_private,
    ) {
        Some(paid) => paid,
        None => {
            return Err(ErrorCode::MathOverflow);
        },
    };
    if amount_paid == 0 {
        return Err(ErrorCode::InvalidAmountPaid);
    }
    if user.usdc < amount_paid {
        return Err(ErrorCode::LowUsdc);
    }
    if sale.pool_usdc > u64::MAX - amount_paid {
        return Err(ErrorCode::MathOverflow);
    }
    if sale.pool_watermelon < amount_out {
        return Err(ErrorCode::LowWatermelon);
    }
    if user.watermelon > u64::MAX - amount_out {
        return Err(ErrorCode::MathOverflow);
    }
    transfer(&mut user.usdc, &mut sale.pool_usdc, amount_paid);
    transfer(&mut sale.pool_watermelon, &mut user.watermelon, amount_out);
    Ok(())
}

/// Settles claim tokens into the offered asset: during the settlement
/// window, freezes the claim supply as the pro-rata denominator on the
/// first call, burns `amount_in` claim tokens from the participant and
/// pays out `floor(amount_in * pool / denominator)` offered asset. A
/// holding emptied by the burn is closed and its deposit refunded.
pub fn exchange_redeemable_for_watermelon(
    sale: &mut SaleState,
    user: &mut UserPosition,
    amount_in: u64,
    now: i64,
) -> (r: Result<(), ErrorCode>)
    requires
        old(sale).wf(),
        old(user).wf(),
        old(user).consistent_with(*old(sale)),
    ensures
        final(sale).wf(),
        final(user).wf(),
        final(user).consistent_with(*final(sale)),
        ({
            let phase_ok = old(sale).ido.ido_times.end_deposits <= now < old(
                sale,
            ).ido.ido_times.end_ido;
            let snap = spec_snapshot_denominator(*old(sale));
            let payout = spec_settlement_payout(amount_in, old(sale).pool_watermelon, snap);
            let covered = old(user).redeemable >= amount_in;
            let payable = covered && snap > 0 && payout <= u64::MAX;
            let pool_covers = old(sale).pool_watermelon >= payout;
            let user_fits = old(user).watermelon + payout <= u64::MAX;
            &&& (r == Err::<(), ErrorCode>(ErrorCode::IdoNotOver) <==> now < old(
                sale,
            ).ido.ido_times.end_deposits)
            &&& (r == Err::<(), ErrorCode>(ErrorCode::EndIdoTime) <==> now >= old(
                sale,
            ).ido.ido_times.end_ido)
            &&& (r == Err::<(), ErrorCode>(ErrorCode::LowRedeemable) <==> phase_ok && !covered)
            &&& (r == Err::<(), ErrorCode>(ErrorCode::MathOverflow) <==> phase_ok && covered && (
            snap == 0 || payout > u64::MAX || (payable && pool_covers && !user_fits)))
            &&& (r == Err::<(), ErrorCode>(ErrorCode::LowWatermelon) <==> phase_ok && payable
                && !pool_covers)
            &&& (r is Ok <==> phase_ok && payable && pool_covers && user_fits)
            &&& (r is Ok ==> {
                &&& final(sale).ido.settlement_snapshot == (SettlementSnapshot::Settled {
                    redeemable_minted: snap,
                })
                &&& final(sale).redeemable_supply == old(sale).redeemable_supply - amount_in
                &&& final(user).redeemable == old(user).redeemable - amount_in
                &&& final(sale).pool_watermelon == old(sale).pool_watermelon - payout
                &&& final(user).watermelon == old(user).watermelon + payout
                &&& final(user).redeemable_open <==> old(user).redeemable - amount_in > 0
                &&& final(sale).ido == (IdoAccount {
                    settlement_snapshot: final(sale).ido.settlement_snapshot,
                    ..old(sale).ido
                })
                &&& final(sale).pool_usdc == old(sale).pool_usdc
                &&& final(user).usdc == old(user).usdc
                &&& final(user).escrow == old(user).escrow
                &&& final(user).escrow_open == old(user).escrow_open
            })
            &&& (r is Err ==> *final(sale) == *old(sale) && *final(user) == *old(user))
        }),
{
    if let Err(e) = access::withdraw_phase(&sale.ido, now) {
        return Err(e);
    }
    let snapshot_supply = match sale.ido.settlement_snapshot {
        SettlementSnapshot::Settled { redeemable_minted } => redeemable_minted,
        SettlementSnapshot::Unsettled => sale.redeemable_supply,
    };
    if user.redeemable < amount_in {
        return Err(ErrorCode::LowRedeemable);
    }
    if snapshot_supply == 0 {
        return Err(ErrorCode::MathOverflow);
    }
    let amount_out = match mul_div_floor(amount_in, sale.pool_watermelon, snapshot_supply) {
        Some(out) => out,
        None => {
            return Err(ErrorCode::MathOverflow);
        },
    };
    if sale.pool_watermelon < amount_out {
        return Err(ErrorCode::LowWatermelon);
    }
    if user.watermelon > u64::MAX - amount_out {
        return Err(ErrorCode::MathOverflow);
    }
    sale.ido.settlement_snapshot = SettlementSnapshot::Settled {
        redeemable_minted: snapshot_supply,
    };
    burn(&mut sale.redeemable_supply, &mut user.redeemable, amount_in);
    transfer(&mut sale.pool_watermelon, &mut user.watermelon, amount_out);
    if user.redeemable == 0 {
        close_if_empty(user.redeemable, &mut user.redeemable_open);
    }
    Ok(())
}

/// Settles claim tokens into escrow instead: burns `amount_in` claim
/// tokens and parks the same amount of reference asset - 1:1, with no
/// pro-rata division - from the deposit pool in the participant's
/// escrow holding, for withdrawal during the escrow window. The first
/// settlement call of either kind freezes the snapshot.
pub fn settle_to_escrow(
    sale: &mut SaleState,
    user: &mut UserPosition,
    amount_in: u64,
    now: i64,
) -> (r: Result<(), ErrorCode>)
    requires
        old(sale).wf(),
        old(user).wf(),
        old(user).consistent_with(*old(sale)),
    ensures
        final(sale).wf(),
        final(user).wf(),
        final(user).consistent_with(*final(sale)),
        ({
            let phase_ok = old(sale).ido.ido_times.end_deposits <= now < old(
                sale,
            ).ido.ido_times.end_ido;
            let snap = spec_snapshot_denominator(*old(sale));
            let covered = old(user).redeemable >= amount_in;
            let pool_covers = old(sale).pool_usdc >= amount_in;
            let escrow_fits = old(user).escrow + amount_in <= u64::MAX;
            &&& (r == Err::<(), ErrorCode>(ErrorCode::IdoNotOver) <==> now < old(
                sale,
            ).ido.ido_times.end_deposits)
            &&& (r == Err::<(), ErrorCode>(ErrorCode::EndIdoTime) <==> now >= old(
                sale,
            ).ido.ido_times.end_ido)
            &&& (r == Err::<(), ErrorCode>(ErrorCode::LowRedeemable) <==> phase_ok && !covered)
            &&& (r == Err::<(), ErrorCode>(ErrorCode::LowUsdc) <==> phase_ok && covered
                && !pool_covers)
            &&& (r == Err::<(), ErrorCode>(ErrorCode::MathOverflow) <==> phase_ok && covered
                && pool_covers && !escrow_fits)
            &&& (r is Ok <==> phase_ok && covered && pool_covers && escrow_fits)
            &&& (r is Ok ==> {
                &&& final(sale).ido.settlement_snapshot == (SettlementSnapshot::Settled {
                    redeemable_minted: snap,
                })
                &&& final(sale).redeemable_supply == old(sale).redeemable_supply - amount_in
                &&& final(user).redeemable == old(user).redeemable - amount_in
                &&& final(sale).pool_usdc == old(sale).pool_usdc - amount_in
                &&& final(user).escrow == old(user).escrow + amount_in
                &&& (final(user).escrow_open <==> old(user).escrow_open || amount_in > 0)
                &&& (final(user).redeemable_open <==> old(user).redeemable - amount_in > 0)
                &&& final(sale).ido == (IdoAccount {
                    settlement_snapshot: final(sale).ido.settlement_snapshot,
                    ..old(sale).ido
                })
                &&& final(sale).pool_watermelon == old(sale).pool_watermelon
                &&& final(user).usdc == old(user).usdc
                &&& final(user).watermelon == old(user).watermelon
            })
            &&& (r is Err ==> *final(sale) == *old(sale) && *final(user) == *old(user))
        }),
{
    if let Err(e) = access::withdraw_phase(&sale.ido, now) {
        return Err(e);
    }
    let snapshot_supply = match sale.ido.settlement_snapshot {
        SettlementSnapshot::Settled { redeemable_minted } => redeemable_minted,
        SettlementSnapshot::Unsettled => sale.redeemable_supply,
    };
    if user.redeemable < amount_in {
        return Err(ErrorCode::LowRedeemable);
    }
    if sale.pool_usdc < amount_in {
        return Err(ErrorCode::LowUsdc);
    }
    if user.escrow > u64::MAX - amount_in {
        return Err(ErrorCode::MathOverflow);
    }
    sale.ido.settlement_snapshot = SettlementSnapshot::Settled {
        redeemable_minted: snapshot_supply,
    };
    burn(&mut sale.redeemable_supply, &mut user.redeemable, amount_in);
    transfer(&mut sale.pool_usdc, &mut user.escrow, amount_in);
    if amount_in > 0 {
        user.escrow_open = true;
    }
    if user.redeemable == 0 {
        close_if_empty(user.redeemable, &mut user.redeemable_open);
    }
    Ok(())
}

/// Withdraws escrowed reference asset during the escrow window: a plain
/// balance-checked transfer from the participant's escrow holding back
/// to their spendable balance, closing the holding when it empties.
pub fn withdraw_escrow(sale: &SaleState, user: &mut UserPosition, amount: u64, now: i64) -> (r:
    Result<(), ErrorCode>)
    requires
        sale.wf(),
        old(user).wf(),
    ensures
        final(user).wf(),
        ({
            let phase_ok = sale.ido.ido_times.end_ido <= now
                && sale.ido.ido_times.end_escrow is Some && now
                < sale.ido.ido_times.end_escrow->0;
            let covered = old(user).escrow >= amount;
            let fits = old(user).usdc + amount <= u64::MAX;
            &&& (r == Err::<(), ErrorCode>(ErrorCode::IdoNotOver) <==> now
                < sale.ido.ido_times.end_ido)
            &&& (r == Err::<(), ErrorCode>(ErrorCode::EndIdoTime) <==> now
                >= sale.ido.ido_times.end_ido && !(sale.ido.ido_times.end_escrow is Some && now
                < sale.ido.ido_times.end_escrow->0))
            &&& (r == Err::<(), ErrorCode>(ErrorCode::LowUsdc) <==> phase_ok && !covered)
            &&& (r == Err::<(), ErrorCode>(ErrorCode::MathOverflow) <==> phase_ok && covered
                && !fits)
            &&& (r is Ok <==> phase_ok && covered && fits)
            &&& (r is Ok ==> {
                &&& final(user).escrow == old(user).escrow - amount
                &&& final(user).usdc == old(user).usdc + amount
                &&& (final(user).escrow_open <==> old(user).escrow - amount > 0)
                &&& final(user).redeemable == old(user).redeemable
                &&& final(user).redeemable_open == old(user).redeemable_open
                &&& final(user).watermelon == old(user).watermelon
            })
            &&& (r is Err ==> *final(user) == *old(user))
        }),
{
    if let Err(e) = access::escrow_phase(&sale.ido, now) {
        return Err(e);
    }
    if user.escrow < amount {
        return Err(ErrorCode::LowUsdc);
    }
    if user.usdc > u64::MAX - amount {
        return Err(ErrorCode::MathOverflow);
    }
    transfer(&mut user.escrow, &mut user.usdc, amount);
    if user.escrow == 0 {
        close_if_empty(user.escrow, &mut user.escrow_open);
    }
    Ok(())
}

/// The authority's sweep of the proceeds: once every window is over,
/// moves the deposit pool's entire reference-asset balance to the
/// authority in one transfer and returns the amount moved.
pub fn withdraw_proceeds(
    sale: &mut SaleState,
    caller_key: &[u8; 32],
    authority_usdc: &mut u64,
    now: i64,
) -> (r: Result<u64, ErrorCode>)
    requires
        old(sale).wf(),
    ensures
        final(sale).wf(),
        ({
            let phase_ok = now >= old(sale).ido.ido_times.spec_final_boundary();
            let authorized = caller_key@ == old(sale).ido.ido_authority@;
            let fits = *old(authority_usdc) + old(sale).pool_usdc <= u64::MAX;
            &&& (r == Err::<u64, ErrorCode>(ErrorCode::IdoNotOver) <==> !phase_ok)
            &&& (r == Err::<u64, ErrorCode>(ErrorCode::Unauthorized) <==> phase_ok && !authorized)
            &&& (r == Err::<u64, ErrorCode>(ErrorCode::MathOverflow) <==> phase_ok && authorized
                && !fits)
            &&& (r is Ok <==> phase_ok && authorized && fits)
            &&& (r is Ok ==> {
                &&& r->Ok_0 == old(sale).pool_usdc
                &&& final(sale).pool_usdc == 0
                &&& *final(authority_usdc) == *old(authority_usdc) + old(sale).pool_usdc
                &&& final(sale).ido == old(sale).ido
                &&& final(sale).redeemable_supply == old(sale).redeemable_supply
                &&& final(sale).pool_watermelon == old(sale).pool_watermelon
            })
            &&& (r is Err ==> *final(sale) == *old(sale) && *final(authority_usdc) == *old(
                authority_usdc,
            ))
        }),
{
    if let Err(e) = access::closed_phase(&sale.ido, now) {
        return Err(e);
    }
    if !hash_eq(caller_key, &sale.ido.ido_authority) {
        return Err(ErrorCode::Unauthorized);
    }
    if *authority_usdc > u64::MAX - sale.pool_usdc {
        return Err(ErrorCode::MathOverflow);
    }
    let amount = sale.pool_usdc;
    transfer(&mut sale.pool_usdc, authority_usdc, amount);
    Ok(amount)
}

/// Replaces the whitelist commitment. Only the sale's authority may do
/// so; an all-zero root turns whitelist gating off.
pub fn set_whitelist_root(sale: &mut SaleState, caller_key: &[u8; 32], root: [u8; 32]) -> (r:
    Result<(), ErrorCode>)
    requires
        old(sale).wf(),
    ensures
        final(sale).wf(),
        r is Ok <==> caller_key@ == old(sale).ido.ido_authority@,
        r is Err ==> r->Err_0 == ErrorCode::Unauthorized && *final(sale) == *old(sale),
        r is Ok ==> {
            &&& final(sale).ido == (IdoAccount { merkle_root: root, ..old(sale).ido })
            &&& final(sale).redeemable_supply == old(sale).redeemable_supply
            &&& final(sale).pool_usdc == old(sale).pool_usdc
            &&& final(sale).pool_watermelon == old(sale).pool_watermelon
        },
{
    if !hash_eq(caller_key, &sale.ido.ido_authority) {
        return Err(ErrorCode::Unauthorized);
    }
    sale.ido.merkle_root = root;
    Ok(())
}

} // verus!

//! The sale ledger: one sale's balances, a participant's balances, the
//! value-movement primitives every operation is built from, and the
//! proportional-accounting arithmetic.

use vstd::arithmetic::div_mod::lemma_div_is_ordered;
use vstd::arithmetic::div_mod::lemma_div_multiples_vanish;
use vstd::arithmetic::mul::lemma_mul_inequality;
use vstd::arithmetic::mul::lemma_mul_upper_bound;
use vstd::prelude::*;

use crate::account::IdoAccount;
use crate::account::SettlementSnapshot;

verus! {

/// One sale's record together with the balances its pools and claim
/// mint hold. Mutated only by the operations of [`crate::processor`].
#[derive(Clone, Debug)]
pub struct SaleState {
    /// The persistent sale record.
    pub ido: IdoAccount,
    /// Total claim-token supply outstanding.
    pub redeemable_supply: u64,
    /// Reference asset accumulated in the sale's deposit pool.
    pub pool_usdc: u64,
    /// Offered asset remaining in the sale's distribution pool.
    pub pool_watermelon: u64,
}

impl SaleState {
    /// A sale state is valid when its record is.
    pub open spec fn wf(self) -> bool {
        self.ido.wf()
    }
}

/// One participant's balances in every asset a sale touches.
///
/// The claim and escrow holdings carry an `open` flag modelling whether
/// their backing account still exists: settlement closes an emptied
/// holding and refunds its storage deposit, after which the holding can
/// no longer receive or give value.
#[derive(Clone, Copy, Debug, PartialEq, Eq, Structural)]
pub struct UserPosition {
    /// Spendable reference-asset balance.
    pub usdc: u64,
    /// Claim tokens held.
    pub redeemable: u64,
    /// Whether the claim holding account exists.
    pub redeemable_open: bool,
    /// Offered asset held.
    pub watermelon: u64,
    /// Reference asset parked in the participant's escrow holding.
    pub escrow: u64,
    /// Whether the escrow holding account exists.
    pub escrow_open: bool,
}

impl UserPosition {
    /// A closed holding holds nothing.
    pub open spec fn wf(self) -> bool {
        &&& !self.redeemable_open ==> self.redeemable == 0
        &&& !self.escrow_open ==> self.escrow == 0
    }

    /// A participant cannot hold more claim tokens than exist.
    pub open spec fn consistent_with(self, sale: SaleState) -> bool {
        self.redeemable <= sale.redeemable_supply
    }
}

/// Moves `amount` from one balance to another.
pub fn transfer(from: &mut u64, to: &mut u64, amount: u64)
    requires
        *old(from) >= amount,
        *old(to) + amount <= u64::MAX,
    ensures
        *final(from) == *old(from) - amount,
        *final(to) == *old(to) + amount,
{
    *from = *from - amount;
    *to = *to + amount;
}

/// Creates `amount` new claim tokens in a holding, growing the supply.
pub fn mint(supply: &mut u64, to: &mut u64, amount: u64)
    requires
        *old(supply) + amount <= u64::MAX,
        *old(to) + amount <= u64::MAX,
    ensures
        *final(supply) == *old(supply) + amount,
        *final(to) == *old(to) + amount,
{
    *supply = *supply + amount;
    *to = *to + amount;
}

/// Destroys `amount` claim tokens from a holding, shrinking the supply.
pub fn burn(supply: &mut u64, from: &mut u64, amount: u64)
    requires
        *old(from) >= amount,
        *old(supply) >= amount,
    ensures
        *final(supply) == *old(supply) - amount,
        *final(from) == *old(from) - amount,
{
    *supply = *supply - amount;
    *from = *from - amount;
}

/// Closes an emptied holding, refunding its storage deposit: after it,
/// the holding no longer exists.
pub fn close_if_empty(balance: u64, open: &mut bool)
    requires
        balance == 0,
    ensures
        *final(open) == false,
{
    *open = false;
}

/// The pro-rata denominator a settlement call divides by: the frozen
/// snapshot where one was taken, the current claim supply otherwise.
pub open spec fn spec_snapshot_denominator(sale: SaleState) -> u64 {
    match sale.ido.settlement_snapshot {
        SettlementSnapshot::Settled { redeemable_minted } => redeemable_minted,
        SettlementSnapshot::Unsettled => sale.redeemable_supply,
    }
}

/// What a whitelisted purchase of `amount_out` offered tokens costs:
/// the request priced at `private_target / private_supply`, rounded
/// down.
pub open spec fn spec_whitelisted_price(
    amount_out: u64,
    private_target: u64,
    private_supply: u64,
) -> int
    recommends
        private_supply > 0,
{
    (amount_out * private_target) / (private_supply as int)
}

/// What burning `amount_in` claim tokens pays out of a pool holding
/// `pool_balance`, against the frozen denominator, rounded down.
pub open spec fn spec_settlement_payout(
    amount_in: u64,
    pool_balance: u64,
    snapshot_supply: u64,
) -> int
    recommends
        snapshot_supply > 0,
{
    (amount_in * pool_balance) / (snapshot_supply as int)
}

/// Computes `floor(a * b / d)` in double-width arithmetic, so that the
/// product cannot overflow; `None` when the quotient does not fit the
/// balance width.
pub fn mul_div_floor(a: u64, b: u64, d: u64) -> (r: Option<u64>)
    requires
        d > 0,
    ensures
        match r {
            Some(q) => q == (a * b) / (d as int),
            None => (a * b) / (d as int) > u64::MAX,
        },
{
    proof {
        lemma_mul_upper_bound(a as int, u64::MAX as int, b as int, u64::MAX as int);
    }
    let wide: u128 = (a as u128) * (b as u128);
    let q: u128 = wide / (d as u128);
    if q > u64::MAX as u128 {
        None
    } else {
        Some(q as u64)
    }
}

/// A pro-rata payout never exceeds the pool it is drawn from, as long
/// as the claim burned does not exceed the snapshot the rate was fixed
/// against.
pub proof fn lemma_payout_bounded(amount_in: u64, pool_balance: u64, snapshot_supply: u64)
    requires
        snapshot_supply > 0,
        amount_in <= snapshot_supply,
    ensures
        0 <= spec_settlement_payout(amount_in, pool_balance, snapshot_supply) <= pool_balance,
{
    lemma_mul_inequality(amount_in as int, snapshot_supply as int, pool_balance as int);
    lemma_div_is_ordered(
        amount_in as int * pool_balance as int,
        snapshot_supply as int * pool_balance as int,
        snapshot_supply as int,
    );
    lemma_div_multiples_vanish(pool_balance as int, snapshot_supply as int);
}

/// Once the first settlement has frozen the snapshot, the pro-rata
/// denominator no longer depends on the claim supply: every later state
/// carrying the same sale record - whatever deposits or burns moved its
/// supply meanwhile - divides by the same figure.
pub proof fn lemma_snapshot_stability(a: SaleState, b: SaleState)
    requires
        a.ido.settlement_snapshot is Settled,
        b.ido == a.ido,
    ensures
        spec_snapshot_denominator(a) == spec_snapshot_denominator(b),
{
}

} // verus!

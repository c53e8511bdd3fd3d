//! The sale record: its identifiers, quantities, time boundaries and the
//! settlement snapshot.

use vstd::prelude::*;

verus! {

/// The ordered time boundaries of one sale, as seconds since the epoch.
///
/// They cut the timeline into the phases of [`crate::access::Phase`]:
/// whitelisted deposits run from `start_ido` to `end_whitelisted`, open
/// deposits to `end_deposits`, settlement to `end_ido`, and, where
/// `end_escrow` is set, escrow withdrawal from `end_ido` to `end_escrow`.
#[derive(Clone, Copy, Debug, PartialEq, Eq, Structural)]
pub struct IdoTimes {
    /// When the sale opens; no operation is permitted before it.
    pub start_ido: i64,
    /// When the whitelisted deposit window closes.
    pub end_whitelisted: i64,
    /// When the open deposit window closes.
    pub end_deposits: i64,
    /// When settlement closes and the sale is over.
    pub end_ido: i64,
    /// Optional close of an escrow-withdrawal extension after the sale.
    pub end_escrow: Option<i64>,
}

impl IdoTimes {
    /// The boundaries are strictly increasing, escrow extension included.
    pub open spec fn wf(self) -> bool {
        &&& self.start_ido < self.end_whitelisted
        &&& self.end_whitelisted < self.end_deposits
        &&& self.end_deposits < self.end_ido
        &&& self.end_escrow is Some ==> self.end_ido < self.end_escrow->0
    }

    /// The moment after which the sale is entirely over.
    pub open spec fn spec_final_boundary(self) -> i64 {
        match self.end_escrow {
            Some(t) => t,
            None => self.end_ido,
        }
    }

    /// Returns the last configured boundary.
    pub fn final_boundary(&self) -> (r: i64)
        ensures
            r == self.spec_final_boundary(),
    {
        match self.end_escrow {
            Some(t) => t,
            None => self.end_ido,
        }
    }
}

/// The claim-token supply figure frozen at the first settlement call.
///
/// It starts `Unsettled`, becomes `Settled` exactly once and never
/// reverts; every pro-rata payout for the rest of the sale's life divides
/// by the frozen `redeemable_minted`.
#[derive(Clone, Copy, Debug, PartialEq, Eq, Structural)]
pub enum SettlementSnapshot {
    /// No settlement has happened yet; the denominator is still open.
    Unsettled,
    /// The denominator is frozen.
    Settled {
        /// Total claim-token supply at the first settlement call.
        redeemable_minted: u64,
    },
}

/// One sale's persistent record, created once and mutated only through
/// the operations of [`crate::processor`].
///
/// Asset identities are 32-byte account addresses held as plain bytes;
/// the engine never interprets them beyond equality.
#[derive(Clone, Debug)]
pub struct IdoAccount {
    /// Short human name of the sale, padded with trailing spaces.
    pub ido_name: [u8; 10],
    /// Merkle commitment to the whitelist set; all-zero means that no
    /// whitelist gating is configured.
    pub merkle_root: [u8; 32],
    /// The identity permitted to withdraw proceeds and set the root.
    pub ido_authority: [u8; 32],
    /// Identity of the stable reference asset taken as payment.
    pub usdc_mint: [u8; 32],
    /// Identity of the interim claim token minted for deposits.
    pub redeemable_mint: [u8; 32],
    /// Identity of the offered asset being sold.
    pub watermelon_mint: [u8; 32],
    /// Reference-asset total the whitelisted phase is sized to raise;
    /// the price denominator for whitelisted purchases.
    pub private_target_investment: u64,
    /// Offered-asset quantity earmarked for the whitelisted phase.
    pub num_ido_tokens_private: u64,
    /// Offered-asset quantity earmarked for the open phase.
    pub num_ido_tokens_public: u64,
    /// The sale's time boundaries.
    pub ido_times: IdoTimes,
    /// The pro-rata denominator, frozen at first settlement.
    pub settlement_snapshot: SettlementSnapshot,
}

impl IdoAccount {
    /// Configuration invariant: ordered boundaries, and a nonzero price
    /// denominator whenever a whitelisted allotment exists.
    pub open spec fn wf(self) -> bool {
        &&& self.ido_times.wf()
        &&& self.num_ido_tokens_private > 0 ==> self.private_target_investment > 0
    }

    /// Whether whitelist gating is configured: any nonzero root byte.
    pub open spec fn spec_whitelisted(self) -> bool {
        exists|i: int| 0 <= i < 32 && self.merkle_root@[i] != 0
    }

    /// Returns whether whitelist gating is configured.
    pub fn whitelisted(&self) -> (r: bool)
        ensures
            r == self.spec_whitelisted(),
    {
        let mut i: usize = 0;
        while i < 32
            invariant
                i <= 32,
                forall|j: int| 0 <= j < i ==> self.merkle_root@[j] == 0,
            decreases 32 - i,
        {
            if self.merkle_root[i] != 0 {
                return true;
            }
            i += 1;
        }
        false
    }
}

/// The sale's name padded with trailing spaces to its stored width.
pub open spec fn spec_padded_name(name: Seq<u8>) -> Seq<u8>
    recommends
        name.len() <= 10,
{
    name + Seq::new((10 - name.len()) as nat, |i: int| 32u8)
}

/// Pads a sale name with trailing spaces to the stored width.
pub fn pad_ido_name(name: &[u8]) -> (r: [u8; 10])
    requires
        name@.len() <= 10,
    ensures
        r@ == spec_padded_name(name@),
{
    let mut data: [u8; 10] = [32u8; 10];
    let mut i: usize = 0;
    while i < name.len()
        invariant
            i <= name@.len() <= 10,
            data@.len() == 10,
            forall|j: int| 0 <= j < i ==> data@[j] == name@[j],
            forall|j: int| i <= j < 10 ==> data@[j] == 32u8,
        decreases name@.len() - i,
    {
        data[i] = name[i];
        i += 1;
    }
    proof {
        assert(data@ =~= spec_padded_name(name@));
    }
    data
}

/// ASCII whitespace: space, tab, line feed, form feed, carriage return.
pub open spec fn spec_is_ascii_whitespace(b: u8) -> bool {
    b == 32 || b == 9 || b == 10 || b == 12 || b == 13
}

/// A byte string with its leading whitespace removed.
pub open spec fn spec_trim_front(s: Seq<u8>) -> Seq<u8>
    decreases s.len(),
{
    if s.len() == 0 {
        s
    } else if spec_is_ascii_whitespace(s.first()) {
        spec_trim_front(s.drop_first())
    } else {
        s
    }
}

/// A byte string with its trailing whitespace removed.
pub open spec fn spec_trim_back(s: Seq<u8>) -> Seq<u8>
    decreases s.len(),
{
    if s.len() == 0 {
        s
    } else if spec_is_ascii_whitespace(s.last()) {
        spec_trim_back(s.drop_last())
    } else {
        s
    }
}

/// A byte string with whitespace removed from both ends.
pub open spec fn spec_trim_ascii_whitespace(s: Seq<u8>) -> Seq<u8> {
    spec_trim_back(spec_trim_front(s))
}

/// Returns whether `b` is ASCII whitespace.
pub fn is_ascii_whitespace(b: u8) -> (r: bool)
    ensures
        r == spec_is_ascii_whitespace(b),
{
    b == 32 || b == 9 || b == 10 || b == 12 || b == 13
}

/// Trims ASCII whitespace from the start and end of a byte slice; a
/// stored sale name comes back without its padding.
pub fn trim_ascii_whitespace(s: &[u8]) -> (r: &[u8])
    ensures
        r@ == spec_trim_ascii_whitespace(s@),
{
    let mut from: usize = 0;
    proof {
        assert(s@.skip(0) =~= s@);
    }
    while from < s.len() && is_ascii_whitespace(s[from])
        invariant
            from <= s@.len(),
            spec_trim_front(s@) == spec_trim_front(s@.skip(from as int)),
        decreases s@.len() - from,
    {
        proof {
            assert(s@.skip(from as int).drop_first() =~= s@.skip(from as int + 1));
        }
        from += 1;
    }
    if from == s.len() {
        proof {
            assert(spec_trim_front(s@).len() == 0);
            assert(spec_trim_back(spec_trim_front(s@)) =~= s@.subrange(
                from as int,
                from as int,
            ));
        }
        return vstd::slice::slice_subrange(s, from, from);
    }
    proof {
        assert(spec_trim_front(s@) =~= s@.skip(from as int));
        assert(s@.skip(from as int).first() == s@[from as int]);
        assert(s@.subrange(from as int, s@.len() as int) =~= s@.skip(from as int));
    }
    let mut to: usize = s.len();
    while is_ascii_whitespace(s[to - 1])
        invariant
            from < to <= s@.len(),
            from < s@.len(),
            !spec_is_ascii_whitespace(s@.skip(from as int).first()),
            spec_trim_front(s@) == s@.skip(from as int),
            spec_trim_back(s@.skip(from as int)) == spec_trim_back(
                s@.subrange(from as int, to as int),
            ),
        decreases to,
    {
        proof {
            assert(s@.subrange(from as int, to as int).drop_last() =~= s@.subrange(
                from as int,
                to as int - 1,
            ));
            if to - 1 == from {
                assert(s@.subrange(from as int, to as int).last() == s@.skip(
                    from as int,
                ).first());
            }
        }
        to -= 1;
    }
    proof {
        assert(s@.subrange(from as int, to as int).last() == s@[to as int - 1]);
        assert(spec_trim_back(s@.subrange(from as int, to as int)) == s@.subrange(
            from as int,
            to as int,
        ));
    }
    vstd::slice::slice_subrange(s, from, to)
}

} // verus!

//! The Merkle whitelist verifier.
//!
//! A proof is folded into the candidate leaf by repeated pairwise
//! Keccak-256 hashing, hashing the lexicographically smaller digest
//! first so that reconstruction is independent of each sibling's side in
//! the original tree. Verification succeeds exactly when the folded
//! value equals the committed root.

use vstd::prelude::*;

verus! {

/// The Keccak-256 digest of a byte string, as `keccak::hash` of the
/// solana_program hashing module computes it.
pub uninterp spec fn leaf_digest(v: Seq<u8>) -> Seq<u8>;

/// The Keccak-256 digest of two 32-byte digests hashed in the given
/// order, as `keccak::hashv` computes it.
pub uninterp spec fn pair_digest(a: Seq<u8>, b: Seq<u8>) -> Seq<u8>;

/// Lexicographic order on equal-length byte strings: equal, or strictly
/// smaller at the first differing position.
pub open spec fn lex_le(a: Seq<u8>, b: Seq<u8>) -> bool
    recommends
        a.len() == b.len(),
{
    a =~= b || exists|i: int|
        #![trigger a[i], b[i]]
        0 <= i < a.len() && i < b.len() && a[i] < b[i] && (forall|j: int|
            0 <= j < i ==> a[j] == b[j])
}

/// One folding step: the two digests hashed with the smaller first.
pub open spec fn spec_combine(x: Seq<u8>, y: Seq<u8>) -> Seq<u8> {
    if lex_le(x, y) {
        pair_digest(x, y)
    } else {
        pair_digest(y, x)
    }
}

/// The whole fold: each proof element combined in turn into the running
/// digest, starting from the leaf.
pub open spec fn spec_process_proof(proof: Seq<Seq<u8>>, leaf: Seq<u8>) -> Seq<u8>
    decreases proof.len(),
{
    if proof.len() == 0 {
        leaf
    } else {
        spec_process_proof(proof.drop_first(), spec_combine(leaf, proof.first()))
    }
}

/// Compares two digests for equality.
pub fn hash_eq(a: &[u8; 32], b: &[u8; 32]) -> (r: bool)
    ensures
        r == (a@ == b@),
{
    let mut i: usize = 0;
    while i < 32
        invariant
            i <= 32,
            forall|j: int| 0 <= j < i ==> a@[j] == b@[j],
        decreases 32 - i,
    {
        if a[i] != b[i] {
            return false;
        }
        i += 1;
    }
    proof {
        assert(a@ =~= b@);
    }
    true
}

/// Decides `lex_le` on two digests.
pub fn hash_le(a: &[u8; 32], b: &[u8; 32]) -> (r: bool)
    ensures
        r == lex_le(a@, b@),
{
    let mut i: usize = 0;
    while i < 32
        invariant
            i <= 32,
            forall|j: int| 0 <= j < i ==> a@[j] == b@[j],
        decreases 32 - i,
    {
        if a[i] < b[i] {
            proof {
                assert(0 <= i < a@.len() && a@[i as int] < b@[i as int]);
            }
            return true;
        }
        if a[i] > b[i] {
            proof {
                assert forall|k: int|
                    !(0 <= k < a@.len() && a@[k] < b@[k] && (forall|j: int|
                        0 <= j < k ==> a@[j] == b@[j])) by {
                    if i < k < a@.len() {
                        assert(!(forall|j: int| 0 <= j < k ==> a@[j] == b@[j])) by {
                            assert(a@[i as int] != b@[i as int]);
                        }
                    }
                }
                assert(!(a@ =~= b@)) by {
                    assert(a@[i as int] != b@[i as int]);
                }
            }
            return false;
        }
        i += 1;
    }
    proof {
        assert(a@ =~= b@);
    }
    true
}

/// The stateless Merkle proof verifier.
pub struct MerkleProof {}

impl MerkleProof {
    /// Relies on `keccak::hash` of anchor-lang's solana_program module:
    /// the returned digest is the Keccak-256 hash of the input bytes,
    /// a function of them alone, named here `leaf_digest`.
    #[verifier::external_body]
    pub fn calc_leaf_hash(val: &[u8]) -> (r: [u8; 32])
        ensures
            r@ == leaf_digest(val@),
    {
        anchor_lang::solana_program::keccak::hash(val).0
    }

    /// Relies on `keccak::hashv` of anchor-lang's solana_program module:
    /// the returned digest is the Keccak-256 hash of the concatenated
    /// inputs, a function of them alone, named here `pair_digest`.
    #[verifier::external_body]
    fn hash_pair(a: &[u8; 32], b: &[u8; 32]) -> (r: [u8; 32])
        ensures
            r@ == pair_digest(a@, b@),
    {
        anchor_lang::solana_program::keccak::hashv(&[&a[..], &b[..]]).0
    }

    /// Returns whether `proof` folds `leaf` back into `root`.
    pub fn verify(proof: Vec<[u8; 32]>, root: [u8; 32], leaf: [u8; 32]) -> (r: bool)
        ensures
            r == (spec_process_proof(proof.deep_view(), leaf@) == root@),
    {
        let computed = Self::process_proof(&proof, leaf);
        hash_eq(&computed, &root)
    }

    /// Folds the proof path into `leaf`, hashing the lexicographically
    /// smaller digest first at each step.
    pub fn process_proof(proof: &Vec<[u8; 32]>, leaf: [u8; 32]) -> (r: [u8; 32])
        ensures
            r@ == spec_process_proof(proof.deep_view(), leaf@),
    {
        let ghost s: Seq<Seq<u8>> = proof.deep_view();
        proof {
            assert(s.skip(0) =~= s);
        }
        let mut computed_hash = leaf;
        let mut i: usize = 0;
        while i < proof.len()
            invariant
                i <= proof@.len(),
                s == proof.deep_view(),
                spec_process_proof(s.skip(i as int), computed_hash@) == spec_process_proof(
                    s,
                    leaf@,
                ),
            decreases proof@.len() - i,
        {
            let proof_element = proof[i];
            proof {
                assert(s[i as int] =~= proof_element@);
                assert(s.skip(i as int).drop_first() =~= s.skip(i as int + 1));
                assert(s.skip(i as int).first() == s[i as int]);
            }
            if hash_le(&computed_hash, &proof_element) {
                computed_hash = Self::hash_pair(&computed_hash, &proof_element);
            } else {
                computed_hash = Self::hash_pair(&proof_element, &computed_hash);
            }
            i += 1;
        }
        proof {
            assert(s.skip(0) =~= s);
        }
        computed_hash
    }
}

} // verus!

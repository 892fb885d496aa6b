//! The signing digest.
//!
//! The value handed to the external signer is a 32-byte Keccak-256 digest of
//! the decoded payload. External signer versions disagree on byte order, so
//! both orderings are supported: the digest as computed, or reversed byte
//! for byte. The hash itself is the `sha3` crate behind a trusted wrapper;
//! the ordering step is verified code.

use vstd::prelude::*;

verus! {

/// The byte order in which the digest is handed to the signer.
#[derive(Clone, Copy, Debug, PartialEq, Eq, Structural)]
pub enum DigestOrder {
    /// The digest as Keccak-256 produces it.
    Forward,
    /// The digest reversed byte for byte, for signer versions that expect it.
    Reversed,
}

/// The Keccak-256 digest of a byte sequence, named but not written out: the
/// trusted wrapper below states that the call returns it.
pub uninterp spec fn keccak256_of(bytes: Seq<u8>) -> Seq<u8>;

/// Relies on `sha3::Keccak256` through `Digest::digest`: Keccak-256, a
/// 32-byte digest that is a function of the input bytes alone.
#[verifier::external_body]
fn keccak256(bytes: &[u8]) -> (r: Vec<u8>)
    ensures
        r@ == keccak256_of(bytes@),
        r@.len() == 32,
{
    <sha3::Keccak256 as sha3::Digest>::digest(bytes).to_vec()
}

/// The digest in the order a given signer version expects.
pub open spec fn spec_digest(order: DigestOrder, bytes: Seq<u8>) -> Seq<u8> {
    match order {
        DigestOrder::Forward => keccak256_of(bytes),
        DigestOrder::Reversed => keccak256_of(bytes).reverse(),
    }
}

/// Reverse a byte vector.
fn reverse_bytes(v: &Vec<u8>) -> (r: Vec<u8>)
    ensures
        r@ == v@.reverse(),
{
    let n = v.len();
    let mut r: Vec<u8> = Vec::new();
    let mut i: usize = 0;
    while i < n
        invariant
            n == v@.len(),
            i <= n,
            r@.len() == i,
            forall|j: int| 0 <= j < i ==> r@[j] == v@[n - 1 - j],
        decreases n - i,
    {
        r.push(v[n - 1 - i]);
        i = i + 1;
    }
    proof {
        assert(r@ =~= v@.reverse());
    }
    r
}

/// Compute the 32-byte signing digest of the decoded payload, in the byte
/// order the configured signer version expects.
pub fn compute_digest(order: DigestOrder, bytes: &[u8]) -> (r: Vec<u8>)
    ensures
        r@ == spec_digest(order, bytes@),
        r@.len() == 32,
{
    let d = keccak256(bytes);
    match order {
        DigestOrder::Forward => d,
        DigestOrder::Reversed => reverse_bytes(&d),
    }
}

/// Law: the digest is deterministic. It depends on the decoded byte
/// sequence alone, so repeated invocations on equal bytes produce equal
/// digests.
pub proof fn lemma_digest_deterministic(order: DigestOrder, b1: Seq<u8>, b2: Seq<u8>)
    requires
        b1 == b2,
    ensures
        spec_digest(order, b1) == spec_digest(order, b2),
{
}

/// Law: the reversed-order digest equals the byte-for-byte reverse of the
/// forward-order digest of the same bytes.
pub proof fn lemma_digest_reversal(bytes: Seq<u8>)
    ensures
        spec_digest(DigestOrder::Reversed, bytes) == spec_digest(
            DigestOrder::Forward,
            bytes,
        ).reverse(),
{
}

} // verus!

//! The commitment hash, Keccak-256, computed by the `ink` environment.

use vstd::prelude::*;

verus! {

/// The Keccak-256 digest of `input`, as `ink` computes it.
pub uninterp spec fn keccak256(input: Seq<u8>) -> Seq<u8>;

/// Calls `ink::env::hash_bytes::<Keccak256>` on the 32 bytes of `input`,
/// which hands them to the Keccak-256 of the environment and writes the
/// digest into the buffer it is given.
///
/// Trusted: the digest that comes back is the function `keccak256` of the
/// input bytes, the same on every call. Nothing is claimed of its value.
#[verifier::external_body]
pub(crate) fn hash_keccak256(input: &[u8; 32]) -> (digest: [u8; 32])
    ensures
        digest@ == keccak256(input@),
{
    let mut digest = [0u8; 32];
    ink::env::hash_bytes::<ink::env::hash::Keccak256>(input, &mut digest);
    digest
}

/// Whether two 32-byte strings are equal, byte for byte.
pub fn bytes32_eq(a: &[u8; 32], b: &[u8; 32]) -> (equal: bool)
    ensures
        equal == (a@ == b@),
{
    let mut i: usize = 0;
    while i < 32
        invariant
            i <= 32,
            forall|j: int| 0 <= j < i ==> a@[j] == b@[j],
        decreases 32 - i,
    {
        if a[i] != b[i] {
            return false;
        }
        i += 1;
    }
    assert(a@ =~= b@);
    true
}

/// The commitment to `secret`: its Keccak-256 digest.
pub fn commitment(secret: &[u8; 32]) -> (digest: [u8; 32])
    ensures
        digest@ == keccak256(secret@),
{
    hash_keccak256(secret)
}

} // verus!

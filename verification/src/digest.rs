//! SHA-256, as computed by the `sha2` crate.
//!
//! The library uses the digest in two places: to advance the state from
//! which a seeded manifold draws its matrices, and to hold a parameter file
//! against the digest recorded for it.
use vstd::prelude::*;
use sha2::Digest;
use sha2::Sha256;

verus! {

/// The SHA-256 digest of a byte string.
pub uninterp spec fn sha256_digest(data: Seq<u8>) -> Seq<u8>;

/// `Sha256::digest` of the `sha2` crate: the 32 bytes of the SHA-256 digest
/// of `data`, a function of `data` alone.
#[verifier::external_body]
fn sha256_raw(data: &[u8]) -> (r: Vec<u8>)
    ensures
        r@ == sha256_digest(data@),
        r@.len() == 32,
{
    Sha256::digest(data).to_vec()
}

/// The SHA-256 digest of `data`.
pub fn sha256(data: &[u8]) -> (r: Vec<u8>)
    ensures
        r@ == sha256_digest(data@),
        r@.len() == 32,
{
    sha256_raw(data)
}

/// Whether `data` has the digest `expected`.
pub fn digest_matches(data: &[u8], expected: &[u8]) -> (r: bool)
    ensures
        r == (sha256_digest(data@) == expected@),
{
    let actual = sha256_raw(data);
    bytes_equal(actual.as_slice(), expected)
}

/// Whether two byte strings are equal.
pub fn bytes_equal(left: &[u8], right: &[u8]) -> (r: bool)
    ensures
        r == (left@ == right@),
{
    if left.len() != right.len() {
        return false;
    }
    let mut i: usize = 0;
    while i < left.len()
        invariant
            i <= left@.len(),
            left@.len() == right@.len(),
            forall|j: int| 0 <= j < i ==> left@[j] == right@[j],
        decreases left@.len() - i,
    {
        if left[i] != right[i] {
            return false;
        }
        i = i + 1;
    }
    assert(left@ =~= right@);
    true
}

} // verus!

use vstd::prelude::*;
use sha2::{Digest, Sha256};

verus! {

/// Number of chained SHA-256 computations behind one `/hash` reply.
pub const CHAIN_LENGTH: usize = 100;

/// The SHA-256 digest of a byte sequence.
pub uninterp spec fn sha256_of(data: Seq<u8>) -> Seq<u8>;

/// `n` chained digests of `seed`: the first hashes `seed`, each later one
/// hashes the 32 bytes of the one before.
pub open spec fn chain(seed: Seq<u8>, n: nat) -> Seq<u8>
    decreases n,
{
    if n <= 1 {
        sha256_of(seed)
    } else {
        sha256_of(chain(seed, (n - 1) as nat))
    }
}

/// Relies on sha2's `Sha256::digest`: the 32-byte SHA-256 digest of `data`,
/// which depends on the bytes alone.
#[verifier::external_body]
fn sha256(data: &[u8]) -> (r: [u8; 32])
    ensures
        r@ == sha256_of(data@),
{
    Sha256::digest(data).into()
}

/// Runs the hash chain of the benchmark: `CHAIN_LENGTH` digests, the first
/// over `input`, each later one over the raw bytes of the one before.
pub fn hash_chain(input: &[u8]) -> (r: [u8; 32])
    ensures
        r@ == chain(input@, CHAIN_LENGTH as nat),
{
    let mut data = sha256(input);
    let mut done: usize = 1;
    while done < CHAIN_LENGTH
        invariant
            1 <= done <= CHAIN_LENGTH,
            data@ == chain(input@, done as nat),
        decreases CHAIN_LENGTH - done,
    {
        data = sha256(&data);
        done = done + 1;
    }
    data
}

} // verus!

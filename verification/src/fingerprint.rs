//! Content fingerprints of feed payloads.
//!
//! The fingerprint is the 64-bit FNV-1a hash of the payload's bytes. It tells
//! a changed payload from an unchanged one; it is no cryptographic digest.

use vstd::prelude::*;

verus! {

/// The FNV-1a offset basis for 64 bits.
pub const FNV_OFFSET: u64 = 0xcbf29ce484222325;

/// The FNV-1a prime for 64 bits.
pub const FNV_PRIME: u64 = 0x100000001b3;

/// One FNV-1a round: fold the byte in, then multiply modulo 2^64.
pub open spec fn mix(h: u64, b: u8) -> u64 {
    (h ^ (b as u64)).wrapping_mul(FNV_PRIME)
}

/// The FNV-1a hash of `bytes`, taken front to back.
pub open spec fn fingerprint_of(bytes: Seq<u8>) -> u64
    decreases bytes.len(),
{
    if bytes.len() == 0 {
        FNV_OFFSET
    } else {
        mix(fingerprint_of(bytes.drop_last()), bytes.last())
    }
}

/// Computes the fingerprint of a payload.
pub fn fingerprint(payload: &Vec<u8>) -> (h: u64)
    ensures
        h == fingerprint_of(payload@),
{
    let mut h: u64 = FNV_OFFSET;
    let mut i: usize = 0;
    while i < payload.len()
        invariant
            i <= payload.len(),
            h == fingerprint_of(payload@.take(i as int)),
        decreases payload.len() - i,
    {
        proof {
            assert(payload@.take(i + 1).drop_last() =~= payload@.take(i as int));
        }
        h = (h ^ (payload[i] as u64)).wrapping_mul(FNV_PRIME);
        i += 1;
    }
    assert(payload@.take(i as int) =~= payload@);
    h
}

} // verus!

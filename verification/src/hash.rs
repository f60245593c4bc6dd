//! Fowler-Noll-Vo (FNV-1a) hashing over the raw bytes of a string.
//!
//! The avatar derivation rests on this simple, portable 64-bit hash: the
//! accumulator starts at a fixed offset basis and, for every input byte in
//! order, is XOR-ed with the byte and then multiplied by a fixed prime,
//! wrapping modulo 2^64.

use vstd::prelude::*;
use vstd::string::StringSliceAdditionalSpecFns;

verus! {

/// The FNV-1a 64-bit offset basis: the hash of the empty byte sequence.
pub const FNV_OFFSET_BASIS: u64 = 0xcbf2_9ce4_8422_2325;

/// The FNV-1a 64-bit prime multiplier.
pub const FNV_PRIME: u64 = 0x100_0000_01b3;

/// One FNV-1a round: fold the next byte into the accumulator.
pub open spec fn fnv1a_step(acc: u64, byte: u8) -> u64 {
    (acc ^ (byte as u64)).wrapping_mul(FNV_PRIME)
}

/// The FNV-1a hash of a byte sequence: the offset basis folded through
/// `fnv1a_step` with each byte, in sequence order.
pub open spec fn fnv1a(bytes: Seq<u8>) -> u64
    decreases bytes.len(),
{
    if bytes.len() == 0 {
        FNV_OFFSET_BASIS
    } else {
        fnv1a_step(fnv1a(bytes.drop_last()), bytes.last())
    }
}

/// Compute the FNV-1a hash of the UTF-8 bytes of `input`.
///
/// Multi-byte characters contribute each of their bytes individually, in
/// order; the empty string hashes to the offset basis.
pub fn hash(input: &str) -> (h: u64)
    ensures
        h == fnv1a(input.spec_bytes()),
{
    let bytes: &[u8] = input.as_bytes();
    let mut h: u64 = FNV_OFFSET_BASIS;
    let mut i: usize = 0;
    while i < bytes.len()
        invariant
            i <= bytes@.len(),
            bytes@ == input.spec_bytes(),
            h == fnv1a(bytes@.subrange(0, i as int)),
        decreases bytes@.len() - i,
    {
        proof {
            assert(bytes@.subrange(0, i + 1).drop_last() =~= bytes@.subrange(0, i as int));
            assert(bytes@.subrange(0, i + 1).last() == bytes@[i as int]);
        }
        h = (h ^ (bytes[i] as u64)).wrapping_mul(FNV_PRIME);
        i = i + 1;
    }
    proof {
        assert(bytes@.subrange(0, bytes@.len() as int) =~= bytes@);
    }
    h
}

} // verus!

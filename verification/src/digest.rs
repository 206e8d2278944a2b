//! 32-byte digests: video hashes and the payloads of identities.

use vstd::prelude::*;
use crate::error::Error;

verus! {

/// Number of bytes in a video hash and in an identity payload.
pub const DIGEST_LEN: usize = 32;

/// Compares two 32-byte values byte by byte.
pub fn bytes_equal(a: &[u8; 32], b: &[u8; 32]) -> (same: bool)
    ensures
        same == (*a == *b),
{
    let mut i: usize = 0;
    while i < DIGEST_LEN
        invariant
            0 <= i <= DIGEST_LEN,
            forall|j: int| 0 <= j < i ==> a[j] == b[j],
        decreases DIGEST_LEN - i,
    {
        if a[i] != b[i] {
            return false;
        }
        i += 1;
    }
    proof {
        assert(*a =~= *b);
    }
    true
}

/// Reads a video hash from raw bytes.
///
/// A hash is exactly 32 bytes long. Input of any other length, the empty
/// input included, is malformed and fails with `InvalidHash`.
pub fn video_hash_from_slice(bytes: &[u8]) -> (parsed: Result<[u8; 32], Error>)
    ensures
        bytes@.len() == DIGEST_LEN ==> parsed is Ok && parsed->Ok_0@ == bytes@,
        bytes@.len() != DIGEST_LEN ==> parsed == Err::<[u8; 32], Error>(Error::InvalidHash),
{
    if bytes.len() != DIGEST_LEN {
        return Err(Error::InvalidHash);
    }
    let mut hash: [u8; 32] = [0u8; 32];
    let mut i: usize = 0;
    while i < DIGEST_LEN
        invariant
            0 <= i <= DIGEST_LEN,
            bytes@.len() == DIGEST_LEN,
            forall|j: int| 0 <= j < i ==> hash@[j] == bytes@[j],
        decreases DIGEST_LEN - i,
    {
        hash[i] = bytes[i];
        i += 1;
    }
    Ok(hash)
}

/// Appends the 32 bytes of `bytes` to `out`.
pub fn append_digest(out: &mut Vec<u8>, bytes: &[u8; 32])
    ensures
        final(out)@ == old(out)@ + bytes@,
{
    let ghost before = out@;
    let mut i: usize = 0;
    while i < DIGEST_LEN
        invariant
            0 <= i <= DIGEST_LEN,
            out@ == before + bytes@.subrange(0, i as int),
        decreases DIGEST_LEN - i,
    {
        out.push(bytes[i]);
        i += 1;
    }
}

} // verus!

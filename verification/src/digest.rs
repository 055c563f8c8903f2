//! Digests.

use vstd::prelude::*;

verus! {

/// The BLAKE3 digest of a byte string.
pub uninterp spec fn digest_of(bytes: Seq<u8>) -> [u8; 32];

/// `blake3::hash`: the 32 bytes of the digest, a function of the bytes alone.
#[verifier::external_body]
pub(crate) fn digest(bytes: &[u8]) -> (hash: [u8; 32])
    ensures
        hash == digest_of(bytes@),
{
    *blake3::hash(bytes).as_bytes()
}

/// Whether two digests are the same.
pub fn same_digest(left: &[u8; 32], right: &[u8; 32]) -> (same: bool)
    ensures
        same == (*left == *right),
{
    let mut i: usize = 0;
    while i < 32
        invariant
            i <= 32,
            left@.take(i as int) == right@.take(i as int),
        decreases 32 - i,
    {
        if left[i] != right[i] {
            return false;
        }
        i += 1;
        assert(left@.take(i as int) =~= left@.take(i - 1).push(left@[i - 1]));
        assert(right@.take(i as int) =~= right@.take(i - 1).push(right@[i - 1]));
    }
    assert(left@.take(32) =~= left@);
    assert(right@.take(32) =~= right@);
    assert(left@ =~= right@);
    assert(*left =~= *right);
    true
}

}

//! The hash that places a user in a feature's buckets.
use vstd::prelude::*;
use vstd::utf8::encode_utf8;

verus! {

/// The 32-bit Murmur3 hash, with seed 0, of a byte sequence.
pub uninterp spec fn murmur3_32_of(bytes: Seq<u8>) -> u32;

/// The hash of a user key for a feature: Murmur3 of the UTF-8 bytes of the
/// feature name followed by those of the user key, with no separator.
pub open spec fn feature_hash(feature: Seq<char>, user_key: Seq<char>) -> u32 {
    murmur3_32_of(encode_utf8(feature) + encode_utf8(user_key))
}

/// Whether a feature name and a user key are short enough to be hashed
/// together: their UTF-8 bytes number at most `u32::MAX`.
pub open spec fn hashable(feature: Seq<char>, user_key: Seq<char>) -> bool {
    encode_utf8(feature).len() + encode_utf8(user_key).len() <= u32::MAX
}

/// Relies on `murmur3::murmur3_32` with seed 0, read from an in-memory cursor:
/// the hash of the bytes. Reading a cursor never fails; the byte count the
/// function keeps is a `u32`, hence the bound on the length.
#[verifier::external_body]
fn murmur3_32_seed0(bytes: &[u8]) -> (r: u32)
    requires
        bytes@.len() <= u32::MAX,
    ensures
        r == murmur3_32_of(bytes@),
{
    murmur3::murmur3_32(&mut std::io::Cursor::new(bytes), 0).unwrap_or(0)
}

/// Appends the bytes of `src` to `dst`.
fn push_bytes(dst: &mut Vec<u8>, src: &[u8])
    ensures
        final(dst)@ == old(dst)@ + src@,
{
    let mut i: usize = 0;
    while i < src.len()
        invariant
            i <= src@.len(),
            dst@ == old(dst)@ + src@.subrange(0, i as int),
        decreases src@.len() - i,
    {
        dst.push(src[i]);
        i = i + 1;
        assert(src@.subrange(0, i as int) == src@.subrange(0, i - 1 as int).push(src@[i - 1]));
    }
    assert(src@.subrange(0, src@.len() as int) == src@);
}

/// Calculates the hash of a user key for a feature: Murmur3 (seed 0) of the
/// feature name followed by the user key. Only the concatenation counts, so
/// `("ab", "c")` and `("a", "bc")` hash alike.
pub fn calculate(feature: &str, user_key: &str) -> (r: u32)
    requires
        hashable(feature@, user_key@),
    ensures
        r == feature_hash(feature@, user_key@),
{
    let mut key: Vec<u8> = Vec::new();
    push_bytes(&mut key, feature.as_bytes());
    push_bytes(&mut key, user_key.as_bytes());
    murmur3_32_seed0(key.as_slice())
}

/// The hash is a function of the concatenated bytes alone: equal
/// concatenations, and so equal inputs on any two calls, give equal hashes.
pub proof fn lemma_hash_deterministic(
    feature1: Seq<char>,
    user_key1: Seq<char>,
    feature2: Seq<char>,
    user_key2: Seq<char>,
)
    requires
        encode_utf8(feature1) + encode_utf8(user_key1) == encode_utf8(feature2) + encode_utf8(
            user_key2,
        ),
    ensures
        feature_hash(feature1, user_key1) == feature_hash(feature2, user_key2),
{
}

} // verus!

//! Deterministic content identifiers in ULID form: a 48-bit millisecond
//! timestamp followed by 80 bits derived from a SHA-256 digest, written as
//! 26 Crockford base32 digits.

use vstd::prelude::*;
use sha2::{Digest, Sha256};
use crate::text::push_char;
use crate::time::{UtcTimestamp, timestamp_millis, millis_of};

verus! {

/// The Crockford base32 digits.
pub open spec fn crockford_alphabet() -> Seq<char> {
    "0123456789ABCDEFGHJKMNPQRSTVWXYZ"@
}

/// The 26-digit Crockford base32 text of a 128-bit value, most significant
/// digit first (the first digit holds the top 3 bits).
pub open spec fn ulid_text(value: u128) -> Seq<char> {
    Seq::new(26, |i: int| crockford_alphabet()[((value >> ((25 - i) * 5) as u128) & 0x1f) as int])
}

/// Encodes a 128-bit value as 26 Crockford base32 digits.
pub fn encode_ulid(value: u128) -> (r: String)
    ensures
        r@ == ulid_text(value),
{
    let alphabet = "0123456789ABCDEFGHJKMNPQRSTVWXYZ";
    proof {
        reveal_strlit("0123456789ABCDEFGHJKMNPQRSTVWXYZ");
    }
    let mut encoded = String::new();
    let mut k: u32 = 0;
    while k < 26
        invariant
            k <= 26,
            alphabet@ == crockford_alphabet(),
            alphabet@.len() == 32,
            encoded@ == ulid_text(value).subrange(0, k as int),
        decreases 26 - k,
    {
        let offset: u32 = 25 - k;
        let shift: u128 = (offset * 5) as u128;
        let digit = (value >> shift) & 0x1f;
        assert(digit < 32) by (bit_vector)
            requires digit == (value >> shift) & 0x1f;
        let c = alphabet.get_char(digit as usize);
        push_char(&mut encoded, c);
        k = k + 1;
        assert(encoded@ =~= ulid_text(value).subrange(0, k as int));
    }
    encoded
}

/// The SHA-256 digest of a byte sequence.
pub uninterp spec fn sha256_digest(data: Seq<u8>) -> Seq<u8>;

/// Computes the SHA-256 digest of `data` (`sha2::Sha256`). The 32-byte
/// digest is named by `sha256_digest`.
#[verifier::external_body]
fn sha256(data: &[u8]) -> (d: Vec<u8>)
    ensures
        d@ == sha256_digest(data@),
        d@.len() == 32,
{
    Sha256::digest(data).to_vec()
}

/// The big-endian bytes of a 64-bit value.
pub open spec fn be_bytes_u64(x: u64) -> Seq<u8> {
    Seq::new(8, |i: int| ((x >> ((7 - i) * 8) as u64) & 0xff) as u8)
}

/// The big-endian bytes of a 32-bit value.
pub open spec fn be_bytes_u32(x: u32) -> Seq<u8> {
    Seq::new(4, |i: int| ((x >> ((3 - i) * 8) as u32) & 0xff) as u8)
}

/// The value of a big-endian byte sequence.
pub open spec fn be_value(bytes: Seq<u8>) -> nat
    decreases bytes.len(),
{
    if bytes.len() == 0 {
        0
    } else {
        be_value(bytes.drop_last()) * 256 + bytes.last() as nat
    }
}

/// The bytes hashed for a content identifier: the seed, the namespace, a
/// zero byte, the API, a zero byte and the index.
pub open spec fn ulid_seed_message(seed: u64, namespace: Seq<u8>, api: Seq<u8>, index: u32) -> Seq<u8> {
    be_bytes_u64(seed) + namespace + seq![0u8] + api + seq![0u8] + be_bytes_u32(index)
}

/// The greatest millisecond timestamp a ULID holds.
pub const ULID_TIMESTAMP_MAX: u64 = 0xffff_ffff_ffff;

/// The identifier of content `index` of `api` in `namespace` for `seed`,
/// stamped `millis`: the timestamp in the top 48 bits and the first ten
/// digest bytes below.
pub open spec fn content_ulid_spec(millis: int, seed: u64, namespace: Seq<char>, api: Seq<char>, index: u32) -> Seq<char> {
    let digest = sha256_digest(ulid_seed_message(seed, vstd::utf8::encode_utf8(namespace),
        vstd::utf8::encode_utf8(api), index));
    ulid_text((millis * 0x1_0000_0000_0000_0000_0000 + be_value(digest.subrange(0, 10))) as u128)
}

fn push_be_u64(out: &mut Vec<u8>, x: u64)
    ensures
        final(out)@ == old(out)@ + be_bytes_u64(x),
{
    let mut i: u64 = 0;
    while i < 8
        invariant
            i <= 8,
            out@ == old(out)@ + be_bytes_u64(x).subrange(0, i as int),
        decreases 8 - i,
    {
        let shift: u64 = (7 - i) * 8;
        out.push(((x >> shift) & 0xff) as u8);
        i = i + 1;
        assert(out@ =~= old(out)@ + be_bytes_u64(x).subrange(0, i as int));
    }
    assert(be_bytes_u64(x).subrange(0, 8) =~= be_bytes_u64(x));
}

fn push_be_u32(out: &mut Vec<u8>, x: u32)
    ensures
        final(out)@ == old(out)@ + be_bytes_u32(x),
{
    let mut i: u32 = 0;
    while i < 4
        invariant
            i <= 4,
            out@ == old(out)@ + be_bytes_u32(x).subrange(0, i as int),
        decreases 4 - i,
    {
        let shift: u32 = (3 - i) * 8;
        out.push(((x >> shift) & 0xff) as u8);
        i = i + 1;
        assert(out@ =~= old(out)@ + be_bytes_u32(x).subrange(0, i as int));
    }
    assert(be_bytes_u32(x).subrange(0, 4) =~= be_bytes_u32(x));
}

fn push_bytes(out: &mut Vec<u8>, bytes: &[u8])
    ensures
        final(out)@ == old(out)@ + bytes@,
{
    let mut i: usize = 0;
    while i < bytes.len()
        invariant
            i <= bytes.len(),
            out@ == old(out)@ + bytes@.subrange(0, i as int),
        decreases bytes.len() - i,
    {
        out.push(bytes[i]);
        i = i + 1;
        assert(out@ =~= old(out)@ + bytes@.subrange(0, i as int));
    }
    assert(bytes@.subrange(0, bytes@.len() as int) =~= bytes@);
}

/// Returns the deterministic identifier of content `index` of `api` in
/// `namespace` for `seed`, stamped with `timestamp`.
pub fn deterministic_content_ulid(
    timestamp: UtcTimestamp,
    seed: u64,
    namespace: &str,
    api: &str,
    index: u32,
) -> (r: String)
    requires
        timestamp.valid(),
        0 <= millis_of(timestamp) <= ULID_TIMESTAMP_MAX,
    ensures
        r@ == content_ulid_spec(millis_of(timestamp), seed, namespace@, api@, index),
{
    let millis = timestamp_millis(timestamp) as u64;
    let mut message: Vec<u8> = Vec::new();
    push_be_u64(&mut message, seed);
    push_bytes(&mut message, namespace.as_bytes());
    message.push(0u8);
    push_bytes(&mut message, api.as_bytes());
    message.push(0u8);
    push_be_u32(&mut message, index);
    assert(message@ =~= ulid_seed_message(seed, vstd::utf8::encode_utf8(namespace@),
        vstd::utf8::encode_utf8(api@), index));
    let digest = sha256(message.as_slice());
    let mut entropy: u128 = 0;
    let mut i: usize = 0;
    while i < 10
        invariant
            i <= 10,
            digest@.len() == 32,
            entropy == be_value(digest@.subrange(0, i as int)),
            entropy < pow256(i as nat),
        decreases 10 - i,
    {
        let b = digest[i];
        let e = entropy;
        assert(digest@.subrange(0, i + 1).drop_last() =~= digest@.subrange(0, i as int));
        assert(e * 256 + b < pow256((i + 1) as nat)) by (nonlinear_arith)
            requires e < pow256(i as nat), b < 256, pow256((i + 1) as nat) == pow256(i as nat) * 256;
        assert(pow256((i + 1) as nat) <= 0x1_0000_0000_0000_0000_0000) by {
            lemma_pow256_mono((i + 1) as nat, 10);
        }
        assert((e << 8u128) | (b as u128) == e * 256 + b) by (bit_vector)
            requires e < 0x1_0000_0000_0000_0000_0000_0000, b < 256;
        entropy = (entropy << 8u128) | (b as u128);
        i = i + 1;
    }
    proof {
        lemma_pow256_mono(10, 10);
    }
    assert(digest@.subrange(0, 10) == digest@.subrange(0, i as int));
    let ts = millis as u128;
    assert((ts << 80u128) | entropy == ts * 0x1_0000_0000_0000_0000_0000 + entropy) by (bit_vector)
        requires ts < 0x1_0000_0000_0000, entropy < 0x1_0000_0000_0000_0000_0000;
    encode_ulid((ts << 80u128) | entropy)
}

/// 256 to the power `n`.
pub open spec fn pow256(n: nat) -> nat
    decreases n,
{
    if n == 0 {
        1
    } else {
        pow256((n - 1) as nat) * 256
    }
}

proof fn lemma_pow256_mono(a: nat, b: nat)
    requires
        a <= b,
    ensures
        pow256(a) <= pow256(b),
        pow256(10) == 0x1_0000_0000_0000_0000_0000,
    decreases b,
{
    reveal_with_fuel(pow256, 11);
    if a < b {
        lemma_pow256_mono(a, (b - 1) as nat);
    }
}

} // verus!

//! Verification of the HMAC-SHA256 signature a CMS sends with a webhook.
//!
//! The signature header holds the hex or standard base64 encoding of
//! HMAC-SHA256(secret, body), optionally prefixed by `sha256=` or `SHA256=`
//! and surrounded by whitespace.

use vstd::prelude::*;
use base64::Engine;
use base64::engine::general_purpose::STANDARD as BASE64_STANDARD;
use hmac::{Hmac, Mac};
use sha2::Sha256;
use crate::text::{chars_of, string_from_chars};

verus! {

/// The HMAC-SHA256 tag of `message` under `key`.
pub uninterp spec fn hmac_sha256_tag(key: Seq<u8>, message: Seq<u8>) -> Seq<u8>;

/// Computes HMAC-SHA256 (`hmac::Hmac<sha2::Sha256>`): keyed with `key`, fed
/// `message`, finalized. Any key length is accepted. The 32-byte tag is
/// named by `hmac_sha256_tag`.
#[verifier::external_body]
fn hmac_sha256(key: &[u8], message: &[u8]) -> (tag: Vec<u8>)
    ensures
        tag@ == hmac_sha256_tag(key@, message@),
        tag@.len() == 32,
{
    let mut mac = <Hmac<Sha256> as Mac>::new_from_slice(key).unwrap();
    mac.update(message);
    mac.finalize().into_bytes().to_vec()
}

/// The value of an ASCII hex digit.
pub open spec fn hex_digit_value(c: char) -> Option<int> {
    if '0' <= c && c <= '9' {
        Some(c as int - '0' as int)
    } else if 'a' <= c && c <= 'f' {
        Some(c as int - 'a' as int + 10)
    } else if 'A' <= c && c <= 'F' {
        Some(c as int - 'A' as int + 10)
    } else {
        None
    }
}

/// The bytes a hex text denotes: an even number of hex digits, two per
/// byte, the high half first; `None` for any other text.
pub open spec fn hex_decoded(text: Seq<char>) -> Option<Seq<u8>> {
    if text.len() % 2 == 0 && (forall|i: int| 0 <= i < text.len() ==> (#[trigger] hex_digit_value(text[i])) is Some) {
        Some(Seq::new((text.len() / 2) as nat, |i: int|
            (hex_digit_value(text[2 * i])->0 * 16 + hex_digit_value(text[2 * i + 1])->0) as u8))
    } else {
        None
    }
}

/// Decodes hex text (`hex::decode`). Upper- and lower-case digits are
/// accepted; odd lengths and other characters are rejected.
#[verifier::external_body]
fn hex_decode(text: &str) -> (r: Option<Vec<u8>>)
    ensures
        match r {
            Some(bytes) => hex_decoded(text@) == Some(bytes@),
            None => hex_decoded(text@) is None,
        },
{
    hex::decode(text).ok()
}

/// The bytes a text denotes in standard base64 with padding, or `None`
/// when the text is not such an encoding.
pub uninterp spec fn base64_standard_decoded(text: Seq<char>) -> Option<Seq<u8>>;

/// Decodes standard base64 (`base64::engine::general_purpose::STANDARD`).
/// Which texts are accepted, and what they decode to, is named by
/// `base64_standard_decoded`.
#[verifier::external_body]
fn base64_decode(text: &str) -> (r: Option<Vec<u8>>)
    ensures
        match r {
            Some(bytes) => base64_standard_decoded(text@) == Some(bytes@),
            None => base64_standard_decoded(text@) is None,
        },
{
    BASE64_STANDARD.decode(text).ok()
}

/// A character with the Unicode `White_Space` property (`char::is_whitespace`).
pub open spec fn is_unicode_whitespace(c: char) -> bool {
    ||| ('\u{9}' <= c && c <= '\u{d}')
    ||| c == ' '
    ||| c == '\u{85}'
    ||| c == '\u{a0}'
    ||| c == '\u{1680}'
    ||| ('\u{2000}' <= c && c <= '\u{200a}')
    ||| c == '\u{2028}'
    ||| c == '\u{2029}'
    ||| c == '\u{202f}'
    ||| c == '\u{205f}'
    ||| c == '\u{3000}'
}

fn is_whitespace_char(c: char) -> (r: bool)
    ensures
        r == is_unicode_whitespace(c),
{
    ('\u{9}' <= c && c <= '\u{d}') || c == ' ' || c == '\u{85}' || c == '\u{a0}' || c == '\u{1680}'
        || ('\u{2000}' <= c && c <= '\u{200a}') || c == '\u{2028}' || c == '\u{2029}'
        || c == '\u{202f}' || c == '\u{205f}' || c == '\u{3000}'
}

/// `s` without its leading whitespace.
pub open spec fn trim_start_spec(s: Seq<char>) -> Seq<char>
    decreases s.len(),
{
    if s.len() > 0 && is_unicode_whitespace(s[0]) {
        trim_start_spec(s.drop_first())
    } else {
        s
    }
}

/// `s` without its trailing whitespace.
pub open spec fn trim_end_spec(s: Seq<char>) -> Seq<char>
    decreases s.len(),
{
    if s.len() > 0 && is_unicode_whitespace(s.last()) {
        trim_end_spec(s.drop_last())
    } else {
        s
    }
}

/// `s` without leading and trailing whitespace (`str::trim`).
pub open spec fn trim_spec(s: Seq<char>) -> Seq<char> {
    trim_end_spec(trim_start_spec(s))
}

proof fn trim_start_index(s: Seq<char>) -> (i: int)
    ensures
        0 <= i <= s.len(),
        trim_start_spec(s) == s.subrange(i, s.len() as int),
        forall|k: int| 0 <= k < i ==> is_unicode_whitespace(#[trigger] s[k]),
        i < s.len() ==> !is_unicode_whitespace(s[i]),
    decreases s.len(),
{
    if s.len() > 0 && is_unicode_whitespace(s[0]) {
        let i = trim_start_index(s.drop_first()) + 1;
        assert(s.drop_first().subrange(i - 1, s.len() - 1) =~= s.subrange(i, s.len() as int));
        assert forall|k: int| 0 <= k < i implies is_unicode_whitespace(#[trigger] s[k]) by {
            if k > 0 {
                assert(s[k] == s.drop_first()[k - 1]);
            }
        }
        assert(i < s.len() ==> s[i] == s.drop_first()[i - 1]);
        i
    } else {
        assert(s.subrange(0, s.len() as int) =~= s);
        0
    }
}

proof fn trim_end_index(s: Seq<char>) -> (j: int)
    ensures
        0 <= j <= s.len(),
        trim_end_spec(s) == s.subrange(0, j),
        forall|k: int| j <= k < s.len() ==> is_unicode_whitespace(#[trigger] s[k]),
        j > 0 ==> !is_unicode_whitespace(s[j - 1]),
    decreases s.len(),
{
    if s.len() > 0 && is_unicode_whitespace(s.last()) {
        let j = trim_end_index(s.drop_last());
        assert(s.drop_last().subrange(0, j) =~= s.subrange(0, j));
        assert forall|k: int| j <= k < s.len() implies is_unicode_whitespace(#[trigger] s[k]) by {
            if k < s.len() - 1 {
                assert(s[k] == s.drop_last()[k]);
            }
        }
        assert(j > 0 ==> s[j - 1] == s.drop_last()[j - 1]);
        j
    } else {
        assert(s.subrange(0, s.len() as int) =~= s);
        s.len() as int
    }
}

/// Trimming removes exactly the whitespace around a text: what is left is
/// a stretch of it that neither starts nor ends with whitespace, and
/// everything around that stretch is whitespace.
pub proof fn lemma_trim_strips_outer_whitespace(s: Seq<char>)
    ensures
        exists|i: int, j: int| #![trigger s.subrange(i, j)]
            0 <= i <= j <= s.len() && trim_spec(s) == s.subrange(i, j)
            && (forall|k: int| 0 <= k < i ==> is_unicode_whitespace(#[trigger] s[k]))
            && (forall|k: int| j <= k < s.len() ==> is_unicode_whitespace(#[trigger] s[k]))
            && (i < j ==> !is_unicode_whitespace(s[i]) && !is_unicode_whitespace(s[j - 1])),
{
    let i = trim_start_index(s);
    let rest = s.subrange(i, s.len() as int);
    let m = trim_end_index(rest);
    let j = i + m;
    assert(rest.subrange(0, m) =~= s.subrange(i, j));
    assert forall|k: int| j <= k < s.len() implies is_unicode_whitespace(#[trigger] s[k]) by {
        assert(s[k] == rest[k - i]);
    }
    if i < j {
        assert(s[j - 1] == rest[m - 1]);
    }
    assert(trim_spec(s) == s.subrange(i, j));
}

/// Returns `s` without leading and trailing Unicode whitespace.
pub fn trim_whitespace(s: &[char]) -> (r: Vec<char>)
    ensures
        r@ == trim_spec(s@),
{
    let n = s.len();
    let mut start: usize = 0;
    assert(s@.subrange(0, n as int) =~= s@);
    while start < n && is_whitespace_char(s[start])
        invariant
            n == s@.len(),
            start <= n,
            trim_start_spec(s@) == trim_start_spec(s@.subrange(start as int, n as int)),
        decreases n - start,
    {
        let ghost sub = s@.subrange(start as int, n as int);
        assert(sub.drop_first() =~= s@.subrange(start + 1, n as int));
        start = start + 1;
    }
    assert(trim_start_spec(s@) == s@.subrange(start as int, n as int));
    assert(trim_spec(s@) == trim_end_spec(s@.subrange(start as int, n as int)));
    let mut end: usize = n;
    while end > start && is_whitespace_char(s[end - 1])
        invariant
            n == s@.len(),
            start <= end <= n,
            trim_spec(s@) == trim_end_spec(s@.subrange(start as int, end as int)),
        decreases end - start,
    {
        let ghost sub = s@.subrange(start as int, end as int);
        assert(sub.drop_last() =~= s@.subrange(start as int, end - 1));
        end = end - 1;
    }
    let mut r: Vec<char> = Vec::new();
    let mut i: usize = start;
    while i < end
        invariant
            n == s@.len(),
            start <= i <= end <= n,
            r@ == s@.subrange(start as int, i as int),
        decreases end - i,
    {
        r.push(s[i]);
        i = i + 1;
        assert(r@ =~= s@.subrange(start as int, i as int));
    }
    r
}

/// `s` starts with `prefix`.
pub open spec fn has_prefix(s: Seq<char>, prefix: Seq<char>) -> bool {
    prefix.len() <= s.len() && s.subrange(0, prefix.len() as int) == prefix
}

/// The signature text with surrounding whitespace and a `sha256=` or
/// `SHA256=` prefix removed.
pub open spec fn signature_digest_text(signature: Seq<char>) -> Seq<char> {
    let t = trim_spec(signature);
    if has_prefix(t, "sha256="@) {
        t.skip(7)
    } else if has_prefix(t, "SHA256="@) {
        t.skip(7)
    } else {
        t
    }
}

/// Whether `signature` is a valid signature of `body` under `secret`: its
/// digest text decodes, as hex or else as standard base64, to the
/// HMAC-SHA256 tag of the body.
pub open spec fn signature_matches(body: Seq<u8>, secret: Seq<u8>, signature: Seq<char>) -> bool {
    let tag = hmac_sha256_tag(secret, body);
    let text = signature_digest_text(signature);
    match hex_decoded(text) {
        Some(expected) => tag == expected,
        None => match base64_standard_decoded(text) {
            Some(expected) => tag == expected,
            None => false,
        },
    }
}

/// Returns whether the characters `s` start with `prefix`.
pub fn starts_with_chars(s: &[char], prefix: &str) -> (r: bool)
    ensures
        r == has_prefix(s@, prefix@),
{
    let p = chars_of(prefix);
    if p.len() > s.len() {
        return false;
    }
    let mut i: usize = 0;
    while i < p.len()
        invariant
            p@ == prefix@,
            p.len() <= s.len(),
            i <= p.len(),
            s@.subrange(0, i as int) == p@.subrange(0, i as int),
        decreases p.len() - i,
    {
        if s[i] != p[i] {
            assert(s@.subrange(0, p.len() as int)[i as int] != p@[i as int]);
            return false;
        }
        i = i + 1;
        assert(s@.subrange(0, i as int) =~= p@.subrange(0, i as int));
    }
    assert(p@.subrange(0, p.len() as int) =~= p@);
    true
}

/// The characters of `s` after its first `k`.
pub fn skip_chars(s: &[char], k: usize) -> (r: Vec<char>)
    requires
        k <= s.len(),
    ensures
        r@ == s@.skip(k as int),
{
    let mut r: Vec<char> = Vec::new();
    let mut i: usize = k;
    while i < s.len()
        invariant
            k <= i <= s.len(),
            r@ == s@.subrange(k as int, i as int),
        decreases s.len() - i,
    {
        r.push(s[i]);
        i = i + 1;
        assert(r@ =~= s@.subrange(k as int, i as int));
    }
    assert(r@ =~= s@.skip(k as int));
    r
}

/// Byte sequences compared in time independent of where they differ:
/// true exactly when they are equal.
pub fn constant_time_eq(left: &[u8], right: &[u8]) -> (r: bool)
    ensures
        r == (left@ == right@),
{
    if left.len() != right.len() {
        return false;
    }
    let mut acc: u8 = 0;
    let mut i: usize = 0;
    assert(left@.subrange(0, 0) =~= right@.subrange(0, 0));
    while i < left.len()
        invariant
            left.len() == right.len(),
            i <= left.len(),
            (acc == 0) == (left@.subrange(0, i as int) == right@.subrange(0, i as int)),
        decreases left.len() - i,
    {
        let a = left[i];
        let b = right[i];
        let next = acc | (a ^ b);
        assert((next == 0) == (acc == 0 && a == b)) by (bit_vector)
            requires
                next == acc | (a ^ b),
        ;
        proof {
            let l0 = left@.subrange(0, i as int);
            let r0 = right@.subrange(0, i as int);
            let l1 = left@.subrange(0, i + 1);
            let r1 = right@.subrange(0, i + 1);
            assert(l1 =~= l0.push(a));
            assert(r1 =~= r0.push(b));
            if l1 == r1 {
                assert(l0 =~= l1.drop_last());
                assert(r0 =~= r1.drop_last());
                assert(l1[i as int] == a);
                assert(r1[i as int] == b);
            }
            if l0 == r0 && a == b {
                assert(l1 =~= r1);
            }
        }
        acc = next;
        i = i + 1;
    }
    assert(left@.subrange(0, left.len() as int) =~= left@);
    assert(right@.subrange(0, right.len() as int) =~= right@);
    acc == 0
}

/// Verifies a webhook signature: true exactly when the signature text,
/// trimmed and without a `sha256=`/`SHA256=` prefix, is the hex or standard
/// base64 encoding of HMAC-SHA256(secret, body).
pub fn verify_signature(body: &[u8], secret: &[u8], signature: &str) -> (r: bool)
    ensures
        r == signature_matches(body@, secret@, signature@),
{
    let tag = hmac_sha256(secret, body);
    let chars = chars_of(signature);
    let trimmed = trim_whitespace(chars.as_slice());
    proof {
        reveal_strlit("sha256=");
        reveal_strlit("SHA256=");
    }
    let digest_chars = if starts_with_chars(trimmed.as_slice(), "sha256=") {
        skip_chars(trimmed.as_slice(), 7)
    } else if starts_with_chars(trimmed.as_slice(), "SHA256=") {
        skip_chars(trimmed.as_slice(), 7)
    } else {
        trimmed
    };
    let digest_text = string_from_chars(digest_chars.as_slice());
    assert(digest_text@ == signature_digest_text(signature@));
    match hex_decode(digest_text.as_str()) {
        Some(expected) => constant_time_eq(tag.as_slice(), expected.as_slice()),
        None => match base64_decode(digest_text.as_str()) {
            Some(expected) => constant_time_eq(tag.as_slice(), expected.as_slice()),
            None => false,
        },
    }
}

} // verus!

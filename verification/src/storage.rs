//! Object keys of stored events: Hive-style partitions by service, API and
//! JST calendar day.

use vstd::prelude::*;
use crate::text::{chars_of, string_from_chars, push_str, push_char, copy_str, char_range, decimal_text};
use crate::time::{UtcTimestamp, JST_OFFSET_SECONDS, UNIX_EPOCH_DAY, civil_date};
use chrono::{DateTime, FixedOffset};

verus! {

/// `s` without leading `/` characters.
pub open spec fn strip_leading_slashes(s: Seq<char>) -> Seq<char>
    decreases s.len(),
{
    if s.len() > 0 && s[0] == '/' {
        strip_leading_slashes(s.drop_first())
    } else {
        s
    }
}

/// `s` without trailing `/` characters.
pub open spec fn strip_trailing_slashes(s: Seq<char>) -> Seq<char>
    decreases s.len(),
{
    if s.len() > 0 && s.last() == '/' {
        strip_trailing_slashes(s.drop_last())
    } else {
        s
    }
}

/// `s` without leading and trailing `/` (`str::trim_matches('/')`).
pub open spec fn trim_slashes_spec(s: Seq<char>) -> Seq<char> {
    strip_trailing_slashes(strip_leading_slashes(s))
}

/// Returns `s` without leading and trailing `/` characters.
pub fn trim_slashes(s: &str) -> (r: String)
    ensures
        r@ == trim_slashes_spec(s@),
{
    let cs = chars_of(s);
    let n = cs.len();
    let mut start: usize = 0;
    assert(cs@.subrange(0, n as int) =~= cs@);
    while start < n && cs[start] == '/'
        invariant
            n == cs@.len(),
            cs@ == s@,
            start <= n,
            strip_leading_slashes(s@) == strip_leading_slashes(cs@.subrange(start as int, n as int)),
        decreases n - start,
    {
        let ghost sub = cs@.subrange(start as int, n as int);
        assert(sub.drop_first() =~= cs@.subrange(start + 1, n as int));
        start = start + 1;
    }
    assert(strip_leading_slashes(s@) == cs@.subrange(start as int, n as int));
    let mut end: usize = n;
    while end > start && cs[end - 1] == '/'
        invariant
            n == cs@.len(),
            start <= end <= n,
            trim_slashes_spec(s@) == strip_trailing_slashes(cs@.subrange(start as int, end as int)),
        decreases end - start,
    {
        let ghost sub = cs@.subrange(start as int, end as int);
        assert(sub.drop_last() =~= cs@.subrange(start as int, end - 1));
        end = end - 1;
    }
    let mut r: Vec<char> = Vec::new();
    let mut i: usize = start;
    while i < end
        invariant
            n == cs@.len(),
            start <= i <= end <= n,
            r@ == cs@.subrange(start as int, i as int),
        decreases end - i,
    {
        r.push(cs[i]);
        i = i + 1;
        assert(r@ =~= cs@.subrange(start as int, i as int));
    }
    string_from_chars(r.as_slice())
}

/// The character a partition value holds in place of `c`: the path and
/// query characters `/ = ? # [ ]` and space become `_`.
pub open spec fn partition_char(c: char) -> char {
    if c == '/' || c == '=' || c == '?' || c == '#' || c == '[' || c == ']' || c == ' ' {
        '_'
    } else {
        c
    }
}

/// A value made safe for a `name=value` path segment.
pub open spec fn partition_escape_spec(s: Seq<char>) -> Seq<char> {
    s.map_values(|c: char| partition_char(c))
}

/// Returns `value` with `/ = ? # [ ]` and space replaced by `_`.
pub fn partition_escape(value: &str) -> (r: String)
    ensures
        r@ == partition_escape_spec(value@),
{
    let cs = chars_of(value);
    let mut out = String::new();
    let mut i: usize = 0;
    while i < cs.len()
        invariant
            cs@ == value@,
            i <= cs.len(),
            out@ == cs@.subrange(0, i as int).map_values(|c: char| partition_char(c)),
        decreases cs.len() - i,
    {
        let c = cs[i];
        let e = if c == '/' || c == '=' || c == '?' || c == '#' || c == '[' || c == ']' || c == ' ' {
            '_'
        } else {
            c
        };
        push_char(&mut out, e);
        i = i + 1;
        assert(out@ =~= cs@.subrange(0, i as int).map_values(|c: char| partition_char(c)));
    }
    assert(cs@.subrange(0, cs.len() as int) =~= cs@);
    out
}

/// A number in decimal, zero-padded to at least `width` digits.
pub open spec fn zero_padded(n: nat, width: nat) -> Seq<char> {
    let t = decimal_text(n);
    if t.len() < width { Seq::new((width - t.len()) as nat, |i: int| '0') + t } else { t }
}

/// A year as `%Y` writes it: four digits or more for years 0 to 9999,
/// otherwise a sign before them.
pub open spec fn year_text(y: int) -> Seq<char> {
    if 0 <= y <= 9999 {
        zero_padded(y as nat, 4)
    } else if y > 9999 {
        seq!['+'] + zero_padded(y as nat, 4)
    } else {
        seq!['-'] + zero_padded((-y) as nat, 4)
    }
}

/// The `YYYY-MM-DD` text of the calendar day on which an instant falls at
/// the fixed UTC offset `offset_seconds`: the day of the shifted seconds,
/// written as `%Y-%m-%d` writes it.
#[verifier::opaque]
pub open spec fn offset_date_text(seconds: i64, nanos: u32, offset_seconds: i32) -> Seq<char> {
    let (y, m, d) = civil_date((seconds + offset_seconds) / 86_400 + UNIX_EPOCH_DAY);
    year_text(y) + seq!['-'] + zero_padded(m as nat, 2) + seq!['-'] + zero_padded(d as nat, 2)
}

/// Writes the calendar day of an instant at a fixed UTC offset as
/// `%Y-%m-%d` (`chrono`: `FixedOffset::east_opt`, `DateTime::with_timezone`,
/// `format`), which is `offset_date_text`.
#[verifier::external_body]
fn date_at_offset(received_at: UtcTimestamp, offset_seconds: i32) -> (r: String)
    requires
        received_at.valid(),
        -86_400 < offset_seconds < 86_400,
    ensures
        r@ == offset_date_text(received_at.seconds, received_at.nanos, offset_seconds),
{
    let offset = FixedOffset::east_opt(offset_seconds).unwrap();
    DateTime::from_timestamp(received_at.seconds, received_at.nanos).unwrap()
        .with_timezone(&offset).format("%Y-%m-%d").to_string()
}

/// The `YYYY-MM-DD` text of the JST calendar day of an instant.
pub open spec fn jst_date_text_of(seconds: i64, nanos: u32) -> Seq<char> {
    offset_date_text(seconds, nanos, JST_OFFSET_SECONDS as i32)
}

/// Returns the JST calendar day of an instant as `YYYY-MM-DD`.
pub fn jst_partition_date(received_at: UtcTimestamp) -> (r: String)
    requires
        received_at.valid(),
    ensures
        r@ == jst_date_text_of(received_at.seconds, received_at.nanos),
{
    date_at_offset(received_at, JST_OFFSET_SECONDS as i32)
}

/// The object key of an event:
/// `{prefix}/service={service}/api={api}/dt={JST day}/{event_id}.parquet`,
/// with the prefix trimmed of `/` and service and API escaped.
pub open spec fn s3_key_spec(
    prefix: Seq<char>,
    service: Seq<char>,
    api: Seq<char>,
    received_at: UtcTimestamp,
    event_id: Seq<char>,
) -> Seq<char> {
    trim_slashes_spec(prefix) + "/service="@ + partition_escape_spec(service) + "/api="@
        + partition_escape_spec(api) + "/dt="@ + jst_date_text_of(received_at.seconds, received_at.nanos) + "/"@
        + event_id + ".parquet"@
}

/// Builds the object key of an event received at `received_at`.
pub fn build_s3_key(
    prefix: &str,
    service: &str,
    api: &str,
    received_at: UtcTimestamp,
    event_id: &str,
) -> (r: String)
    requires
        received_at.valid(),
    ensures
        r@ == s3_key_spec(prefix@, service@, api@, received_at, event_id@),
{
    let mut key = trim_slashes(prefix);
    push_str(&mut key, "/service=");
    let s = partition_escape(service);
    push_str(&mut key, s.as_str());
    push_str(&mut key, "/api=");
    let a = partition_escape(api);
    push_str(&mut key, a.as_str());
    push_str(&mut key, "/dt=");
    let d = jst_partition_date(received_at);
    push_str(&mut key, d.as_str());
    push_str(&mut key, "/");
    push_str(&mut key, event_id);
    push_str(&mut key, ".parquet");
    key
}

/// The directory part of a key: everything before its last `/`, or the
/// whole key when it has none (`str::rsplit_once('/')`).
pub open spec fn key_dir_spec(key: Seq<char>) -> Seq<char> {
    if exists|i: int| 0 <= i < key.len() && key[i] == '/' {
        let i = choose|i: int|
            0 <= i < key.len() && key[i] == '/' && forall|j: int| i < j < key.len() ==> key[j] != '/';
        key.subrange(0, i)
    } else {
        key
    }
}

/// Returns the directory part of an object key.
pub fn partition_dir_from_key(key: &str) -> (r: String)
    ensures
        r@ == key_dir_spec(key@),
{
    let cs = chars_of(key);
    let mut i: usize = cs.len();
    while i > 0 && cs[i - 1] != '/'
        invariant
            cs@ == key@,
            i <= cs.len(),
            forall|j: int| i <= j < cs.len() ==> cs@[j] != '/',
        decreases i,
    {
        i = i - 1;
    }
    if i == 0 {
        assert(!exists|j: int| 0 <= j < key@.len() && key@[j] == '/');
        copy_str(key)
    } else {
        let k = (i - 1) as usize;
        assert(forall|j: int| k < j < key@.len() ==> key@[j] != '/');
        let ghost w = choose|w: int|
            0 <= w < key@.len() && key@[w] == '/' && forall|j: int| w < j < key@.len() ==> key@[j] != '/';
        assert(0 <= k < key@.len() && key@[k as int] == '/');
        assert(w == k) by {
            if w < k {
                assert(key@[k as int] != '/');
            } else if w > k {
                assert(key@[w] != '/');
            }
        }
        let dir = char_range(cs.as_slice(), 0, k);
        string_from_chars(dir.as_slice())
    }
}

/// The partition directory of an object key is the key without its file
/// name: `{prefix}/service={service}/api={api}/dt={JST day}`, whenever the
/// event id holds no `/`.
pub proof fn lemma_key_dir_of_s3_key(
    prefix: Seq<char>,
    service: Seq<char>,
    api: Seq<char>,
    received_at: UtcTimestamp,
    event_id: Seq<char>,
)
    requires
        forall|i: int| 0 <= i < event_id.len() ==> event_id[i] != '/',
    ensures
        key_dir_spec(s3_key_spec(prefix, service, api, received_at, event_id))
            == trim_slashes_spec(prefix) + "/service="@ + partition_escape_spec(service) + "/api="@
            + partition_escape_spec(api) + "/dt="@ + jst_date_text_of(received_at.seconds, received_at.nanos),
{
    let dir = trim_slashes_spec(prefix) + "/service="@ + partition_escape_spec(service) + "/api="@
        + partition_escape_spec(api) + "/dt="@ + jst_date_text_of(received_at.seconds, received_at.nanos);
    let tail = ".parquet"@;
    reveal_strlit(".parquet");
    reveal_strlit("/");
    let key = s3_key_spec(prefix, service, api, received_at, event_id);
    assert(key =~= dir + "/"@ + event_id + tail);
    let n = dir.len() as int;
    assert(key[n] == '/');
    assert forall|j: int| n < j < key.len() implies key[j] != '/' by {
        if j <= n + event_id.len() {
            assert(key[j] == event_id[j - n - 1]);
        } else {
            assert(key[j] == tail[j - n - 1 - event_id.len()]);
        }
    }
    let i = choose|i: int| 0 <= i < key.len() && key[i] == '/' && forall|j: int| i < j < key.len() ==> key[j] != '/';
    assert(i == n) by {
        if i < n {
            assert(key[n] != '/');
        } else if i > n {
            assert(key[i] != '/');
        }
    }
    assert(key.subrange(0, n) =~= dir);
}

} // verus!

//! Instants and JST calendar days.
//!
//! An instant is a count of seconds since 1970-01-01T00:00:00Z plus a
//! sub-second nanosecond part (up to 1,999,999,999 during a leap second),
//! within the range of the `chrono` crate. A calendar day is its day number
//! counted from 0001-01-01 (day 1) in the proleptic Gregorian calendar.
//! JST is UTC+09:00 with no daylight saving time.

use vstd::prelude::*;
use chrono::{DateTime, Datelike, NaiveDate, Utc};

verus! {

/// Seconds of the earliest instant `chrono` represents (-262143-01-01T00:00:00Z).
pub const MIN_INSTANT_SECONDS: i64 = -8_334_601_228_800;
/// Seconds of the latest instant `chrono` represents (+262142-12-31T23:59:59Z).
pub const MAX_INSTANT_SECONDS: i64 = 8_210_266_876_799;
/// Day number of the earliest representable date.
pub const MIN_DAY: i64 = -95_746_129;
/// Day number of the latest representable date.
pub const MAX_DAY: i64 = 95_745_399;
/// Day number of 1970-01-01.
pub const UNIX_EPOCH_DAY: i64 = 719_163;
/// Seconds in a day.
pub const SECONDS_PER_DAY: i64 = 86_400;
/// The offset of JST from UTC, in seconds.
pub const JST_OFFSET_SECONDS: i64 = 32_400;

/// An instant in UTC.
#[derive(Clone, Copy, Debug, PartialEq, Eq, Structural)]
pub struct UtcTimestamp {
    pub seconds: i64,
    pub nanos: u32,
}

/// The instant is one `chrono` can represent.
pub open spec fn valid_instant(seconds: int, nanos: int) -> bool {
    &&& MIN_INSTANT_SECONDS <= seconds <= MAX_INSTANT_SECONDS
    &&& 0 <= nanos < 2_000_000_000
    &&& nanos >= 1_000_000_000 ==> seconds % 60 == 59
}

impl UtcTimestamp {
    pub open spec fn valid(self) -> bool {
        valid_instant(self.seconds as int, self.nanos as int)
    }

    /// Whether this is an instant `chrono` can represent.
    pub fn is_valid(&self) -> (r: bool)
        ensures
            r == self.valid(),
    {
        if self.seconds < MIN_INSTANT_SECONDS || self.seconds > MAX_INSTANT_SECONDS || self.nanos >= 2_000_000_000 {
            return false;
        }
        let shifted: i64 = self.seconds - MIN_INSTANT_SECONDS;
        assert(shifted % 60 == self.seconds as int % 60) by (nonlinear_arith)
            requires
                shifted == self.seconds - MIN_INSTANT_SECONDS,
                shifted >= 0,
                MIN_INSTANT_SECONDS == -60 * 138_910_020_480,
        {
            vstd::arithmetic::div_mod::lemma_mod_multiples_vanish(138_910_020_480, self.seconds as int, 60);
        }
        self.nanos < 1_000_000_000 || shifted % 60 == 59
    }
}

/// The instant an RFC 3339 text denotes, as seconds and nanoseconds, or
/// `None` if `chrono` rejects the text.
pub uninterp spec fn rfc3339_instant(text: Seq<char>) -> Option<(i64, u32)>;

/// Parses an RFC 3339 date-time text (`chrono::DateTime::parse_from_rfc3339`)
/// and converts it to UTC. Which texts are accepted, and the instant each
/// denotes, is named by `rfc3339_instant` and not stated here.
#[verifier::external_body]
pub(crate) fn parse_rfc3339(text: &str) -> (r: Option<UtcTimestamp>)
    ensures
        match r {
            Some(t) => rfc3339_instant(text@) == Some((t.seconds, t.nanos)) && t.valid(),
            None => rfc3339_instant(text@) is None,
        },
{
    match DateTime::parse_from_rfc3339(text) {
        Ok(d) => {
            let u = d.with_timezone(&Utc);
            Some(UtcTimestamp { seconds: u.timestamp(), nanos: u.timestamp_subsec_nanos() })
        },
        Err(_) => None,
    }
}

/// The RFC 3339 text `chrono` writes for an instant in UTC.
pub uninterp spec fn rfc3339_text(seconds: i64, nanos: u32) -> Seq<char>;

/// Writes an instant as RFC 3339 text in UTC (`chrono::DateTime::to_rfc3339`),
/// such as `2026-06-29T12:00:00+00:00`. The text is named by `rfc3339_text`.
#[verifier::external_body]
pub(crate) fn to_rfc3339(t: UtcTimestamp) -> (s: String)
    requires
        t.valid(),
    ensures
        s@ == rfc3339_text(t.seconds, t.nanos),
{
    match DateTime::from_timestamp(t.seconds, t.nanos) {
        Some(d) => d.to_rfc3339(),
        None => String::new(),
    }
}

/// The time elapsed since 1970-01-01T00:00:00Z on the system clock, as
/// whole seconds and the nanoseconds past them
/// (`SystemTime::now().duration_since(UNIX_EPOCH)`), or `None` when the
/// clock reads earlier. Which reading comes back is not stated; the
/// nanoseconds are below one second, as `Duration::subsec_nanos` documents.
#[verifier::external_body]
pub(crate) fn unix_time_now() -> (r: Option<(u64, u32)>)
    ensures
        r matches Some((_, nanos)) ==> nanos < 1_000_000_000,
{
    std::time::SystemTime::now().duration_since(std::time::UNIX_EPOCH).ok().map(|d| (d.as_secs(), d.subsec_nanos()))
}

/// The instant of a reading of the clock, when it is one `chrono`
/// represents.
pub(crate) fn instant_of_reading(reading: Option<(u64, u32)>) -> (r: Option<UtcTimestamp>)
    requires
        reading matches Some((_, nanos)) ==> nanos < 1_000_000_000,
    ensures
        match reading {
            Some((seconds, nanos)) => if seconds <= MAX_INSTANT_SECONDS {
                r == Some(UtcTimestamp { seconds: seconds as i64, nanos })
            } else {
                r is None
            },
            None => r is None,
        },
        r matches Some(t) ==> t.valid() && t.seconds >= 0 && t.nanos < 1_000_000_000,
{
    match reading {
        Some((seconds, nanos)) => if seconds <= 8_210_266_876_799u64 {
            Some(UtcTimestamp { seconds: seconds as i64, nanos })
        } else {
            None
        },
        None => None,
    }
}

/// The current instant, or `None` when the system clock reads before 1970
/// or past the last instant `chrono` represents. Which instant comes back
/// is not stated.
pub(crate) fn current_timestamp() -> (r: Option<UtcTimestamp>)
    ensures
        r matches Some(t) ==> t.valid() && t.seconds >= 0 && t.nanos < 1_000_000_000,
{
    instant_of_reading(unix_time_now())
}

/// The (year, month, day) of calendar day `day` in the proleptic Gregorian
/// calendar, days counted with 0001-01-01 as day 1 (as
/// `NaiveDate::num_days_from_ce` counts them): the days since 0000-03-01
/// split into 400-year eras, years of the era, and months from March.
#[verifier::opaque]
pub open spec fn civil_date(day: int) -> (int, int, int) {
    let z = day - UNIX_EPOCH_DAY + 719_468;
    let era = z / 146_097;
    let doe = z - era * 146_097;
    let yoe = (doe - doe / 1460 + doe / 36_524 - doe / 146_096) / 365;
    let doy = doe - (365 * yoe + yoe / 4 - yoe / 100);
    let mp = (5 * doy + 2) / 153;
    let d = doy - (153 * mp + 2) / 5 + 1;
    let m = if mp < 10 { mp + 3 } else { mp - 9 };
    (yoe + era * 400 + if m <= 2 { 1int } else { 0int }, m, d)
}

/// The day of the month (1 to 31) of a calendar day.
pub open spec fn day_of_month_of(day: i64) -> u32 {
    civil_date(day as int).2 as u32
}

/// Returns the day of the month of a calendar day (`chrono::Datelike::day`
/// of `NaiveDate::from_num_days_from_ce_opt`), which lies in 1 to 31.
#[verifier::external_body]
pub(crate) fn day_of_month(day: i64) -> (d: u32)
    requires
        MIN_DAY <= day <= MAX_DAY,
    ensures
        d == day_of_month_of(day),
        1 <= d <= 31,
{
    match NaiveDate::from_num_days_from_ce_opt(day as i32) {
        Some(date) => date.day(),
        None => 1,
    }
}

/// Microseconds since the epoch, the sub-second part truncated.
pub open spec fn micros_of(t: UtcTimestamp) -> int {
    t.seconds * 1_000_000 + t.nanos / 1000
}

/// Milliseconds since the epoch, the sub-second part truncated.
pub open spec fn millis_of(t: UtcTimestamp) -> int {
    t.seconds * 1000 + t.nanos / 1_000_000
}

/// Returns the instant in microseconds since the epoch.
pub fn timestamp_micros(t: UtcTimestamp) -> (r: i64)
    requires
        t.valid(),
    ensures
        r == micros_of(t),
{
    t.seconds * 1_000_000 + (t.nanos / 1000) as i64
}

/// Returns the instant in milliseconds since the epoch.
pub fn timestamp_millis(t: UtcTimestamp) -> (r: i64)
    requires
        t.valid(),
    ensures
        r == millis_of(t),
{
    t.seconds * 1000 + (t.nanos / 1_000_000) as i64
}

/// The JST calendar day of an instant.
pub open spec fn jst_day_spec(seconds: int) -> int {
    (seconds + 32_400) / 86_400 + 719_163
}

/// A multiple of a day that makes every shifted instant non-negative.
const DAY_SHIFT: i64 = 100_000_000;

proof fn lemma_div_shift(s: int, k: int, d: int)
    requires
        d > 0,
    ensures
        (s + k * d) / d == s / d + k,
{
    let q = s / d;
    let r = s % d;
    vstd::arithmetic::div_mod::lemma_fundamental_div_mod(s, d);
    assert(s + k * d == d * (q + k) + r) by (nonlinear_arith)
        requires s == d * q + r;
    vstd::arithmetic::div_mod::lemma_div_multiples_vanish_fancy(q + k, r, d);
}

proof fn lemma_mod_shift(s: int, k: int, d: int)
    requires
        d > 0,
    ensures
        (s + k * d) % d == s % d,
{
    assert(s + k * d == d * k + s) by (nonlinear_arith);
    vstd::arithmetic::div_mod::lemma_mod_multiples_vanish(k, s, d);
}

/// An instant lies within its JST calendar day.
pub proof fn lemma_jst_day_bounds(seconds: int)
    ensures
        (jst_day_spec(seconds) - 719_163) * 86_400 - 32_400 <= seconds,
        seconds < (jst_day_spec(seconds) - 719_163) * 86_400 - 32_400 + 86_400,
{
    vstd::arithmetic::div_mod::lemma_fundamental_div_mod(seconds + 32_400, 86_400);
}

/// The JST wall-clock times of a calendar day fall on that day.
pub proof fn lemma_jst_day_of_instant(day: int, hour: int, minute: int, second: int)
    requires
        0 <= hour < 24,
        0 <= minute < 60,
        0 <= second < 60,
    ensures
        jst_day_spec(jst_instant_seconds(day, hour, minute, second)) == day,
{
    let x = jst_instant_seconds(day, hour, minute, second);
    lemma_jst_day_bounds(x);
    let q = jst_day_spec(x);
    assert((q - 719_163) * 86_400 <= (day - 719_163) * 86_400 + hour * 3600 + minute * 60 + second);
    assert((day - 719_163) * 86_400 + hour * 3600 + minute * 60 + second < (q - 719_163) * 86_400 + 86_400);
    assert(q == day) by (nonlinear_arith)
        requires
            (q - 719_163) * 86_400 <= (day - 719_163) * 86_400 + hour * 3600 + minute * 60 + second,
            (day - 719_163) * 86_400 + hour * 3600 + minute * 60 + second < (q - 719_163) * 86_400 + 86_400,
            0 <= hour * 3600 + minute * 60 + second < 86_400;
}

/// Returns the JST calendar day of an instant.
pub fn jst_day(t: UtcTimestamp) -> (d: i64)
    requires
        t.valid(),
    ensures
        d == jst_day_spec(t.seconds as int),
        MIN_DAY <= d <= MAX_DAY + 1,
{
    let shifted = t.seconds + JST_OFFSET_SECONDS + DAY_SHIFT * SECONDS_PER_DAY;
    assert(shifted >= 0);
    let q = shifted / SECONDS_PER_DAY;
    proof {
        lemma_div_shift(t.seconds + 32_400, 100_000_000, 86_400);
    }
    q - DAY_SHIFT + UNIX_EPOCH_DAY
}

/// Day of the week of a calendar day, 1 for Monday to 7 for Sunday
/// (0001-01-01 is a Monday).
pub open spec fn weekday_from_monday(day: int) -> int {
    (day - 1) % 7 + 1
}

/// Returns the day of the week of a calendar day, 1 for Monday to 7 for Sunday.
pub fn weekday_number(day: i64) -> (w: u32)
    requires
        MIN_DAY <= day <= MAX_DAY,
    ensures
        w == weekday_from_monday(day as int),
        1 <= w <= 7,
{
    let shifted = day - 1 + 7 * 20_000_000;
    proof {
        lemma_mod_shift(day - 1, 20_000_000, 7);
    }
    (shifted % 7) as u32 + 1
}

/// The instant of a JST wall-clock time on a calendar day.
pub open spec fn jst_instant_seconds(day: int, hour: int, minute: int, second: int) -> int {
    (day - 719_163) * 86_400 + hour * 3600 + minute * 60 + second - 32_400
}

/// Returns the instant of the JST wall-clock time `hour:minute:second` on a
/// calendar day.
pub fn jst_datetime(day: i64, hour: u32, minute: u32, second: u32) -> (t: UtcTimestamp)
    requires
        hour < 24,
        minute < 60,
        second < 60,
        MIN_DAY <= day <= MAX_DAY,
        valid_instant(jst_instant_seconds(day as int, hour as int, minute as int, second as int), 0),
    ensures
        t.seconds == jst_instant_seconds(day as int, hour as int, minute as int, second as int),
        t.nanos == 0,
        t.valid(),
{
    let secs = (day - UNIX_EPOCH_DAY) * SECONDS_PER_DAY + (hour as i64) * 3600 + (minute as i64) * 60 + second as i64 - JST_OFFSET_SECONDS;
    UtcTimestamp { seconds: secs, nanos: 0 }
}

} // verus!

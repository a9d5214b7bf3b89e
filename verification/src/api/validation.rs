//! Validation of metrics request parameters.

use vstd::prelude::*;
use crate::api::error::ApiError;
use crate::text::str_equal;
use crate::time::{UtcTimestamp, current_timestamp, timestamp_millis, millis_of};

verus! {

/// The longest span of days a request may cover.
pub const MAX_DAYS: u32 = 3660;

/// Checks a span of days, `default` when absent: it must lie in 1 to 3660.
pub fn validate_days_with_default(days: Option<u32>, default: u32) -> (r: Result<u32, ApiError>)
    ensures
        ({
            let d = match days { Some(x) => x, None => default };
            if 1 <= d <= 3660 {
                r == Ok::<u32, ApiError>(d)
            } else {
                r matches Err(ApiError::InvalidQuery(m)) && m@ == "days must be between 1 and 3660"@
            }
        }),
{
    let d = match days {
        Some(x) => x,
        None => default,
    };
    if 1 <= d && d <= MAX_DAYS {
        Ok(d)
    } else {
        Err(ApiError::InvalidQuery("days must be between 1 and 3660"))
    }
}

/// Checks a span of days, 30 when absent.
pub fn validate_days(days: Option<u32>) -> (r: Result<u32, ApiError>)
    ensures
        ({
            let d = match days { Some(x) => x, None => 30 };
            if 1 <= d <= 3660 {
                r == Ok::<u32, ApiError>(d)
            } else {
                r matches Err(ApiError::InvalidQuery(m)) && m@ == "days must be between 1 and 3660"@
            }
        }),
{
    validate_days_with_default(days, 30)
}

/// The unit durations to publication are reported in.
#[derive(Clone, Copy, Debug, PartialEq, Eq, Structural)]
pub enum PublishDurationUnit {
    Days,
    Hours,
}

impl PublishDurationUnit {
    /// The SQL divisor turning seconds into this unit, and the name of the
    /// column the averages are reported in.
    pub fn sql_parts(self) -> (r: (&'static str, &'static str))
        ensures
            self == PublishDurationUnit::Days ==> r.0@ == "86400.0"@ && r.1@ == "avg_days"@,
            self == PublishDurationUnit::Hours ==> r.0@ == "3600.0"@ && r.1@ == "avg_hours"@,
    {
        match self {
            PublishDurationUnit::Days => ("86400.0", "avg_days"),
            PublishDurationUnit::Hours => ("3600.0", "avg_hours"),
        }
    }
}

/// Reads a duration unit, `days` when absent: `days` or `hours`.
pub fn validate_publish_duration_unit(unit: Option<&str>) -> (r: Result<PublishDurationUnit, ApiError>)
    ensures
        ({
            let u = match unit { Some(x) => x@, None => "days"@ };
            if u == "days"@ {
                r == Ok::<PublishDurationUnit, ApiError>(PublishDurationUnit::Days)
            } else if u == "hours"@ {
                r == Ok::<PublishDurationUnit, ApiError>(PublishDurationUnit::Hours)
            } else {
                r matches Err(ApiError::InvalidQuery(m)) && m@ == "unit must be days or hours"@
            }
        }),
{
    let u = match unit {
        Some(x) => x,
        None => "days",
    };
    if str_equal(u, "days") {
        Ok(PublishDurationUnit::Days)
    } else if str_equal(u, "hours") {
        Ok(PublishDurationUnit::Hours)
    } else {
        Err(ApiError::InvalidQuery("unit must be days or hours"))
    }
}

/// Checks a row limit, 20 when absent: it must lie in 1 to 1000.
pub fn validate_limit(limit: Option<u32>) -> (r: Result<u32, ApiError>)
    ensures
        ({
            let l = match limit { Some(x) => x, None => 20 };
            if 1 <= l <= 1000 {
                r == Ok::<u32, ApiError>(l)
            } else {
                r matches Err(ApiError::InvalidQuery(m)) && m@ == "limit must be between 1 and 1000"@
            }
        }),
{
    let l = match limit {
        Some(x) => x,
        None => 20,
    };
    if 1 <= l && l <= 1000 {
        Ok(l)
    } else {
        Err(ApiError::InvalidQuery("limit must be between 1 and 1000"))
    }
}

/// The longest time range a request may cover: 3660 days, in milliseconds.
pub const MAX_CALENDAR_RANGE_MS: i64 = 316_224_000_000;
/// The range covered when none is given: 365 days, in milliseconds.
pub const DEFAULT_CALENDAR_RANGE_MS: i64 = 31_536_000_000;

/// The span of a given range can be computed: it is not wider than the
/// integers hold.
pub open spec fn range_computable(from: Option<i64>, to: Option<i64>) -> bool {
    (from matches Some(f) && to matches Some(t) && f <= t) ==> to->0 - from->0 <= i64::MAX
}

/// The outcome of checking a time range in epoch milliseconds when the
/// clock reads `now_ms`: both ends given, in order and at most 3660 days
/// apart, are taken as they are; neither given means the 365 days up to
/// now; anything else is refused.
pub open spec fn time_range_outcome(from: Option<i64>, to: Option<i64>, now_ms: i64) -> Result<(i64, i64), Seq<char>> {
    match (from, to) {
        (Some(f), Some(t)) => if f > t {
            Err("from must be less than or equal to to"@)
        } else if t - f > MAX_CALENDAR_RANGE_MS {
            Err("time range must not exceed 3660 days"@)
        } else {
            Ok((f, t))
        },
        (None, None) => Ok(((now_ms - DEFAULT_CALENDAR_RANGE_MS) as i64, now_ms)),
        _ => Err("from and to must both be provided"@),
    }
}

/// The result matches an outcome: the same range, or `InvalidQuery` with
/// the same message.
pub open spec fn range_result_matches(r: Result<(i64, i64), ApiError>, o: Result<(i64, i64), Seq<char>>) -> bool {
    match o {
        Ok(range) => r == Ok::<(i64, i64), ApiError>(range),
        Err(m) => r matches Err(ApiError::InvalidQuery(e)) && e@ == m,
    }
}

/// Checks a time range when the clock reads `now_ms`.
pub fn validate_time_range_at(from: Option<i64>, to: Option<i64>, now_ms: i64) -> (r: Result<(i64, i64), ApiError>)
    requires
        range_computable(from, to),
        now_ms >= i64::MIN + DEFAULT_CALENDAR_RANGE_MS,
    ensures
        range_result_matches(r, time_range_outcome(from, to, now_ms)),
{
    match (from, to) {
        (Some(from_ms), Some(to_ms)) => {
            if from_ms > to_ms {
                return Err(ApiError::InvalidQuery("from must be less than or equal to to"));
            }
            if to_ms - from_ms > MAX_CALENDAR_RANGE_MS {
                return Err(ApiError::InvalidQuery("time range must not exceed 3660 days"));
            }
            Ok((from_ms, to_ms))
        },
        (None, None) => Ok((now_ms - DEFAULT_CALENDAR_RANGE_MS, now_ms)),
        _ => Err(ApiError::InvalidQuery("from and to must both be provided")),
    }
}

/// Checks a time range against a reading of the clock: a clock that could
/// not be read as an instant gives `Clock`; otherwise the range the clock
/// gives, when neither end is given, ends at the reading in epoch
/// milliseconds.
pub fn validate_time_range_at_reading(from: Option<i64>, to: Option<i64>, reading: Option<UtcTimestamp>) -> (r: Result<(i64, i64), ApiError>)
    requires
        range_computable(from, to),
        reading matches Some(now) ==> now.valid() && now.seconds >= 0,
    ensures
        reading is None ==> r matches Err(ApiError::Clock),
        reading matches Some(now) ==> range_result_matches(r, time_range_outcome(from, to, millis_of(now) as i64)),
{
    match reading {
        Some(now) => {
            let now_ms = timestamp_millis(now);
            validate_time_range_at(from, to, now_ms)
        },
        None => Err(ApiError::Clock),
    }
}

/// With neither end given, the range ends at the clock's reading in epoch
/// milliseconds and starts 365 days of milliseconds before it; with both
/// given in order and at most 3660 days apart, it is exactly them; ends out
/// of order, too far apart, or only one of them given are refused.
pub proof fn lemma_default_range_ends_now(now: UtcTimestamp, f: i64, t: i64)
    requires
        now.valid(),
        now.seconds >= 0,
    ensures
        time_range_outcome(None, None, millis_of(now) as i64)
            == Ok::<(i64, i64), Seq<char>>(((millis_of(now) - 365 * 86_400_000) as i64, millis_of(now) as i64)),
        millis_of(now) == now.seconds * 1000 + now.nanos / 1_000_000,
        f <= t && t - f <= 3660 * 86_400_000 ==> time_range_outcome(Some(f), Some(t), millis_of(now) as i64)
            == Ok::<(i64, i64), Seq<char>>((f, t)),
        f > t || t - f > 3660 * 86_400_000 ==> time_range_outcome(Some(f), Some(t), millis_of(now) as i64) is Err,
        time_range_outcome(Some(f), None, millis_of(now) as i64) is Err,
        time_range_outcome(None, Some(t), millis_of(now) as i64) is Err,
{
}

/// Checks a time range against the current clock; when neither end is
/// given, the range is the 365 days up to the moment of the call, the
/// clock's instant in epoch milliseconds. A clock that cannot be read as an
/// instant gives `Clock`.
pub fn validate_time_range(from: Option<i64>, to: Option<i64>) -> (r: Result<(i64, i64), ApiError>)
    requires
        range_computable(from, to),
    ensures
        r is Err && r->Err_0 is Clock
            || exists|now: UtcTimestamp| now.valid() && now.seconds >= 0 && now.nanos < 1_000_000_000
                && range_result_matches(r, time_range_outcome(from, to, millis_of(now) as i64)),
{
    validate_time_range_at_reading(from, to, current_timestamp())
}

} // verus!

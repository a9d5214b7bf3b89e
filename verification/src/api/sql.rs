//! The SQL the metrics API runs against the Hive-partitioned event files.

use vstd::prelude::*;
use crate::text::{chars_of, copy_str, push_str, push_char, concat_texts, concat_strs, u64_text, decimal_text};
use crate::api::validation::PublishDurationUnit;
use crate::signature::{trim_whitespace, trim_spec, has_prefix, starts_with_chars, skip_chars};
use vstd::string::StrSliceExecFns;
use crate::storage::strip_trailing_slashes;

verus! {

/// A text with every `'` doubled, for use inside a SQL string literal.
pub open spec fn sql_escaped(s: Seq<char>) -> Seq<char>
    decreases s.len(),
{
    if s.len() == 0 {
        Seq::empty()
    } else {
        sql_escaped(s.drop_last()) + if s.last() == '\'' { seq!['\'', '\''] } else { seq![s.last()] }
    }
}

/// Escapes a text for use inside a SQL string literal by doubling `'`.
pub fn sql_string_literal(value: &str) -> (r: String)
    ensures
        r@ == sql_escaped(value@),
{
    let cs = chars_of(value);
    let mut out = String::new();
    let mut i: usize = 0;
    while i < cs.len()
        invariant
            cs@ == value@,
            i <= cs.len(),
            out@ == sql_escaped(cs@.subrange(0, i as int)),
        decreases cs.len() - i,
    {
        assert(cs@.subrange(0, i + 1).drop_last() =~= cs@.subrange(0, i as int));
        if cs[i] == '\'' {
            push_char(&mut out, '\'');
            push_char(&mut out, '\'');
            assert(out@ =~= sql_escaped(cs@.subrange(0, i + 1)));
        } else {
            push_char(&mut out, cs[i]);
            assert(out@ =~= sql_escaped(cs@.subrange(0, i + 1)));
        }
        i = i + 1;
    }
    assert(cs@.subrange(0, cs.len() as int) =~= cs@);
    out
}

/// A text with every `''` read as one `'`, left to right
/// (`str::replace("''", "'")`).
pub open spec fn sql_unescaped(t: Seq<char>) -> Seq<char>
    decreases t.len(),
{
    if t.len() == 0 {
        Seq::empty()
    } else if t.len() >= 2 && t[0] == '\'' && t[1] == '\'' {
        seq!['\''] + sql_unescaped(t.skip(2))
    } else {
        seq![t[0]] + sql_unescaped(t.skip(1))
    }
}

proof fn lemma_sql_escaped_concat(a: Seq<char>, b: Seq<char>)
    ensures
        sql_escaped(a + b) == sql_escaped(a) + sql_escaped(b),
    decreases b.len(),
{
    if b.len() == 0 {
        assert(a + b =~= a);
        assert(sql_escaped(b) =~= Seq::<char>::empty());
        assert(sql_escaped(a) + sql_escaped(b) =~= sql_escaped(a));
    } else {
        assert((a + b).drop_last() =~= a + b.drop_last());
        lemma_sql_escaped_concat(a, b.drop_last());
        let tail = if b.last() == '\'' { seq!['\'', '\''] } else { seq![b.last()] };
        assert(sql_escaped(a + b) =~= sql_escaped(a) + sql_escaped(b.drop_last()) + tail);
        assert(sql_escaped(a) + sql_escaped(b) =~= sql_escaped(a) + (sql_escaped(b.drop_last()) + tail));
    }
}

/// Undoubling the quotes of an escaped text gives the text back, so the
/// escaped text between two quotes is one SQL string literal for it.
pub proof fn lemma_sql_escape_round_trip(value: Seq<char>)
    ensures
        sql_unescaped(sql_escaped(value)) == value,
    decreases value.len(),
{
    if value.len() > 0 {
        let c = value[0];
        let rest = value.skip(1);
        assert(value =~= seq![c] + rest);
        lemma_sql_escaped_concat(seq![c], rest);
        assert(seq![c].drop_last() =~= Seq::<char>::empty());
        assert(sql_escaped(Seq::<char>::empty()) =~= Seq::<char>::empty());
        assert(sql_escaped(seq![c].drop_last()) =~= Seq::<char>::empty());
        assert(seq![c].last() == c);
        lemma_sql_escape_round_trip(rest);
        let e = sql_escaped(value);
        if c == '\'' {
            assert(sql_escaped(seq![c]) =~= seq!['\'', '\'']);
            assert(e =~= seq!['\'', '\''] + sql_escaped(rest));
            assert(e.skip(2) =~= sql_escaped(rest));
        } else {
            assert(sql_escaped(seq![c]) =~= seq![c]);
            assert(e =~= seq![c] + sql_escaped(rest));
            assert(e.skip(1) =~= sql_escaped(rest));
        }
    } else {
        assert(sql_escaped(value) =~= Seq::<char>::empty());
    }
}

/// The table expression reading every event file under `events_path`.
pub open spec fn read_parquet_sql_spec(events_path: Seq<char>) -> Seq<char> {
    "read_parquet('"@ + sql_escaped(events_path) + "', hive_partitioning = true, union_by_name = true)"@
}

/// Returns the table expression reading every event file under a path.
pub fn read_parquet_sql(events_path: &str) -> (r: String)
    ensures
        r@ == read_parquet_sql_spec(events_path@),
{
    let mut r = copy_str("read_parquet('");
    let escaped = sql_string_literal(events_path);
    push_str(&mut r, escaped.as_str());
    push_str(&mut r, "', hive_partitioning = true, union_by_name = true)");
    r
}

/// `s` with every leading repetition of `prefix` removed
/// (`str::trim_start_matches`).
pub open spec fn strip_repeated_prefix(s: Seq<char>, prefix: Seq<char>) -> Seq<char>
    decreases s.len(),
{
    if prefix.len() > 0 && has_prefix(s, prefix) {
        strip_repeated_prefix(s.skip(prefix.len() as int), prefix)
    } else {
        s
    }
}

fn strip_prefix_repeatedly(s: Vec<char>, prefix: &str) -> (r: Vec<char>)
    ensures
        r@ == strip_repeated_prefix(s@, prefix@),
{
    let ghost target = strip_repeated_prefix(s@, prefix@);
    let mut cur = s;
    if prefix.unicode_len() == 0 {
        return cur;
    }
    loop
        invariant
            prefix@.len() > 0,
            target == strip_repeated_prefix(cur@, prefix@),
            target == strip_repeated_prefix(s@, prefix@),
        decreases cur@.len(),
    {
        if !starts_with_chars(cur.as_slice(), prefix) {
            return cur;
        }
        cur = skip_chars(cur.as_slice(), prefix.unicode_len());
    }
}

/// An S3 endpoint in the form DuckDB takes: trimmed, without a leading
/// `http://` or `https://`, without trailing `/`.
pub open spec fn duckdb_endpoint_spec(endpoint: Seq<char>) -> Seq<char> {
    strip_trailing_slashes(strip_repeated_prefix(strip_repeated_prefix(trim_spec(endpoint), "http://"@), "https://"@))
}

/// Normalizes an S3 endpoint URL into the host form DuckDB takes.
pub fn normalize_duckdb_s3_endpoint(endpoint: &str) -> (r: String)
    ensures
        r@ == duckdb_endpoint_spec(endpoint@),
{
    let cs = chars_of(endpoint);
    let trimmed = trim_whitespace(cs.as_slice());
    let no_http = strip_prefix_repeatedly(trimmed, "http://");
    let no_https = strip_prefix_repeatedly(no_http, "https://");
    let n = no_https.len();
    let mut end: usize = n;
    assert(no_https@.subrange(0, n as int) =~= no_https@);
    while end > 0 && no_https[end - 1] == '/'
        invariant
            end <= n,
            n == no_https@.len(),
            strip_trailing_slashes(no_https@) == strip_trailing_slashes(no_https@.subrange(0, end as int)),
        decreases end,
    {
        assert(no_https@.subrange(0, end as int).drop_last() =~= no_https@.subrange(0, end - 1));
        end = end - 1;
    }
    let kept = crate::text::char_range(no_https.as_slice(), 0, end);
    crate::text::string_from_chars(kept.as_slice())
}

/// The decimal text of a signed number.
pub open spec fn signed_decimal_text(x: int) -> Seq<char> {
    if x < 0 { seq!['-'] + decimal_text((-x) as nat) } else { decimal_text(x as nat) }
}

/// Writes a signed number in decimal.
pub fn i64_text(x: i64) -> (r: String)
    ensures
        r@ == signed_decimal_text(x as int),
{
    if x < 0 {
        let magnitude: u64 = (-(x as i128)) as u64;
        let mut r = String::new();
        push_char(&mut r, '-');
        let digits = u64_text(magnitude);
        push_str(&mut r, digits.as_str());
        assert(r@ =~= seq!['-'] + decimal_text((-x) as nat));
        r
    } else {
        u64_text(x as u64)
    }
}

/// The suffix turning a JST calendar day into the instant it starts.
pub const PARTITION_TIME_JST_SUFFIX: &'static str = "T00:00:00+09:00";

/// Returns the instant text of the start of a JST calendar day `dt`.
pub fn format_partition_time(dt: &str) -> (r: String)
    ensures
        r@ == dt@ + PARTITION_TIME_JST_SUFFIX@,
{
    let mut r = copy_str(dt);
    push_str(&mut r, PARTITION_TIME_JST_SUFFIX);
    r
}

/// The common table expression `bounds` holding the first and last JST
/// calendar days of a range of epoch milliseconds.
pub open spec fn bounds_cte_spec(from_ms: i64, to_ms: i64) -> Seq<char> {
    "bounds AS (\n          SELECT\n            CAST(epoch_ms("@ + signed_decimal_text(from_ms as int)
        + ") + INTERVAL '9 HOURS' AS DATE) AS start_date,\n            CAST(epoch_ms("@
        + signed_decimal_text(to_ms as int) + ") + INTERVAL '9 HOURS' AS DATE) AS end_date\n        )"@
}

/// Returns the `bounds` expression of a range of epoch milliseconds.
pub fn time_range_bounds_cte(from_ms: i64, to_ms: i64) -> (r: String)
    ensures
        r@ == bounds_cte_spec(from_ms, to_ms),
{
    let mut r = copy_str("bounds AS (\n          SELECT\n            CAST(epoch_ms(");
    let f = i64_text(from_ms);
    push_str(&mut r, f.as_str());
    push_str(&mut r, ") + INTERVAL '9 HOURS' AS DATE) AS start_date,\n            CAST(epoch_ms(");
    let t = i64_text(to_ms);
    push_str(&mut r, t.as_str());
    push_str(&mut r, ") + INTERVAL '9 HOURS' AS DATE) AS end_date\n        )");
    r
}

/// The SQL divisor of a unit.
pub open spec fn unit_divisor(u: PublishDurationUnit) -> Seq<char> {
    match u {
        PublishDurationUnit::Days => "86400.0"@,
        PublishDurationUnit::Hours => "3600.0"@,
    }
}

/// The column a unit's averages are reported in.
pub open spec fn unit_column(u: PublishDurationUnit) -> Seq<char> {
    match u {
        PublishDurationUnit::Days => "avg_days"@,
        PublishDurationUnit::Hours => "avg_hours"@,
    }
}

/// Daily event counts over the JST days of the range, zero-filled.
pub open spec fn calendar_heatmap_sql_spec(events_sql: Seq<char>, from_ms: i64, to_ms: i64) -> Seq<char> {
    concat_texts(seq!["\n        WITH "@, bounds_cte_spec(from_ms, to_ms), ",\n        calendar AS (\n          SELECT CAST(day AS DATE) AS dt\n          FROM generate_series(\n            (SELECT start_date FROM bounds),\n            (SELECT end_date FROM bounds),\n            INTERVAL 1 DAY\n          ) AS series(day)\n        ),\n        daily AS (\n          SELECT\n            dt,\n            COUNT(*) AS event_count\n          FROM "@, events_sql, "\n          WHERE\n            dt >= (SELECT start_date FROM bounds)\n            AND dt <= (SELECT end_date FROM bounds)\n          GROUP BY dt\n        )\n        SELECT\n          CONCAT(CAST(calendar.dt AS VARCHAR), 'T00:00:00+09:00') AS time,\n          COALESCE(daily.event_count, 0) AS value\n        FROM calendar\n        LEFT JOIN daily ON daily.dt = calendar.dt\n        ORDER BY calendar.dt\n        "@])
}

/// Returns the query of the calendar heatmap metric.
pub fn calendar_heatmap_sql(events_sql: &str, from_ms: i64, to_ms: i64) -> (r: String)
    ensures
        r@ == calendar_heatmap_sql_spec(events_sql@, from_ms, to_ms),
{
    let bounds = time_range_bounds_cte(from_ms, to_ms);
    let pieces: Vec<&str> = vec!["\n        WITH ", bounds.as_str(), ",\n        calendar AS (\n          SELECT CAST(day AS DATE) AS dt\n          FROM generate_series(\n            (SELECT start_date FROM bounds),\n            (SELECT end_date FROM bounds),\n            INTERVAL 1 DAY\n          ) AS series(day)\n        ),\n        daily AS (\n          SELECT\n            dt,\n            COUNT(*) AS event_count\n          FROM ", events_sql, "\n          WHERE\n            dt >= (SELECT start_date FROM bounds)\n            AND dt <= (SELECT end_date FROM bounds)\n          GROUP BY dt\n        )\n        SELECT\n          CONCAT(CAST(calendar.dt AS VARCHAR), 'T00:00:00+09:00') AS time,\n          COALESCE(daily.event_count, 0) AS value\n        FROM calendar\n        LEFT JOIN daily ON daily.dt = calendar.dt\n        ORDER BY calendar.dt\n        "];
    assert(pieces@.map_values(|p: &str| p@) =~= seq!["\n        WITH "@, bounds@, ",\n        calendar AS (\n          SELECT CAST(day AS DATE) AS dt\n          FROM generate_series(\n            (SELECT start_date FROM bounds),\n            (SELECT end_date FROM bounds),\n            INTERVAL 1 DAY\n          ) AS series(day)\n        ),\n        daily AS (\n          SELECT\n            dt,\n            COUNT(*) AS event_count\n          FROM "@, events_sql@, "\n          WHERE\n            dt >= (SELECT start_date FROM bounds)\n            AND dt <= (SELECT end_date FROM bounds)\n          GROUP BY dt\n        )\n        SELECT\n          CONCAT(CAST(calendar.dt AS VARCHAR), 'T00:00:00+09:00') AS time,\n          COALESCE(daily.event_count, 0) AS value\n        FROM calendar\n        LEFT JOIN daily ON daily.dt = calendar.dt\n        ORDER BY calendar.dt\n        "@]);
    concat_strs(pieces.as_slice())
}

/// Event counts of every kind, and in total, per API over the JST days of the range.
pub open spec fn api_activity_sql_spec(events_sql: Seq<char>, from_ms: i64, to_ms: i64) -> Seq<char> {
    concat_texts(seq!["\n        WITH "@, bounds_cte_spec(from_ms, to_ms), "\n        SELECT\n          api,\n          SUM(CASE WHEN event_kind = 'INITIAL_DRAFT' THEN 1 ELSE 0 END) AS initial_draft_count,\n          SUM(CASE WHEN event_kind = 'SAVE_DRAFT' THEN 1 ELSE 0 END) AS save_draft_count,\n          SUM(CASE WHEN event_kind = 'PUBLISH_FROM_DRAFT' THEN 1 ELSE 0 END) AS publish_from_draft_count,\n          SUM(CASE WHEN event_kind = 'INITIAL_PUBLISH' THEN 1 ELSE 0 END) AS initial_publish_count,\n          SUM(CASE WHEN event_kind = 'UPDATE_PUBLISHED' THEN 1 ELSE 0 END) AS update_published_count,\n          SUM(CASE WHEN event_kind = 'ADD_DRAFT_TO_PUBLISHED' THEN 1 ELSE 0 END) AS add_draft_to_published_count,\n          SUM(CASE WHEN event_kind = 'DISCARD_DRAFT_ON_PUBLISHED' THEN 1 ELSE 0 END) AS discard_draft_on_published_count,\n          SUM(CASE WHEN event_kind = 'UNPUBLISH_TO_DRAFT' THEN 1 ELSE 0 END) AS unpublish_to_draft_count,\n          SUM(CASE WHEN event_kind = 'UNPUBLISH_TO_CLOSED' THEN 1 ELSE 0 END) AS unpublish_to_closed_count,\n          SUM(CASE WHEN event_kind = 'REOPEN_TO_DRAFT' THEN 1 ELSE 0 END) AS reopen_to_draft_count,\n          SUM(CASE WHEN event_kind = 'REPUBLISH_FROM_CLOSED' THEN 1 ELSE 0 END) AS republish_from_closed_count,\n          SUM(CASE WHEN event_kind = 'DELETE_DRAFT' THEN 1 ELSE 0 END) AS delete_draft_count,\n          SUM(CASE WHEN event_kind = 'DELETE_PUBLISHED' THEN 1 ELSE 0 END) AS delete_published_count,\n          SUM(CASE WHEN event_kind = 'DELETE_CLOSED' THEN 1 ELSE 0 END) AS delete_closed_count,\n          COUNT(*) AS total_count\n        FROM "@, events_sql, "\n        WHERE\n          dt >= (SELECT start_date FROM bounds)\n          AND dt <= (SELECT end_date FROM bounds)\n        GROUP BY api\n        ORDER BY total_count DESC, api\n        "@])
}

/// Returns the query of the api activity metric.
pub fn api_activity_sql(events_sql: &str, from_ms: i64, to_ms: i64) -> (r: String)
    ensures
        r@ == api_activity_sql_spec(events_sql@, from_ms, to_ms),
{
    let bounds = time_range_bounds_cte(from_ms, to_ms);
    let pieces: Vec<&str> = vec!["\n        WITH ", bounds.as_str(), "\n        SELECT\n          api,\n          SUM(CASE WHEN event_kind = 'INITIAL_DRAFT' THEN 1 ELSE 0 END) AS initial_draft_count,\n          SUM(CASE WHEN event_kind = 'SAVE_DRAFT' THEN 1 ELSE 0 END) AS save_draft_count,\n          SUM(CASE WHEN event_kind = 'PUBLISH_FROM_DRAFT' THEN 1 ELSE 0 END) AS publish_from_draft_count,\n          SUM(CASE WHEN event_kind = 'INITIAL_PUBLISH' THEN 1 ELSE 0 END) AS initial_publish_count,\n          SUM(CASE WHEN event_kind = 'UPDATE_PUBLISHED' THEN 1 ELSE 0 END) AS update_published_count,\n          SUM(CASE WHEN event_kind = 'ADD_DRAFT_TO_PUBLISHED' THEN 1 ELSE 0 END) AS add_draft_to_published_count,\n          SUM(CASE WHEN event_kind = 'DISCARD_DRAFT_ON_PUBLISHED' THEN 1 ELSE 0 END) AS discard_draft_on_published_count,\n          SUM(CASE WHEN event_kind = 'UNPUBLISH_TO_DRAFT' THEN 1 ELSE 0 END) AS unpublish_to_draft_count,\n          SUM(CASE WHEN event_kind = 'UNPUBLISH_TO_CLOSED' THEN 1 ELSE 0 END) AS unpublish_to_closed_count,\n          SUM(CASE WHEN event_kind = 'REOPEN_TO_DRAFT' THEN 1 ELSE 0 END) AS reopen_to_draft_count,\n          SUM(CASE WHEN event_kind = 'REPUBLISH_FROM_CLOSED' THEN 1 ELSE 0 END) AS republish_from_closed_count,\n          SUM(CASE WHEN event_kind = 'DELETE_DRAFT' THEN 1 ELSE 0 END) AS delete_draft_count,\n          SUM(CASE WHEN event_kind = 'DELETE_PUBLISHED' THEN 1 ELSE 0 END) AS delete_published_count,\n          SUM(CASE WHEN event_kind = 'DELETE_CLOSED' THEN 1 ELSE 0 END) AS delete_closed_count,\n          COUNT(*) AS total_count\n        FROM ", events_sql, "\n        WHERE\n          dt >= (SELECT start_date FROM bounds)\n          AND dt <= (SELECT end_date FROM bounds)\n        GROUP BY api\n        ORDER BY total_count DESC, api\n        "];
    assert(pieces@.map_values(|p: &str| p@) =~= seq!["\n        WITH "@, bounds@, "\n        SELECT\n          api,\n          SUM(CASE WHEN event_kind = 'INITIAL_DRAFT' THEN 1 ELSE 0 END) AS initial_draft_count,\n          SUM(CASE WHEN event_kind = 'SAVE_DRAFT' THEN 1 ELSE 0 END) AS save_draft_count,\n          SUM(CASE WHEN event_kind = 'PUBLISH_FROM_DRAFT' THEN 1 ELSE 0 END) AS publish_from_draft_count,\n          SUM(CASE WHEN event_kind = 'INITIAL_PUBLISH' THEN 1 ELSE 0 END) AS initial_publish_count,\n          SUM(CASE WHEN event_kind = 'UPDATE_PUBLISHED' THEN 1 ELSE 0 END) AS update_published_count,\n          SUM(CASE WHEN event_kind = 'ADD_DRAFT_TO_PUBLISHED' THEN 1 ELSE 0 END) AS add_draft_to_published_count,\n          SUM(CASE WHEN event_kind = 'DISCARD_DRAFT_ON_PUBLISHED' THEN 1 ELSE 0 END) AS discard_draft_on_published_count,\n          SUM(CASE WHEN event_kind = 'UNPUBLISH_TO_DRAFT' THEN 1 ELSE 0 END) AS unpublish_to_draft_count,\n          SUM(CASE WHEN event_kind = 'UNPUBLISH_TO_CLOSED' THEN 1 ELSE 0 END) AS unpublish_to_closed_count,\n          SUM(CASE WHEN event_kind = 'REOPEN_TO_DRAFT' THEN 1 ELSE 0 END) AS reopen_to_draft_count,\n          SUM(CASE WHEN event_kind = 'REPUBLISH_FROM_CLOSED' THEN 1 ELSE 0 END) AS republish_from_closed_count,\n          SUM(CASE WHEN event_kind = 'DELETE_DRAFT' THEN 1 ELSE 0 END) AS delete_draft_count,\n          SUM(CASE WHEN event_kind = 'DELETE_PUBLISHED' THEN 1 ELSE 0 END) AS delete_published_count,\n          SUM(CASE WHEN event_kind = 'DELETE_CLOSED' THEN 1 ELSE 0 END) AS delete_closed_count,\n          COUNT(*) AS total_count\n        FROM "@, events_sql@, "\n        WHERE\n          dt >= (SELECT start_date FROM bounds)\n          AND dt <= (SELECT end_date FROM bounds)\n        GROUP BY api\n        ORDER BY total_count DESC, api\n        "@]);
    concat_strs(pieces.as_slice())
}

/// The most created or edited contents over the JST days of the range, most events first, up to `limit`.
pub open spec fn top_updated_contents_sql_spec(events_sql: Seq<char>, from_ms: i64, to_ms: i64, limit: u32) -> Seq<char> {
    concat_texts(seq!["\n        WITH "@, bounds_cte_spec(from_ms, to_ms), "\n        SELECT\n          api,\n          content_id,\n          COUNT(*) AS count,\n          strftime(MAX(received_at), '%Y-%m-%dT%H:%M:%SZ') AS last_event_at\n        FROM "@, events_sql, "\n        WHERE\n          dt >= (SELECT start_date FROM bounds)\n          AND dt <= (SELECT end_date FROM bounds)\n          AND event_type IN ('new', 'edit')\n          AND content_id IS NOT NULL\n        GROUP BY api, content_id\n        ORDER BY count DESC, MAX(received_at) DESC\n        LIMIT "@, decimal_text(limit as nat), "\n        "@])
}

/// Returns the query of the top updated contents metric.
pub fn top_updated_contents_sql(events_sql: &str, from_ms: i64, to_ms: i64, limit: u32) -> (r: String)
    ensures
        r@ == top_updated_contents_sql_spec(events_sql@, from_ms, to_ms, limit),
{
    let bounds = time_range_bounds_cte(from_ms, to_ms);
    let limit_text = u64_text(limit as u64);
    let pieces: Vec<&str> = vec!["\n        WITH ", bounds.as_str(), "\n        SELECT\n          api,\n          content_id,\n          COUNT(*) AS count,\n          strftime(MAX(received_at), '%Y-%m-%dT%H:%M:%SZ') AS last_event_at\n        FROM ", events_sql, "\n        WHERE\n          dt >= (SELECT start_date FROM bounds)\n          AND dt <= (SELECT end_date FROM bounds)\n          AND event_type IN ('new', 'edit')\n          AND content_id IS NOT NULL\n        GROUP BY api, content_id\n        ORDER BY count DESC, MAX(received_at) DESC\n        LIMIT ", limit_text.as_str(), "\n        "];
    assert(pieces@.map_values(|p: &str| p@) =~= seq!["\n        WITH "@, bounds@, "\n        SELECT\n          api,\n          content_id,\n          COUNT(*) AS count,\n          strftime(MAX(received_at), '%Y-%m-%dT%H:%M:%SZ') AS last_event_at\n        FROM "@, events_sql@, "\n        WHERE\n          dt >= (SELECT start_date FROM bounds)\n          AND dt <= (SELECT end_date FROM bounds)\n          AND event_type IN ('new', 'edit')\n          AND content_id IS NOT NULL\n        GROUP BY api, content_id\n        ORDER BY count DESC, MAX(received_at) DESC\n        LIMIT "@, limit_text@, "\n        "@]);
    concat_strs(pieces.as_slice())
}

/// The average time from creation to publication per API over the JST days of the range, in `unit`.
pub open spec fn average_time_to_publish_sql_spec(events_sql: Seq<char>, from_ms: i64, to_ms: i64, unit: PublishDurationUnit) -> Seq<char> {
    concat_texts(seq!["\n        WITH "@, bounds_cte_spec(from_ms, to_ms), "\n        SELECT\n          api,\n          AVG(date_diff('second', content_created_at, content_published_at) / "@, unit_divisor(unit), ") AS "@, unit_column(unit), "\n        FROM "@, events_sql, "\n        WHERE\n          dt >= (SELECT start_date FROM bounds)\n          AND dt <= (SELECT end_date FROM bounds)\n          AND event_kind IN ('PUBLISH_FROM_DRAFT', 'INITIAL_PUBLISH', 'REPUBLISH_FROM_CLOSED')\n          AND content_created_at IS NOT NULL\n          AND content_published_at IS NOT NULL\n          AND content_published_at >= content_created_at\n        GROUP BY api\n        ORDER BY "@, unit_column(unit), " DESC, api\n        "@])
}

/// Returns the query of the average time to publish metric.
pub fn average_time_to_publish_sql(events_sql: &str, from_ms: i64, to_ms: i64, unit: PublishDurationUnit) -> (r: String)
    ensures
        r@ == average_time_to_publish_sql_spec(events_sql@, from_ms, to_ms, unit),
{
    let bounds = time_range_bounds_cte(from_ms, to_ms);
    let (divisor, value_column) = unit.sql_parts();
    let pieces: Vec<&str> = vec!["\n        WITH ", bounds.as_str(), "\n        SELECT\n          api,\n          AVG(date_diff('second', content_created_at, content_published_at) / ", divisor, ") AS ", value_column, "\n        FROM ", events_sql, "\n        WHERE\n          dt >= (SELECT start_date FROM bounds)\n          AND dt <= (SELECT end_date FROM bounds)\n          AND event_kind IN ('PUBLISH_FROM_DRAFT', 'INITIAL_PUBLISH', 'REPUBLISH_FROM_CLOSED')\n          AND content_created_at IS NOT NULL\n          AND content_published_at IS NOT NULL\n          AND content_published_at >= content_created_at\n        GROUP BY api\n        ORDER BY ", value_column, " DESC, api\n        "];
    assert(pieces@.map_values(|p: &str| p@) =~= seq!["\n        WITH "@, bounds@, "\n        SELECT\n          api,\n          AVG(date_diff('second', content_created_at, content_published_at) / "@, divisor@, ") AS "@, value_column@, "\n        FROM "@, events_sql@, "\n        WHERE\n          dt >= (SELECT start_date FROM bounds)\n          AND dt <= (SELECT end_date FROM bounds)\n          AND event_kind IN ('PUBLISH_FROM_DRAFT', 'INITIAL_PUBLISH', 'REPUBLISH_FROM_CLOSED')\n          AND content_created_at IS NOT NULL\n          AND content_published_at IS NOT NULL\n          AND content_published_at >= content_created_at\n        GROUP BY api\n        ORDER BY "@, value_column@, " DESC, api\n        "@]);
    concat_strs(pieces.as_slice())
}

/// The average time from the first draft to the first publication from draft per API, publications within the JST days of the range, in `unit`.
pub open spec fn average_draft_to_publish_sql_spec(events_sql: Seq<char>, from_ms: i64, to_ms: i64, unit: PublishDurationUnit) -> Seq<char> {
    concat_texts(seq!["\n        WITH "@, bounds_cte_spec(from_ms, to_ms), ",\n        drafts AS (\n          SELECT\n            api,\n            content_id,\n            MIN(draft_created_at) AS draft_at\n          FROM "@, events_sql, "\n          WHERE\n            event_kind = 'INITIAL_DRAFT'\n            AND content_id IS NOT NULL\n            AND draft_created_at IS NOT NULL\n          GROUP BY api, content_id\n        ),\n        first_publishes AS (\n          SELECT\n            api,\n            content_id,\n            MIN(content_published_at) AS published_at\n          FROM "@, events_sql, "\n          WHERE\n            dt >= (SELECT start_date FROM bounds)\n            AND dt <= (SELECT end_date FROM bounds)\n            AND event_kind = 'PUBLISH_FROM_DRAFT'\n            AND content_id IS NOT NULL\n            AND content_published_at IS NOT NULL\n          GROUP BY api, content_id\n        )\n        SELECT\n          drafts.api,\n          AVG(date_diff('second', drafts.draft_at, first_publishes.published_at) / "@, unit_divisor(unit), ") AS "@, unit_column(unit), ",\n          COUNT(*) AS sample_count\n        FROM drafts\n        INNER JOIN first_publishes\n          ON drafts.api = first_publishes.api\n          AND drafts.content_id = first_publishes.content_id\n        WHERE first_publishes.published_at >= drafts.draft_at\n        GROUP BY drafts.api\n        ORDER BY "@, unit_column(unit), " DESC, drafts.api\n        "@])
}

/// Returns the query of the average draft to publish metric.
pub fn average_draft_to_publish_sql(events_sql: &str, from_ms: i64, to_ms: i64, unit: PublishDurationUnit) -> (r: String)
    ensures
        r@ == average_draft_to_publish_sql_spec(events_sql@, from_ms, to_ms, unit),
{
    let bounds = time_range_bounds_cte(from_ms, to_ms);
    let (divisor, value_column) = unit.sql_parts();
    let pieces: Vec<&str> = vec!["\n        WITH ", bounds.as_str(), ",\n        drafts AS (\n          SELECT\n            api,\n            content_id,\n            MIN(draft_created_at) AS draft_at\n          FROM ", events_sql, "\n          WHERE\n            event_kind = 'INITIAL_DRAFT'\n            AND content_id IS NOT NULL\n            AND draft_created_at IS NOT NULL\n          GROUP BY api, content_id\n        ),\n        first_publishes AS (\n          SELECT\n            api,\n            content_id,\n            MIN(content_published_at) AS published_at\n          FROM ", events_sql, "\n          WHERE\n            dt >= (SELECT start_date FROM bounds)\n            AND dt <= (SELECT end_date FROM bounds)\n            AND event_kind = 'PUBLISH_FROM_DRAFT'\n            AND content_id IS NOT NULL\n            AND content_published_at IS NOT NULL\n          GROUP BY api, content_id\n        )\n        SELECT\n          drafts.api,\n          AVG(date_diff('second', drafts.draft_at, first_publishes.published_at) / ", divisor, ") AS ", value_column, ",\n          COUNT(*) AS sample_count\n        FROM drafts\n        INNER JOIN first_publishes\n          ON drafts.api = first_publishes.api\n          AND drafts.content_id = first_publishes.content_id\n        WHERE first_publishes.published_at >= drafts.draft_at\n        GROUP BY drafts.api\n        ORDER BY ", value_column, " DESC, drafts.api\n        "];
    assert(pieces@.map_values(|p: &str| p@) =~= seq!["\n        WITH "@, bounds@, ",\n        drafts AS (\n          SELECT\n            api,\n            content_id,\n            MIN(draft_created_at) AS draft_at\n          FROM "@, events_sql@, "\n          WHERE\n            event_kind = 'INITIAL_DRAFT'\n            AND content_id IS NOT NULL\n            AND draft_created_at IS NOT NULL\n          GROUP BY api, content_id\n        ),\n        first_publishes AS (\n          SELECT\n            api,\n            content_id,\n            MIN(content_published_at) AS published_at\n          FROM "@, events_sql@, "\n          WHERE\n            dt >= (SELECT start_date FROM bounds)\n            AND dt <= (SELECT end_date FROM bounds)\n            AND event_kind = 'PUBLISH_FROM_DRAFT'\n            AND content_id IS NOT NULL\n            AND content_published_at IS NOT NULL\n          GROUP BY api, content_id\n        )\n        SELECT\n          drafts.api,\n          AVG(date_diff('second', drafts.draft_at, first_publishes.published_at) / "@, divisor@, ") AS "@, value_column@, ",\n          COUNT(*) AS sample_count\n        FROM drafts\n        INNER JOIN first_publishes\n          ON drafts.api = first_publishes.api\n          AND drafts.content_id = first_publishes.content_id\n        WHERE first_publishes.published_at >= drafts.draft_at\n        GROUP BY drafts.api\n        ORDER BY "@, value_column@, " DESC, drafts.api\n        "@]);
    concat_strs(pieces.as_slice())
}

/// Publication, published-state and state-arrival counts over the JST days of the range, with the published-state rate.
pub open spec fn publish_action_summary_sql_spec(events_sql: Seq<char>, from_ms: i64, to_ms: i64) -> Seq<char> {
    concat_texts(seq!["\n        WITH "@, bounds_cte_spec(from_ms, to_ms), ",\n        summary AS (\n          SELECT\n            COALESCE(SUM(CASE WHEN event_kind IN ('PUBLISH_FROM_DRAFT', 'INITIAL_PUBLISH', 'REPUBLISH_FROM_CLOSED') THEN 1 ELSE 0 END), 0) AS publish_count,\n            COALESCE(SUM(CASE WHEN event_kind IN ('PUBLISH_FROM_DRAFT', 'INITIAL_PUBLISH', 'UPDATE_PUBLISHED', 'REPUBLISH_FROM_CLOSED') THEN 1 ELSE 0 END), 0) AS published_state_count,\n            COALESCE(SUM(CASE WHEN event_kind IN ('INITIAL_DRAFT', 'SAVE_DRAFT', 'PUBLISH_FROM_DRAFT', 'INITIAL_PUBLISH', 'UPDATE_PUBLISHED', 'UNPUBLISH_TO_DRAFT', 'UNPUBLISH_TO_CLOSED', 'REOPEN_TO_DRAFT', 'REPUBLISH_FROM_CLOSED') THEN 1 ELSE 0 END), 0) AS state_arrival_count\n          FROM "@, events_sql, "\n          WHERE\n            dt >= (SELECT start_date FROM bounds)\n            AND dt <= (SELECT end_date FROM bounds)\n        )\n        SELECT\n          publish_count,\n          published_state_count,\n          state_arrival_count,\n          CASE\n            WHEN state_arrival_count = 0 THEN NULL\n            ELSE published_state_count::DOUBLE / state_arrival_count\n          END AS published_state_rate\n        FROM summary\n        "@])
}

/// Returns the query of the publish action summary metric.
pub fn publish_action_summary_sql(events_sql: &str, from_ms: i64, to_ms: i64) -> (r: String)
    ensures
        r@ == publish_action_summary_sql_spec(events_sql@, from_ms, to_ms),
{
    let bounds = time_range_bounds_cte(from_ms, to_ms);
    let pieces: Vec<&str> = vec!["\n        WITH ", bounds.as_str(), ",\n        summary AS (\n          SELECT\n            COALESCE(SUM(CASE WHEN event_kind IN ('PUBLISH_FROM_DRAFT', 'INITIAL_PUBLISH', 'REPUBLISH_FROM_CLOSED') THEN 1 ELSE 0 END), 0) AS publish_count,\n            COALESCE(SUM(CASE WHEN event_kind IN ('PUBLISH_FROM_DRAFT', 'INITIAL_PUBLISH', 'UPDATE_PUBLISHED', 'REPUBLISH_FROM_CLOSED') THEN 1 ELSE 0 END), 0) AS published_state_count,\n            COALESCE(SUM(CASE WHEN event_kind IN ('INITIAL_DRAFT', 'SAVE_DRAFT', 'PUBLISH_FROM_DRAFT', 'INITIAL_PUBLISH', 'UPDATE_PUBLISHED', 'UNPUBLISH_TO_DRAFT', 'UNPUBLISH_TO_CLOSED', 'REOPEN_TO_DRAFT', 'REPUBLISH_FROM_CLOSED') THEN 1 ELSE 0 END), 0) AS state_arrival_count\n          FROM ", events_sql, "\n          WHERE\n            dt >= (SELECT start_date FROM bounds)\n            AND dt <= (SELECT end_date FROM bounds)\n        )\n        SELECT\n          publish_count,\n          published_state_count,\n          state_arrival_count,\n          CASE\n            WHEN state_arrival_count = 0 THEN NULL\n            ELSE published_state_count::DOUBLE / state_arrival_count\n          END AS published_state_rate\n        FROM summary\n        "];
    assert(pieces@.map_values(|p: &str| p@) =~= seq!["\n        WITH "@, bounds@, ",\n        summary AS (\n          SELECT\n            COALESCE(SUM(CASE WHEN event_kind IN ('PUBLISH_FROM_DRAFT', 'INITIAL_PUBLISH', 'REPUBLISH_FROM_CLOSED') THEN 1 ELSE 0 END), 0) AS publish_count,\n            COALESCE(SUM(CASE WHEN event_kind IN ('PUBLISH_FROM_DRAFT', 'INITIAL_PUBLISH', 'UPDATE_PUBLISHED', 'REPUBLISH_FROM_CLOSED') THEN 1 ELSE 0 END), 0) AS published_state_count,\n            COALESCE(SUM(CASE WHEN event_kind IN ('INITIAL_DRAFT', 'SAVE_DRAFT', 'PUBLISH_FROM_DRAFT', 'INITIAL_PUBLISH', 'UPDATE_PUBLISHED', 'UNPUBLISH_TO_DRAFT', 'UNPUBLISH_TO_CLOSED', 'REOPEN_TO_DRAFT', 'REPUBLISH_FROM_CLOSED') THEN 1 ELSE 0 END), 0) AS state_arrival_count\n          FROM "@, events_sql@, "\n          WHERE\n            dt >= (SELECT start_date FROM bounds)\n            AND dt <= (SELECT end_date FROM bounds)\n        )\n        SELECT\n          publish_count,\n          published_state_count,\n          state_arrival_count,\n          CASE\n            WHEN state_arrival_count = 0 THEN NULL\n            ELSE published_state_count::DOUBLE / state_arrival_count\n          END AS published_state_rate\n        FROM summary\n        "@]);
    concat_strs(pieces.as_slice())
}

/// Daily publication counts by kind over the JST days of the range, zero-filled.
pub open spec fn publish_action_trend_sql_spec(events_sql: Seq<char>, from_ms: i64, to_ms: i64) -> Seq<char> {
    concat_texts(seq!["\n        WITH "@, bounds_cte_spec(from_ms, to_ms), ",\n        calendar AS (\n          SELECT CAST(day AS DATE) AS dt\n          FROM generate_series(\n            (SELECT start_date FROM bounds),\n            (SELECT end_date FROM bounds),\n            INTERVAL 1 DAY\n          ) AS series(day)\n        ),\n        daily AS (\n          SELECT\n            dt,\n            SUM(CASE WHEN event_kind = 'PUBLISH_FROM_DRAFT' THEN 1 ELSE 0 END) AS publish_from_draft_count,\n            SUM(CASE WHEN event_kind = 'INITIAL_PUBLISH' THEN 1 ELSE 0 END) AS initial_publish_count,\n            SUM(CASE WHEN event_kind = 'REPUBLISH_FROM_CLOSED' THEN 1 ELSE 0 END) AS republish_from_closed_count\n          FROM "@, events_sql, "\n          WHERE\n            dt >= (SELECT start_date FROM bounds)\n            AND dt <= (SELECT end_date FROM bounds)\n          GROUP BY dt\n        )\n        SELECT\n          CONCAT(CAST(calendar.dt AS VARCHAR), 'T00:00:00+09:00') AS time,\n          COALESCE(daily.publish_from_draft_count, 0) AS publish_from_draft_count,\n          COALESCE(daily.initial_publish_count, 0) AS initial_publish_count,\n          COALESCE(daily.republish_from_closed_count, 0) AS republish_from_closed_count,\n          COALESCE(daily.publish_from_draft_count, 0) + COALESCE(daily.initial_publish_count, 0) + COALESCE(daily.republish_from_closed_count, 0) AS publish_count\n        FROM calendar\n        LEFT JOIN daily ON daily.dt = calendar.dt\n        ORDER BY calendar.dt\n        "@])
}

/// Returns the query of the publish action trend metric.
pub fn publish_action_trend_sql(events_sql: &str, from_ms: i64, to_ms: i64) -> (r: String)
    ensures
        r@ == publish_action_trend_sql_spec(events_sql@, from_ms, to_ms),
{
    let bounds = time_range_bounds_cte(from_ms, to_ms);
    let pieces: Vec<&str> = vec!["\n        WITH ", bounds.as_str(), ",\n        calendar AS (\n          SELECT CAST(day AS DATE) AS dt\n          FROM generate_series(\n            (SELECT start_date FROM bounds),\n            (SELECT end_date FROM bounds),\n            INTERVAL 1 DAY\n          ) AS series(day)\n        ),\n        daily AS (\n          SELECT\n            dt,\n            SUM(CASE WHEN event_kind = 'PUBLISH_FROM_DRAFT' THEN 1 ELSE 0 END) AS publish_from_draft_count,\n            SUM(CASE WHEN event_kind = 'INITIAL_PUBLISH' THEN 1 ELSE 0 END) AS initial_publish_count,\n            SUM(CASE WHEN event_kind = 'REPUBLISH_FROM_CLOSED' THEN 1 ELSE 0 END) AS republish_from_closed_count\n          FROM ", events_sql, "\n          WHERE\n            dt >= (SELECT start_date FROM bounds)\n            AND dt <= (SELECT end_date FROM bounds)\n          GROUP BY dt\n        )\n        SELECT\n          CONCAT(CAST(calendar.dt AS VARCHAR), 'T00:00:00+09:00') AS time,\n          COALESCE(daily.publish_from_draft_count, 0) AS publish_from_draft_count,\n          COALESCE(daily.initial_publish_count, 0) AS initial_publish_count,\n          COALESCE(daily.republish_from_closed_count, 0) AS republish_from_closed_count,\n          COALESCE(daily.publish_from_draft_count, 0) + COALESCE(daily.initial_publish_count, 0) + COALESCE(daily.republish_from_closed_count, 0) AS publish_count\n        FROM calendar\n        LEFT JOIN daily ON daily.dt = calendar.dt\n        ORDER BY calendar.dt\n        "];
    assert(pieces@.map_values(|p: &str| p@) =~= seq!["\n        WITH "@, bounds@, ",\n        calendar AS (\n          SELECT CAST(day AS DATE) AS dt\n          FROM generate_series(\n            (SELECT start_date FROM bounds),\n            (SELECT end_date FROM bounds),\n            INTERVAL 1 DAY\n          ) AS series(day)\n        ),\n        daily AS (\n          SELECT\n            dt,\n            SUM(CASE WHEN event_kind = 'PUBLISH_FROM_DRAFT' THEN 1 ELSE 0 END) AS publish_from_draft_count,\n            SUM(CASE WHEN event_kind = 'INITIAL_PUBLISH' THEN 1 ELSE 0 END) AS initial_publish_count,\n            SUM(CASE WHEN event_kind = 'REPUBLISH_FROM_CLOSED' THEN 1 ELSE 0 END) AS republish_from_closed_count\n          FROM "@, events_sql@, "\n          WHERE\n            dt >= (SELECT start_date FROM bounds)\n            AND dt <= (SELECT end_date FROM bounds)\n          GROUP BY dt\n        )\n        SELECT\n          CONCAT(CAST(calendar.dt AS VARCHAR), 'T00:00:00+09:00') AS time,\n          COALESCE(daily.publish_from_draft_count, 0) AS publish_from_draft_count,\n          COALESCE(daily.initial_publish_count, 0) AS initial_publish_count,\n          COALESCE(daily.republish_from_closed_count, 0) AS republish_from_closed_count,\n          COALESCE(daily.publish_from_draft_count, 0) + COALESCE(daily.initial_publish_count, 0) + COALESCE(daily.republish_from_closed_count, 0) AS publish_count\n        FROM calendar\n        LEFT JOIN daily ON daily.dt = calendar.dt\n        ORDER BY calendar.dt\n        "@]);
    concat_strs(pieces.as_slice())
}


} // verus!

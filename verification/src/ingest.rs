//! The webhook ingest path: configuration, the decisions a request goes
//! through before its event is stored, and the columns an event batch is
//! written with.

use vstd::prelude::*;
use vstd::utf8::{decode_utf8, encode_utf8};
use crate::text::{chars_of, copy_str, str_equal};
use crate::json::WebhookPayload;
use crate::normalize::{
    IngestError, NormalizedEvent, normalize_payload, normalized_view, accepted_webhook, rejection_of,
    opt_text,
};
use crate::signature::{verify_signature, signature_matches, trim_whitespace, trim_spec};
use crate::storage::{
    build_s3_key, s3_key_spec, partition_dir_from_key, key_dir_spec, lemma_key_dir_of_s3_key,
    trim_slashes_spec, partition_escape_spec, jst_date_text_of,
};
use crate::time::{UtcTimestamp, unix_time_now, instant_of_reading, timestamp_micros, micros_of};
use uuid::{NoContext, Timestamp, Uuid};

verus! {

/// The object key prefix events are stored under by default.
pub const DEFAULT_EVENT_PREFIX: &'static str = "microcms_events";

/// Settings of the ingest function.
pub struct Config {
    pub bucket: String,
    pub prefix: String,
    pub secret: String,
}

/// A required setting is present when it holds something besides whitespace.
pub open spec fn setting_present(value: Option<String>) -> bool {
    match value {
        Some(v) => trim_spec(v@).len() > 0,
        None => false,
    }
}

/// Returns a required setting, or `MissingEnv(key)` when it is unset or
/// blank.
pub fn required_env(key: &'static str, value: Option<String>) -> (r: Result<String, IngestError>)
    ensures
        setting_present(value) ==> (r matches Ok(v) && value == Some(v)),
        !setting_present(value) ==> (r matches Err(IngestError::MissingEnv(k)) && k@ == key@),
{
    match value {
        None => Err(IngestError::MissingEnv(key)),
        Some(v) => {
            let cs = chars_of(v.as_str());
            let t = trim_whitespace(cs.as_slice());
            if t.len() == 0 {
                Err(IngestError::MissingEnv(key))
            } else {
                Ok(v)
            }
        },
    }
}

/// The texts a flag setting is switched on by.
pub open spec fn is_true_flag(value: Seq<char>) -> bool {
    value == "1"@ || value == "true"@ || value == "TRUE"@ || value == "yes"@ || value == "YES"@
}

/// Reads a flag setting: on for `1`, `true`, `TRUE`, `yes` or `YES`; off
/// otherwise and when unset.
pub fn env_bool(value: Option<&str>) -> (r: bool)
    ensures
        r == (value matches Some(v) && is_true_flag(v@)),
{
    match value {
        None => false,
        Some(v) => str_equal(v, "1") || str_equal(v, "true") || str_equal(v, "TRUE")
            || str_equal(v, "yes") || str_equal(v, "YES"),
    }
}

/// Builds the ingest settings from the bucket, prefix and secret settings:
/// the bucket and the secret are required (the bucket is checked first);
/// the prefix defaults to `microcms_events` and is trimmed of `/`.
pub fn config_from_settings(bucket: Option<String>, prefix: Option<String>, secret: Option<String>) -> (r: Result<Config, IngestError>)
    ensures
        !setting_present(bucket) ==> (r matches Err(IngestError::MissingEnv(k)) && k@ == "EVENT_BUCKET"@),
        setting_present(bucket) && !setting_present(secret) ==> (r matches Err(IngestError::MissingEnv(k))
            && k@ == "MICROCMS_WEBHOOK_SECRET"@),
        setting_present(bucket) && setting_present(secret) ==> (r matches Ok(c)
            && bucket == Some(c.bucket) && secret == Some(c.secret)
            && c.prefix@ == crate::storage::trim_slashes_spec(
                match prefix { Some(p) => p@, None => DEFAULT_EVENT_PREFIX@ })),
{
    let bucket = match required_env("EVENT_BUCKET", bucket) {
        Ok(b) => b,
        Err(e) => { return Err(e); },
    };
    let prefix_text = match prefix {
        Some(p) => p,
        None => copy_str(DEFAULT_EVENT_PREFIX),
    };
    let secret = match required_env("MICROCMS_WEBHOOK_SECRET", secret) {
        Ok(s) => s,
        Err(e) => { return Err(e); },
    };
    Ok(Config { bucket, prefix: crate::storage::trim_slashes(prefix_text.as_str()), secret })
}

/// A text in the hyphenated lowercase form of a version 7 UUID.
pub open spec fn uuid_v7_text(s: Seq<char>) -> bool {
    &&& s.len() == 36
    &&& forall|i: int| 0 <= i < 36 ==> (if i == 8 || i == 13 || i == 18 || i == 23 {
        s[i] == '-'
    } else {
        ('0' <= #[trigger] s[i] && s[i] <= '9') || ('a' <= s[i] && s[i] <= 'f')
    })
    &&& s[14] == '7'
}

/// A fresh event identifier: a version 7 UUID for the Unix time `seconds`
/// and `nanos` with random bits (`uuid::Uuid::new_v7` of
/// `uuid::Timestamp::from_unix` without a counter context), in hyphenated
/// lowercase form. Which UUID comes back is not stated, only its form.
#[verifier::external_body]
pub(crate) fn new_event_id(seconds: u64, nanos: u32) -> (id: String)
    ensures
        uuid_v7_text(id@),
{
    Uuid::new_v7(Timestamp::from_unix(NoContext, seconds, nanos)).to_string()
}

/// An event ready to be stored under its object key.
pub struct WebhookUpload {
    pub event: NormalizedEvent,
    pub key: String,
}

/// The partition value of an optional field: the text, or `unknown`.
pub open spec fn or_unknown(v: Option<Seq<char>>) -> Seq<char> {
    match v {
        Some(t) => t,
        None => "unknown"@,
    }
}

fn text_or_unknown(v: &Option<String>) -> (r: &str)
    ensures
        r@ == or_unknown(opt_text(*v)),
{
    match v {
        Some(t) => t.as_str(),
        None => "unknown",
    }
}

/// Whether an upload is what a request yields when it is accepted.
pub open spec fn upload_matches(
    config: Config,
    body: Seq<u8>,
    payload: Result<WebhookPayload, String>,
    received_at: UtcTimestamp,
    event_id: Seq<char>,
    u: WebhookUpload,
) -> bool {
    &&& accepted_webhook(body, payload) matches Some(p)
    &&& u.event@ == normalized_view(decode_utf8(body), p, received_at)
    &&& u.key@ == s3_key_spec(config.prefix@, or_unknown(u.event@.service), or_unknown(u.event@.api),
        received_at, event_id)
}

/// Decides what becomes of a webhook request received at `received_at`:
/// without a signature it is `MissingSignature`; with one that does not
/// match it is `InvalidSignature`; a body that does not normalize is
/// rejected as `normalize_payload` rejects it; otherwise its event is
/// stored under the key built from the configured prefix, the event's
/// service and API (`unknown` when absent), the receipt instant and
/// `event_id`.
pub fn prepare_webhook_upload_at(
    config: &Config,
    signature: Option<&str>,
    body: &[u8],
    payload: Result<WebhookPayload, String>,
    received_at: UtcTimestamp,
    event_id: &str,
) -> (r: Result<WebhookUpload, IngestError>)
    requires
        received_at.valid(),
    ensures
        signature is None ==> r matches Err(IngestError::MissingSignature),
        signature matches Some(s) && !signature_matches(body@, encode_utf8(config.secret@), s@)
            ==> r matches Err(IngestError::InvalidSignature),
        signature matches Some(s) && signature_matches(body@, encode_utf8(config.secret@), s@)
            ==> match r {
            Ok(u) => upload_matches(*config, body@, payload, received_at, event_id@, u),
            Err(e) => accepted_webhook(body@, payload) is None && rejection_of(body@, payload, e),
        },
{
    let sig = match signature {
        Some(s) => s,
        None => { return Err(IngestError::MissingSignature); },
    };
    if !verify_signature(body, config.secret.as_str().as_bytes(), sig) {
        return Err(IngestError::InvalidSignature);
    }
    let event = match normalize_payload(body, payload, received_at) {
        Ok(e) => e,
        Err(e) => { return Err(e); },
    };
    let key = build_s3_key(
        config.prefix.as_str(),
        text_or_unknown(&event.service),
        text_or_unknown(&event.api),
        event.received_at,
        event_id,
    );
    Ok(WebhookUpload { event, key })
}

/// Decides what becomes of a webhook request arriving now: checks the
/// signature, reads the clock and draws a fresh event identifier, then
/// decides as `prepare_webhook_upload_at` does for them. A clock that reads
/// before 1970 (or past the last instant `chrono` represents) makes a
/// signed request fail with `Clock`.
pub fn prepare_webhook_upload(
    config: &Config,
    signature: Option<&str>,
    body: &[u8],
    payload: Result<WebhookPayload, String>,
) -> (r: Result<WebhookUpload, IngestError>)
    ensures
        signature is None ==> r matches Err(IngestError::MissingSignature),
        signature matches Some(s) && !signature_matches(body@, encode_utf8(config.secret@), s@)
            ==> r matches Err(IngestError::InvalidSignature),
        signature matches Some(s) && signature_matches(body@, encode_utf8(config.secret@), s@)
            ==> match r {
            Ok(u) => exists|t: UtcTimestamp, id: Seq<char>| t.valid() && uuid_v7_text(id)
                && upload_matches(*config, body@, payload, t, id, u),
            Err(e) => e is Clock || (accepted_webhook(body@, payload) is None && rejection_of(body@, payload, e)),
        },
{
    let reading = unix_time_now();
    let (seconds, nanos) = match reading {
        Some(x) => x,
        None => (0, 0),
    };
    let received_at = match instant_of_reading(reading) {
        Some(t) => t,
        None => {
            let sig = match signature {
                Some(s) => s,
                None => { return Err(IngestError::MissingSignature); },
            };
            if !verify_signature(body, config.secret.as_str().as_bytes(), sig) {
                return Err(IngestError::InvalidSignature);
            }
            return Err(IngestError::Clock);
        },
    };
    let event_id = new_event_id(seconds, nanos);
    let r = prepare_webhook_upload_at(config, signature, body, payload, received_at, event_id.as_str());
    proof {
        if r is Ok {
            let u = r->Ok_0;
            if signature matches Some(s) && signature_matches(body@, encode_utf8(config.secret@), s@) {
                assert(upload_matches(*config, body@, payload, received_at, event_id@, u));
            }
        }
    }
    r
}

/// The object-key prefix local debug data is written under.
pub const EVENT_PREFIX: &'static str = "microcms_events";

/// The partition directory an event is stored in: the directory of the key
/// it would be stored under with the debug prefix.
pub open spec fn partition_dir_spec(e: crate::normalize::EventView) -> Seq<char> {
    key_dir_spec(s3_key_spec(EVENT_PREFIX@, or_unknown(e.service), or_unknown(e.api), e.received_at,
        "placeholder"@))
}

/// The partition directory of an event, written out.
proof fn lemma_partition_dir(e: crate::normalize::EventView)
    ensures
        partition_dir_spec(e) == trim_slashes_spec(EVENT_PREFIX@) + "/service="@
            + partition_escape_spec(or_unknown(e.service)) + "/api="@
            + partition_escape_spec(or_unknown(e.api)) + "/dt="@
            + jst_date_text_of(e.received_at.seconds, e.received_at.nanos),
{
    reveal_strlit("placeholder");
    lemma_key_dir_of_s3_key(EVENT_PREFIX@, or_unknown(e.service), or_unknown(e.api), e.received_at,
        "placeholder"@);
}

/// Returns the partition directory of an event:
/// `microcms_events/service={service}/api={api}/dt={JST day}`, with the
/// service and API escaped (`unknown` when absent).
pub fn partition_dir_for_event(event: &NormalizedEvent) -> (r: String)
    requires
        event.received_at.valid(),
    ensures
        r@ == partition_dir_spec(event@),
        r@ == trim_slashes_spec(EVENT_PREFIX@) + "/service="@ + partition_escape_spec(or_unknown(event@.service))
            + "/api="@ + partition_escape_spec(or_unknown(event@.api)) + "/dt="@
            + jst_date_text_of(event.received_at.seconds, event.received_at.nanos),
{
    proof {
        lemma_partition_dir(event@);
    }
    let key = build_s3_key(
        EVENT_PREFIX,
        text_or_unknown(&event.service),
        text_or_unknown(&event.api),
        event.received_at,
        "placeholder",
    );
    partition_dir_from_key(key.as_str())
}

/// The type of a stored column.
#[derive(Clone, Copy, Debug, PartialEq, Eq, Structural)]
pub enum ColumnType {
    /// An instant in microseconds since the epoch, in UTC.
    UtcTimestampMicros,
    /// UTF-8 text.
    Text,
}

/// A stored column: its name, type and whether it may be null.
#[derive(Clone, Copy, Debug)]
pub struct ColumnSpec {
    pub name: &'static str,
    pub column_type: ColumnType,
    pub nullable: bool,
}

/// The columns events are stored with, in order.
pub open spec fn event_schema_spec() -> Seq<(Seq<char>, ColumnType, bool)> {
    seq![
        ("received_at"@, ColumnType::UtcTimestampMicros, false),
        ("service"@, ColumnType::Text, true),
        ("api"@, ColumnType::Text, true),
        ("content_id"@, ColumnType::Text, true),
        ("event_type"@, ColumnType::Text, true),
        ("event_kind"@, ColumnType::Text, true),
        ("old_status"@, ColumnType::Text, true),
        ("new_status"@, ColumnType::Text, true),
        ("old_updated_at"@, ColumnType::UtcTimestampMicros, true),
        ("new_updated_at"@, ColumnType::UtcTimestampMicros, true),
        ("draft_created_at"@, ColumnType::UtcTimestampMicros, true),
        ("content_created_at"@, ColumnType::UtcTimestampMicros, true),
        ("content_published_at"@, ColumnType::UtcTimestampMicros, true),
        ("raw_payload"@, ColumnType::Text, false),
    ]
}

fn column(name: &'static str, column_type: ColumnType, nullable: bool) -> (c: ColumnSpec)
    ensures
        c.name@ == name@,
        c.column_type == column_type,
        c.nullable == nullable,
{
    ColumnSpec { name, column_type, nullable }
}

/// Returns the columns events are stored with, in the order of
/// `EventColumns`.
pub fn event_schema() -> (r: Vec<ColumnSpec>)
    ensures
        r@.len() == event_schema_spec().len(),
        forall|i: int| 0 <= i < r@.len() ==> ((#[trigger] r@[i]).name@, r@[i].column_type, r@[i].nullable)
            == event_schema_spec()[i],
{
    let r = vec![
        column("received_at", ColumnType::UtcTimestampMicros, false),
        column("service", ColumnType::Text, true),
        column("api", ColumnType::Text, true),
        column("content_id", ColumnType::Text, true),
        column("event_type", ColumnType::Text, true),
        column("event_kind", ColumnType::Text, true),
        column("old_status", ColumnType::Text, true),
        column("new_status", ColumnType::Text, true),
        column("old_updated_at", ColumnType::UtcTimestampMicros, true),
        column("new_updated_at", ColumnType::UtcTimestampMicros, true),
        column("draft_created_at", ColumnType::UtcTimestampMicros, true),
        column("content_created_at", ColumnType::UtcTimestampMicros, true),
        column("content_published_at", ColumnType::UtcTimestampMicros, true),
        column("raw_payload", ColumnType::Text, false),
    ];
    assert(r@.len() == 14);
    r
}

/// The columns of an event batch, one entry per event, with instants in
/// microseconds since the epoch.
pub struct EventColumns {
    pub received_at: Vec<i64>,
    pub service: Vec<Option<String>>,
    pub api: Vec<Option<String>>,
    pub content_id: Vec<Option<String>>,
    pub event_type: Vec<Option<String>>,
    pub event_kind: Vec<Option<String>>,
    pub old_status: Vec<Option<String>>,
    pub new_status: Vec<Option<String>>,
    pub old_updated_at: Vec<Option<i64>>,
    pub new_updated_at: Vec<Option<i64>>,
    pub draft_created_at: Vec<Option<i64>>,
    pub content_created_at: Vec<Option<i64>>,
    pub content_published_at: Vec<Option<i64>>,
    pub raw_payload: Vec<String>,
}

/// An optional instant in microseconds.
pub open spec fn opt_micros(t: Option<UtcTimestamp>) -> Option<i64> {
    match t {
        Some(x) => Some(micros_of(x) as i64),
        None => None,
    }
}

/// Every instant of the event is one `chrono` represents.
pub open spec fn event_instants_valid(e: NormalizedEvent) -> bool {
    &&& e.received_at.valid()
    &&& (e.old_updated_at matches Some(t) ==> t.valid())
    &&& (e.new_updated_at matches Some(t) ==> t.valid())
    &&& (e.draft_created_at matches Some(t) ==> t.valid())
    &&& (e.content_created_at matches Some(t) ==> t.valid())
    &&& (e.content_published_at matches Some(t) ==> t.valid())
}

/// Row `i` of the columns holds event `e`.
pub open spec fn row_holds(c: EventColumns, i: int, e: NormalizedEvent) -> bool {
    &&& c.received_at@[i] == micros_of(e.received_at)
    &&& opt_text(c.service@[i]) == opt_text(e.service)
    &&& opt_text(c.api@[i]) == opt_text(e.api)
    &&& opt_text(c.content_id@[i]) == opt_text(e.content_id)
    &&& opt_text(c.event_type@[i]) == opt_text(e.event_type)
    &&& opt_text(c.event_kind@[i]) == opt_text(e.event_kind)
    &&& opt_text(c.old_status@[i]) == opt_text(e.old_status)
    &&& opt_text(c.new_status@[i]) == opt_text(e.new_status)
    &&& c.old_updated_at@[i] == opt_micros(e.old_updated_at)
    &&& c.new_updated_at@[i] == opt_micros(e.new_updated_at)
    &&& c.draft_created_at@[i] == opt_micros(e.draft_created_at)
    &&& c.content_created_at@[i] == opt_micros(e.content_created_at)
    &&& c.content_published_at@[i] == opt_micros(e.content_published_at)
    &&& c.raw_payload@[i]@ == e.raw_payload@
}

/// The columns hold exactly `n` rows.
pub open spec fn columns_len(c: EventColumns, n: int) -> bool {
    &&& c.received_at@.len() == n
    &&& c.service@.len() == n
    &&& c.api@.len() == n
    &&& c.content_id@.len() == n
    &&& c.event_type@.len() == n
    &&& c.event_kind@.len() == n
    &&& c.old_status@.len() == n
    &&& c.new_status@.len() == n
    &&& c.old_updated_at@.len() == n
    &&& c.new_updated_at@.len() == n
    &&& c.draft_created_at@.len() == n
    &&& c.content_created_at@.len() == n
    &&& c.content_published_at@.len() == n
    &&& c.raw_payload@.len() == n
}

fn copy_opt(v: &Option<String>) -> (r: Option<String>)
    ensures
        opt_text(r) == opt_text(*v),
{
    match v {
        Some(s) => Some(s.clone()),
        None => None,
    }
}

fn opt_timestamp_micros(t: Option<UtcTimestamp>) -> (r: Option<i64>)
    requires
        t matches Some(x) ==> x.valid(),
    ensures
        r == opt_micros(t),
{
    match t {
        Some(x) => Some(timestamp_micros(x)),
        None => None,
    }
}

/// Lays a batch of events out as columns, one row per event in order. An
/// empty batch is refused with `Parquet("no events to write")`.
pub fn event_columns(events: &[NormalizedEvent]) -> (r: Result<EventColumns, IngestError>)
    requires
        forall|i: int| 0 <= i < events@.len() ==> event_instants_valid(#[trigger] events@[i]),
    ensures
        events@.len() == 0 ==> (r matches Err(IngestError::Parquet(m)) && m@ == "no events to write"@),
        events@.len() > 0 ==> (r matches Ok(c) && columns_len(c, events@.len() as int)
            && forall|i: int| 0 <= i < events@.len() ==> row_holds(c, i, #[trigger] events@[i])),
{
    if events.len() == 0 {
        return Err(IngestError::Parquet(copy_str("no events to write")));
    }
    let mut c = EventColumns {
        received_at: Vec::new(),
        service: Vec::new(),
        api: Vec::new(),
        content_id: Vec::new(),
        event_type: Vec::new(),
        event_kind: Vec::new(),
        old_status: Vec::new(),
        new_status: Vec::new(),
        old_updated_at: Vec::new(),
        new_updated_at: Vec::new(),
        draft_created_at: Vec::new(),
        content_created_at: Vec::new(),
        content_published_at: Vec::new(),
        raw_payload: Vec::new(),
    };
    let mut i: usize = 0;
    while i < events.len()
        invariant
            i <= events.len(),
            forall|j: int| 0 <= j < events@.len() ==> event_instants_valid(#[trigger] events@[j]),
            columns_len(c, i as int),
            forall|j: int| 0 <= j < i ==> row_holds(c, j, #[trigger] events@[j]),
        decreases events.len() - i,
    {
        let e = &events[i];
        assert(event_instants_valid(events@[i as int]));
        c.received_at.push(timestamp_micros(e.received_at));
        c.service.push(copy_opt(&e.service));
        c.api.push(copy_opt(&e.api));
        c.content_id.push(copy_opt(&e.content_id));
        c.event_type.push(copy_opt(&e.event_type));
        c.event_kind.push(copy_opt(&e.event_kind));
        c.old_status.push(copy_opt(&e.old_status));
        c.new_status.push(copy_opt(&e.new_status));
        c.old_updated_at.push(opt_timestamp_micros(e.old_updated_at));
        c.new_updated_at.push(opt_timestamp_micros(e.new_updated_at));
        c.draft_created_at.push(opt_timestamp_micros(e.draft_created_at));
        c.content_created_at.push(opt_timestamp_micros(e.content_created_at));
        c.content_published_at.push(opt_timestamp_micros(e.content_published_at));
        c.raw_payload.push(e.raw_payload.clone());
        i = i + 1;
    }
    Ok(c)
}

} // verus!

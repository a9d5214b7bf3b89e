//! Normalization of a CMS webhook into the analytics event record.

use vstd::prelude::*;
use vstd::utf8::{valid_utf8, decode_utf8};
use crate::text::{copy_str, push_str};
use crate::event_kind::{texts, derive_event_kind, event_kind_text_spec};
use crate::json::{
    JsonValue, WebhookPayload, extract_string,
    extract_nested_string, first_string_member, string_at_path, key_texts,
};
use crate::status::{extract_statuses, status_csv, status_csv_spec, raw_statuses, sorted_statuses,
    lemma_canonical_is_sorted_statuses, status_member, lemma_canonical_of_short_lists, canonical_statuses};
use crate::time::{UtcTimestamp, parse_rfc3339, rfc3339_instant};
use crate::json::member_value;

verus! {

/// Why a webhook could not be ingested.
#[derive(Debug)]
pub enum IngestError {
    MissingSignature,
    InvalidSignature,
    MissingEnv(&'static str),
    InvalidBody,
    /// The payload is not a webhook document; the text says why.
    ParsePayload(String),
    Parquet(String),
    S3(String),
    /// The system clock reads before 1970 (or past the last instant
    /// `chrono` represents).
    Clock,
}

/// The text an error is reported with.
pub open spec fn ingest_error_message(e: IngestError) -> Seq<char> {
    match e {
        IngestError::MissingSignature => "missing required header: x-microcms-signature"@,
        IngestError::InvalidSignature => "invalid webhook signature"@,
        IngestError::MissingEnv(key) => "missing required environment variable: "@ + key@,
        IngestError::InvalidBody => "invalid request body"@,
        IngestError::ParsePayload(m) => "failed to parse webhook payload: "@ + m@,
        IngestError::Parquet(m) => "failed to build parquet: "@ + m@,
        IngestError::S3(m) => "failed to put object to s3: "@ + m@,
        IngestError::Clock => "system clock is out of range"@,
    }
}

/// The HTTP status an error is answered with: 401 for signature problems,
/// 400 for a bad body or payload, 500 otherwise.
pub open spec fn ingest_error_status(e: IngestError) -> u16 {
    match e {
        IngestError::MissingSignature | IngestError::InvalidSignature => 401,
        IngestError::InvalidBody | IngestError::ParsePayload(_) => 400,
        IngestError::MissingEnv(_) | IngestError::Parquet(_) | IngestError::S3(_) | IngestError::Clock => 500,
    }
}

impl IngestError {
    /// The message of this error.
    pub fn message(&self) -> (r: String)
        ensures
            r@ == ingest_error_message(*self),
    {
        match self {
            IngestError::MissingSignature => copy_str("missing required header: x-microcms-signature"),
            IngestError::InvalidSignature => copy_str("invalid webhook signature"),
            IngestError::MissingEnv(key) => {
                let mut r = copy_str("missing required environment variable: ");
                push_str(&mut r, key);
                r
            },
            IngestError::InvalidBody => copy_str("invalid request body"),
            IngestError::ParsePayload(m) => {
                let mut r = copy_str("failed to parse webhook payload: ");
                push_str(&mut r, m.as_str());
                r
            },
            IngestError::Parquet(m) => {
                let mut r = copy_str("failed to build parquet: ");
                push_str(&mut r, m.as_str());
                r
            },
            IngestError::S3(m) => {
                let mut r = copy_str("failed to put object to s3: ");
                push_str(&mut r, m.as_str());
                r
            },
            IngestError::Clock => copy_str("system clock is out of range"),
        }
    }

    /// The HTTP status code this error is answered with.
    pub fn status_code(&self) -> (r: u16)
        ensures
            r == ingest_error_status(*self),
    {
        match self {
            IngestError::MissingSignature | IngestError::InvalidSignature => 401,
            IngestError::InvalidBody | IngestError::ParsePayload(_) => 400,
            IngestError::MissingEnv(_) | IngestError::Parquet(_) | IngestError::S3(_) | IngestError::Clock => 500,
        }
    }
}

/// The analytics record of one webhook.
pub struct NormalizedEvent {
    pub received_at: UtcTimestamp,
    pub service: Option<String>,
    pub api: Option<String>,
    pub content_id: Option<String>,
    pub event_type: Option<String>,
    pub event_kind: Option<String>,
    pub old_status: Option<String>,
    pub new_status: Option<String>,
    pub old_updated_at: Option<UtcTimestamp>,
    pub new_updated_at: Option<UtcTimestamp>,
    pub draft_created_at: Option<UtcTimestamp>,
    pub content_created_at: Option<UtcTimestamp>,
    pub content_published_at: Option<UtcTimestamp>,
    pub raw_payload: String,
}

/// The analytics record with texts as character sequences and instants as
/// (seconds, nanoseconds).
pub struct EventView {
    pub received_at: UtcTimestamp,
    pub service: Option<Seq<char>>,
    pub api: Option<Seq<char>>,
    pub content_id: Option<Seq<char>>,
    pub event_type: Option<Seq<char>>,
    pub event_kind: Option<Seq<char>>,
    pub old_status: Option<Seq<char>>,
    pub new_status: Option<Seq<char>>,
    pub old_updated_at: Option<(i64, u32)>,
    pub new_updated_at: Option<(i64, u32)>,
    pub draft_created_at: Option<(i64, u32)>,
    pub content_created_at: Option<(i64, u32)>,
    pub content_published_at: Option<(i64, u32)>,
    pub raw_payload: Seq<char>,
}

pub open spec fn opt_text(o: Option<String>) -> Option<Seq<char>> {
    match o {
        Some(s) => Some(s@),
        None => None,
    }
}

pub open spec fn opt_instant(o: Option<UtcTimestamp>) -> Option<(i64, u32)> {
    match o {
        Some(t) => Some((t.seconds, t.nanos)),
        None => None,
    }
}

/// The instant denoted by an optional RFC 3339 text.
pub open spec fn instant_of_text(text: Option<Seq<char>>) -> Option<(i64, u32)> {
    match text {
        Some(t) => rfc3339_instant(t),
        None => None,
    }
}

impl View for NormalizedEvent {
    type V = EventView;

    open spec fn view(&self) -> EventView {
        EventView {
            received_at: self.received_at,
            service: opt_text(self.service),
            api: opt_text(self.api),
            content_id: opt_text(self.content_id),
            event_type: opt_text(self.event_type),
            event_kind: opt_text(self.event_kind),
            old_status: opt_text(self.old_status),
            new_status: opt_text(self.new_status),
            old_updated_at: opt_instant(self.old_updated_at),
            new_updated_at: opt_instant(self.new_updated_at),
            draft_created_at: opt_instant(self.draft_created_at),
            content_created_at: opt_instant(self.content_created_at),
            content_published_at: opt_instant(self.content_published_at),
            raw_payload: self.raw_payload@,
        }
    }
}

/// The keys holding a content document's last update instant.
pub open spec fn updated_at_keys() -> Seq<Seq<char>> {
    seq!["updatedAt"@, "updated_at"@]
}

/// The record of a decoded webhook received at `received_at`, whose payload
/// text is `raw`.
pub open spec fn normalized_view(raw: Seq<char>, p: WebhookPayload, received_at: UtcTimestamp) -> EventView {
    let old_statuses = sorted_statuses(raw_statuses(p.old));
    let new_statuses = sorted_statuses(raw_statuses(p.new));
    EventView {
        received_at,
        service: opt_text(p.service),
        api: opt_text(p.api),
        content_id: opt_text(p.id),
        event_type: opt_text(p.event_type),
        event_kind: event_kind_text_spec(opt_text(p.event_type), old_statuses, new_statuses),
        old_status: status_csv_spec(old_statuses),
        new_status: status_csv_spec(new_statuses),
        old_updated_at: instant_of_text(first_string_member(p.old, updated_at_keys())),
        new_updated_at: instant_of_text(first_string_member(p.new, updated_at_keys())),
        draft_created_at: instant_of_text(string_at_path(p.new, seq!["draftValue"@, "createdAt"@])),
        content_created_at: instant_of_text(string_at_path(p.new, seq!["publishValue"@, "createdAt"@])),
        content_published_at: instant_of_text(string_at_path(p.new, seq!["publishValue"@, "publishedAt"@])),
        raw_payload: raw,
    }
}

/// The webhook a request carries: the body is UTF-8 and deserializes as a
/// webhook record.
pub open spec fn accepted_webhook(body: Seq<u8>, payload: Result<WebhookPayload, String>) -> Option<WebhookPayload> {
    if valid_utf8(body) {
        match payload {
            Ok(p) => Some(p),
            Err(_) => None,
        }
    } else {
        None
    }
}

/// The error a rejected request is answered with: a body that is not UTF-8
/// is `InvalidBody`; a body that does not deserialize as a webhook record
/// is `ParsePayload` with the deserializer's message.
pub open spec fn rejection_of(body: Seq<u8>, payload: Result<WebhookPayload, String>, e: IngestError) -> bool {
    if !valid_utf8(body) {
        e is InvalidBody
    } else {
        match payload {
            Err(m) => e matches IngestError::ParsePayload(x) && x@ == m@,
            Ok(_) => false,
        }
    }
}

/// Decodes UTF-8 text (`std::str::from_utf8`).
#[verifier::external_body]
pub(crate) fn utf8_text(bytes: &[u8]) -> (r: Option<String>)
    ensures
        r is Some <==> valid_utf8(bytes@),
        r matches Some(s) ==> s@ == decode_utf8(bytes@),
{
    match std::str::from_utf8(bytes) {
        Ok(s) => Some(s.to_owned()),
        Err(_) => None,
    }
}

fn optional_instant(text: Option<String>) -> (r: Option<UtcTimestamp>)
    ensures
        opt_instant(r) == instant_of_text(opt_text(text)),
{
    match text {
        Some(t) => parse_rfc3339(t.as_str()),
        None => None,
    }
}

/// Normalizes a webhook received at `received_at`. `body` is the request
/// body and `payload` the webhook record deserialized from it (or the
/// deserializer's message when the body is not JSON or not a webhook
/// record).
///
/// A body that is not UTF-8 is `InvalidBody`; otherwise a payload that did
/// not deserialize is `ParsePayload` with its message; otherwise the record
/// holds the webhook's fields, its event kind, its canonical old and new
/// status sets and the instants found in its content documents.
pub fn normalize_payload(body: &[u8], payload: Result<WebhookPayload, String>, received_at: UtcTimestamp) -> (r: Result<NormalizedEvent, IngestError>)
    ensures
        match r {
            Ok(e) => accepted_webhook(body@, payload) matches Some(p)
                && e@ == normalized_view(decode_utf8(body@), p, received_at),
            Err(e) => accepted_webhook(body@, payload) is None && rejection_of(body@, payload, e),
        },
{
    let raw_payload = match utf8_text(body) {
        Some(s) => s,
        None => { return Err(IngestError::InvalidBody); },
    };
    let payload = match payload {
        Ok(p) => p,
        Err(m) => { return Err(IngestError::ParsePayload(m)); },
    };
    let ghost p = payload;
    let old_statuses = extract_statuses(payload.old.as_ref());
    let new_statuses = extract_statuses(payload.new.as_ref());
    proof {
        lemma_canonical_is_sorted_statuses(raw_statuses(p.old), texts(old_statuses@));
        lemma_canonical_is_sorted_statuses(raw_statuses(p.new), texts(new_statuses@));
    }
    let event_type_text: Option<&str> = match &payload.event_type {
        Some(t) => Some(t.as_str()),
        None => None,
    };
    let event_kind = derive_event_kind(event_type_text, old_statuses.as_slice(), new_statuses.as_slice());
    let old_status = status_csv(old_statuses.as_slice());
    let new_status = status_csv(new_statuses.as_slice());
    let updated_keys: [&str; 2] = ["updatedAt", "updated_at"];
    assert(key_texts(updated_keys@) =~= updated_at_keys());
    let draft_path: [&str; 2] = ["draftValue", "createdAt"];
    assert(key_texts(draft_path@) =~= seq!["draftValue"@, "createdAt"@]);
    let created_path: [&str; 2] = ["publishValue", "createdAt"];
    assert(key_texts(created_path@) =~= seq!["publishValue"@, "createdAt"@]);
    let published_path: [&str; 2] = ["publishValue", "publishedAt"];
    assert(key_texts(published_path@) =~= seq!["publishValue"@, "publishedAt"@]);
    let old_updated_at = optional_instant(extract_string(payload.old.as_ref(), &updated_keys));
    let new_updated_at = optional_instant(extract_string(payload.new.as_ref(), &updated_keys));
    let draft_created_at = optional_instant(extract_nested_string(payload.new.as_ref(), &draft_path));
    let content_created_at = optional_instant(extract_nested_string(payload.new.as_ref(), &created_path));
    let content_published_at = optional_instant(extract_nested_string(payload.new.as_ref(), &published_path));
    Ok(NormalizedEvent {
        received_at,
        service: payload.service,
        api: payload.api,
        content_id: payload.id,
        event_type: payload.event_type,
        event_kind,
        old_status,
        new_status,
        old_updated_at,
        new_updated_at,
        draft_created_at,
        content_created_at,
        content_published_at,
        raw_payload,
    })
}


/// The instants read from the content before the change come from the old
/// document alone, and those read from the content after it from the new
/// document alone: two payloads with the same old document give the same
/// `old_updated_at`, whatever else they hold, and likewise for the new
/// document and the instants read from it.
pub proof fn lemma_instants_read_their_own_document(
    raw1: Seq<char>, p: WebhookPayload, t1: UtcTimestamp,
    raw2: Seq<char>, q: WebhookPayload, t2: UtcTimestamp,
)
    ensures
        p.old == q.old ==> normalized_view(raw1, p, t1).old_updated_at == normalized_view(raw2, q, t2).old_updated_at,
        p.old == q.old ==> normalized_view(raw1, p, t1).old_status == normalized_view(raw2, q, t2).old_status,
        p.new == q.new ==> ({
            let (a, b) = (normalized_view(raw1, p, t1), normalized_view(raw2, q, t2));
            &&& a.new_updated_at == b.new_updated_at
            &&& a.draft_created_at == b.draft_created_at
            &&& a.content_created_at == b.content_created_at
            &&& a.content_published_at == b.content_published_at
            &&& a.new_status == b.new_status
        }),
{
}

proof fn lemma_first_string_member_steps(doc: Option<JsonValue>)
    ensures
        doc is None ==> first_string_member(doc, updated_at_keys()) is None,
        doc matches Some(JsonValue::Object(m)) ==> first_string_member(doc, updated_at_keys()) == (
            match member_value(m@, "updatedAt"@) {
                Some(JsonValue::Str(x)) => Some(x@),
                _ => match member_value(m@, "updated_at"@) {
                    Some(JsonValue::Str(x)) => Some(x@),
                    _ => None,
                },
            }),
{
    let keys = updated_at_keys();
    let rest = keys.drop_first();
    assert(keys[0] == "updatedAt"@);
    assert(rest =~= seq!["updated_at"@]);
    assert(rest[0] == "updated_at"@);
    assert(rest.drop_first().len() == 0);
    assert(first_string_member(doc, rest.drop_first()) is None);
    if let Some(JsonValue::Object(m)) = doc {
        assert(first_string_member(doc, rest) == (match member_value(m@, "updated_at"@) {
            Some(JsonValue::Str(x)) => Some(x@),
            _ => first_string_member(doc, rest.drop_first()),
        }));
    }
}

/// A JSON value that is present and a string.
pub open spec fn is_string_value(v: Option<JsonValue>) -> bool {
    v matches Some(JsonValue::Str(_))
}

/// The last-update instant of a content document is the RFC 3339 instant
/// of its `updatedAt` member when that member is a string: for the old
/// document into `old_updated_at`, for the new one into `new_updated_at`.
/// A payload without the document has none.
pub proof fn lemma_updated_at_member(raw: Seq<char>, p: WebhookPayload, t: UtcTimestamp,
    m: Vec<(String, JsonValue)>, s: String)
    requires
        member_value(m@, "updatedAt"@) == Some(JsonValue::Str(s)),
    ensures
        p.old == Some(JsonValue::Object(m)) ==> normalized_view(raw, p, t).old_updated_at == rfc3339_instant(s@),
        p.new == Some(JsonValue::Object(m)) ==> normalized_view(raw, p, t).new_updated_at == rfc3339_instant(s@),
        p.old is None ==> normalized_view(raw, p, t).old_updated_at is None,
        p.new is None ==> normalized_view(raw, p, t).new_updated_at is None,
{
    lemma_first_string_member_steps(p.old);
    lemma_first_string_member_steps(p.new);
}

/// When a content document's `updatedAt` member is not a string, its
/// last-update instant is read from its `updated_at` member: for the old
/// document into `old_updated_at`, for the new one into `new_updated_at`.
pub proof fn lemma_updated_at_fallback(raw: Seq<char>, p: WebhookPayload, t: UtcTimestamp,
    m: Vec<(String, JsonValue)>, s: String)
    requires
        member_value(m@, "updated_at"@) == Some(JsonValue::Str(s)),
        !is_string_value(member_value(m@, "updatedAt"@)),
    ensures
        p.old == Some(JsonValue::Object(m)) ==> normalized_view(raw, p, t).old_updated_at == rfc3339_instant(s@),
        p.new == Some(JsonValue::Object(m)) ==> normalized_view(raw, p, t).new_updated_at == rfc3339_instant(s@),
{
    lemma_first_string_member_steps(p.old);
    lemma_first_string_member_steps(p.new);
}

/// The record carries the webhook's own fields as they came: service, API,
/// content identifier (`id`) and type, the receipt instant and the body
/// text.
pub proof fn lemma_record_fields(raw: Seq<char>, p: WebhookPayload, t: UtcTimestamp)
    ensures ({
        let v = normalized_view(raw, p, t);
        &&& v.service == opt_text(p.service)
        &&& v.api == opt_text(p.api)
        &&& v.content_id == opt_text(p.id)
        &&& v.event_type == opt_text(p.event_type)
        &&& v.received_at == t
        &&& v.raw_payload == raw
    }),
{
}


proof fn lemma_single_status(doc: Option<JsonValue>, x: String)
    requires
        status_member(doc) == Some(JsonValue::Str(x)),
    ensures
        sorted_statuses(raw_statuses(doc)) == seq![x@],
        status_csv_spec(sorted_statuses(raw_statuses(doc))) == Some(x@),
{
    let raw = raw_statuses(doc);
    assert(raw == seq![x@]);
    assert(canonical_statuses(raw, seq![x@])) by {
        assert(seq![x@].to_set() =~= raw.to_set());
    }
    let sorted = sorted_statuses(raw);
    assert(canonical_statuses(raw, sorted));
    lemma_canonical_of_short_lists(raw, sorted);
}

proof fn lemma_no_status(doc: Option<JsonValue>)
    requires
        status_member(doc) is None,
    ensures
        status_csv_spec(sorted_statuses(raw_statuses(doc))) is None,
{
    let raw = raw_statuses(doc);
    assert(raw =~= Seq::<Seq<char>>::empty());
    assert(canonical_statuses(raw, raw)) by {
        assert(raw.to_set() =~= Set::<Seq<char>>::empty());
    }
    let sorted = sorted_statuses(raw);
    assert(canonical_statuses(raw, sorted));
    lemma_canonical_of_short_lists(raw, sorted);
}

/// The status columns come from their own documents: a content document
/// whose `status` is one string gives exactly that status, the old document
/// in `old_status` and the new one in `new_status`, and a document without
/// a `status` gives none. The kind is then the classification of those two
/// one-status sets under the webhook's type.
pub proof fn lemma_status_columns(raw: Seq<char>, p: WebhookPayload, t: UtcTimestamp, so: String, sn: String)
    ensures
        status_member(p.old) == Some(JsonValue::Str(so)) ==> normalized_view(raw, p, t).old_status == Some(so@),
        status_member(p.new) == Some(JsonValue::Str(sn)) ==> normalized_view(raw, p, t).new_status == Some(sn@),
        status_member(p.old) is None ==> normalized_view(raw, p, t).old_status is None,
        status_member(p.new) is None ==> normalized_view(raw, p, t).new_status is None,
        status_member(p.old) == Some(JsonValue::Str(so)) && status_member(p.new) == Some(JsonValue::Str(sn))
            ==> normalized_view(raw, p, t).event_kind
                == event_kind_text_spec(opt_text(p.event_type), seq![so@], seq![sn@]),
{
    if status_member(p.old) == Some(JsonValue::Str(so)) {
        lemma_single_status(p.old, so);
    }
    if status_member(p.new) == Some(JsonValue::Str(sn)) {
        lemma_single_status(p.new, sn);
    }
    if status_member(p.old) is None {
        lemma_no_status(p.old);
    }
    if status_member(p.new) is None {
        lemma_no_status(p.new);
    }
}


proof fn lemma_two_step_path(m: Vec<(String, JsonValue)>, k1: Seq<char>, d: Vec<(String, JsonValue)>, k2: Seq<char>, x: String)
    requires
        member_value(m@, k1) == Some(JsonValue::Object(d)),
        member_value(d@, k2) == Some(JsonValue::Str(x)),
    ensures
        string_at_path(Some(JsonValue::Object(m)), seq![k1, k2]) == Some(x@),
{
    let path = seq![k1, k2];
    assert(path[0] == k1);
    assert(path.drop_first() =~= seq![k2]);
    assert(path.drop_first()[0] == k2);
    assert(path.drop_first().drop_first() =~= Seq::<Seq<char>>::empty());
    assert(string_at_path(Some(JsonValue::Str(x)), Seq::<Seq<char>>::empty()) == Some(x@));
    assert(string_at_path(Some(JsonValue::Object(d)), seq![k2]) == string_at_path(member_value(d@, k2), Seq::<Seq<char>>::empty()));
}

/// The draft and publication instants are read from the new document: its
/// `draftValue.createdAt` gives `draft_created_at`, its
/// `publishValue.createdAt` gives `content_created_at` and its
/// `publishValue.publishedAt` gives `content_published_at`, each the RFC
/// 3339 instant of that string.
pub proof fn lemma_nested_instants(raw: Seq<char>, p: WebhookPayload, t: UtcTimestamp,
    m: Vec<(String, JsonValue)>, d: Vec<(String, JsonValue)>, x: String)
    requires
        p.new == Some(JsonValue::Object(m)),
    ensures
        member_value(m@, "draftValue"@) == Some(JsonValue::Object(d)) && member_value(d@, "createdAt"@) == Some(JsonValue::Str(x))
            ==> normalized_view(raw, p, t).draft_created_at == rfc3339_instant(x@),
        member_value(m@, "publishValue"@) == Some(JsonValue::Object(d)) && member_value(d@, "createdAt"@) == Some(JsonValue::Str(x))
            ==> normalized_view(raw, p, t).content_created_at == rfc3339_instant(x@),
        member_value(m@, "publishValue"@) == Some(JsonValue::Object(d)) && member_value(d@, "publishedAt"@) == Some(JsonValue::Str(x))
            ==> normalized_view(raw, p, t).content_published_at == rfc3339_instant(x@),
{
    if member_value(m@, "draftValue"@) == Some(JsonValue::Object(d)) && member_value(d@, "createdAt"@) == Some(JsonValue::Str(x)) {
        lemma_two_step_path(m, "draftValue"@, d, "createdAt"@, x);
    }
    if member_value(m@, "publishValue"@) == Some(JsonValue::Object(d)) && member_value(d@, "createdAt"@) == Some(JsonValue::Str(x)) {
        lemma_two_step_path(m, "publishValue"@, d, "createdAt"@, x);
    }
    if member_value(m@, "publishValue"@) == Some(JsonValue::Object(d)) && member_value(d@, "publishedAt"@) == Some(JsonValue::Str(x)) {
        lemma_two_step_path(m, "publishValue"@, d, "publishedAt"@, x);
    }
}

} // verus!

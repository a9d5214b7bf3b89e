//! The webhook bodies of the smoke data set.

use vstd::prelude::*;
use crate::text::{copy_str, push_str};
use crate::time::{UtcTimestamp, to_rfc3339};
use crate::seed::template::instant_text;

verus! {

/// The content document before the change: its status and update instant.
pub open spec fn smoke_old_doc(status: Seq<char>, updated: Seq<char>) -> Seq<char> {
    "{\"status\":[\""@ + status + "\"],\"updatedAt\":\""@ + updated + "\"}"@
}

/// The draft field of a content document after the change, if any.
pub open spec fn smoke_draft_field(draft_created: Option<Seq<char>>) -> Seq<char> {
    match draft_created {
        Some(d) => ",\"draftValue\":{\"createdAt\":\""@ + d + "\"}"@,
        None => Seq::empty(),
    }
}

/// The publication field of a content document after the change, if any.
pub open spec fn smoke_publish_field(publish: Option<(Seq<char>, Seq<char>)>) -> Seq<char> {
    match publish {
        Some((created, published)) => ",\"publishValue\":{\"createdAt\":\""@ + created
            + "\",\"publishedAt\":\""@ + published + "\"}"@,
        None => Seq::empty(),
    }
}

/// The content document after the change: status and update instant, then
/// the draft and publication fields when present.
pub open spec fn smoke_new_doc(
    status: Seq<char>,
    updated: Seq<char>,
    draft_created: Option<Seq<char>>,
    publish: Option<(Seq<char>, Seq<char>)>,
) -> Seq<char> {
    "{\"status\":[\""@ + status + "\"],\"updatedAt\":\""@ + updated + "\""@
        + smoke_draft_field(draft_created) + smoke_publish_field(publish) + "}"@
}

/// The RFC 3339 text of an optional instant, or of `default` when absent.
pub open spec fn text_or(t: Option<UtcTimestamp>, default: UtcTimestamp) -> Seq<char> {
    match t {
        Some(x) => instant_text(x),
        None => instant_text(default),
    }
}

/// The text of an optional document, or `null`.
pub open spec fn doc_or_null(doc: Option<Seq<char>>) -> Seq<char> {
    match doc {
        Some(d) => d,
        None => "null"@,
    }
}

/// The `id` line of a smoke body, or nothing for content without an id.
pub open spec fn smoke_id_field(content_id: Option<Seq<char>>) -> Seq<char> {
    match content_id {
        Some(id) => "\"id\": \""@ + id + "\","@,
        None => Seq::empty(),
    }
}

/// The body of a smoke webhook.
pub open spec fn smoke_body_spec(
    api: Seq<char>,
    content_id: Option<Seq<char>>,
    event_type: Seq<char>,
    old_status: Option<Seq<char>>,
    new_status: Option<Seq<char>>,
    received_at: UtcTimestamp,
    old_updated_at: Option<UtcTimestamp>,
    new_updated_at: Option<UtcTimestamp>,
    draft_created_at: Option<UtcTimestamp>,
    content_created_at: Option<UtcTimestamp>,
    content_published_at: Option<UtcTimestamp>,
) -> Seq<char> {
    let old = match old_status {
        Some(s) => Some(smoke_old_doc(s, text_or(old_updated_at, received_at))),
        None => None,
    };
    let publish = if content_created_at is Some || content_published_at is Some {
        Some((text_or(content_created_at, received_at), text_or(content_published_at, received_at)))
    } else {
        None
    };
    let draft = match draft_created_at {
        Some(d) => Some(instant_text(d)),
        None => None,
    };
    let new = match new_status {
        Some(s) => Some(smoke_new_doc(s, text_or(new_updated_at, received_at), draft, publish)),
        None => None,
    };
    "{\n          \"service\": \"example-service\",\n          \"api\": \""@ + api
        + "\",\n          "@ + smoke_id_field(content_id) + "\n          \"type\": \""@ + event_type
        + "\",\n          \"contents\": {\n            \"old\": "@ + doc_or_null(old)
        + ",\n            \"new\": "@ + doc_or_null(new) + "\n          }\n        }"@
}

/// The instants of a smoke webhook are ones `chrono` represents.
pub open spec fn smoke_instants_valid(
    received_at: UtcTimestamp,
    old_updated_at: Option<UtcTimestamp>,
    new_updated_at: Option<UtcTimestamp>,
    draft_created_at: Option<UtcTimestamp>,
    content_created_at: Option<UtcTimestamp>,
    content_published_at: Option<UtcTimestamp>,
) -> bool {
    &&& received_at.valid()
    &&& (old_updated_at matches Some(t) ==> t.valid())
    &&& (new_updated_at matches Some(t) ==> t.valid())
    &&& (draft_created_at matches Some(t) ==> t.valid())
    &&& (content_created_at matches Some(t) ==> t.valid())
    &&& (content_published_at matches Some(t) ==> t.valid())
}

fn rfc3339_or(t: Option<UtcTimestamp>, default: UtcTimestamp) -> (r: String)
    requires
        default.valid(),
        t matches Some(x) ==> x.valid(),
    ensures
        r@ == text_or(t, default),
{
    match t {
        Some(x) => to_rfc3339(x),
        None => to_rfc3339(default),
    }
}

fn old_document(status: &str, updated_at: Option<UtcTimestamp>, received_at: UtcTimestamp) -> (r: String)
    requires
        received_at.valid(),
        updated_at matches Some(t) ==> t.valid(),
    ensures
        r@ == smoke_old_doc(status@, text_or(updated_at, received_at)),
{
    let mut doc = copy_str("{\"status\":[\"");
    push_str(&mut doc, status);
    push_str(&mut doc, "\"],\"updatedAt\":\"");
    let updated = rfc3339_or(updated_at, received_at);
    push_str(&mut doc, updated.as_str());
    push_str(&mut doc, "\"}");
    doc
}

fn draft_field(draft_created_at: Option<UtcTimestamp>) -> (r: String)
    requires
        draft_created_at matches Some(t) ==> t.valid(),
    ensures
        r@ == smoke_draft_field(match draft_created_at {
            Some(d) => Some(instant_text(d)),
            None => None,
        }),
{
    match draft_created_at {
        Some(d) => {
            let mut f = copy_str(",\"draftValue\":{\"createdAt\":\"");
            let dt = to_rfc3339(d);
            push_str(&mut f, dt.as_str());
            push_str(&mut f, "\"}");
            f
        },
        None => String::new(),
    }
}

fn publish_field(
    received_at: UtcTimestamp,
    content_created_at: Option<UtcTimestamp>,
    content_published_at: Option<UtcTimestamp>,
) -> (r: String)
    requires
        received_at.valid(),
        content_created_at matches Some(t) ==> t.valid(),
        content_published_at matches Some(t) ==> t.valid(),
    ensures
        r@ == smoke_publish_field(if content_created_at is Some || content_published_at is Some {
            Some((text_or(content_created_at, received_at), text_or(content_published_at, received_at)))
        } else {
            None
        }),
{
    if content_created_at.is_some() || content_published_at.is_some() {
        let created = rfc3339_or(content_created_at, received_at);
        let published = rfc3339_or(content_published_at, received_at);
        let mut f = copy_str(",\"publishValue\":{\"createdAt\":\"");
        push_str(&mut f, created.as_str());
        push_str(&mut f, "\",\"publishedAt\":\"");
        push_str(&mut f, published.as_str());
        push_str(&mut f, "\"}");
        f
    } else {
        String::new()
    }
}

fn new_document(
    status: &str,
    received_at: UtcTimestamp,
    updated_at: Option<UtcTimestamp>,
    draft_created_at: Option<UtcTimestamp>,
    content_created_at: Option<UtcTimestamp>,
    content_published_at: Option<UtcTimestamp>,
) -> (r: String)
    requires
        smoke_instants_valid(received_at, None, updated_at, draft_created_at, content_created_at,
            content_published_at),
    ensures
        r@ == smoke_new_doc(status@, text_or(updated_at, received_at), match draft_created_at {
            Some(d) => Some(instant_text(d)),
            None => None,
        }, if content_created_at is Some || content_published_at is Some {
            Some((text_or(content_created_at, received_at), text_or(content_published_at, received_at)))
        } else {
            None
        }),
{
    let mut doc = copy_str("{\"status\":[\"");
    push_str(&mut doc, status);
    push_str(&mut doc, "\"],\"updatedAt\":\"");
    let updated = rfc3339_or(updated_at, received_at);
    push_str(&mut doc, updated.as_str());
    push_str(&mut doc, "\"");
    let d = draft_field(draft_created_at);
    push_str(&mut doc, d.as_str());
    let p = publish_field(received_at, content_created_at, content_published_at);
    push_str(&mut doc, p.as_str());
    push_str(&mut doc, "}");
    doc
}

fn body_head(api: &str, content_id: Option<&str>, event_type: &str) -> (r: String)
    ensures
        r@ == "{\n          \"service\": \"example-service\",\n          \"api\": \""@ + api@
            + "\",\n          "@ + smoke_id_field(match content_id { Some(c) => Some(c@), None => None })
            + "\n          \"type\": \""@ + event_type@,
{
    let mut body = copy_str("{\n          \"service\": \"example-service\",\n          \"api\": \"");
    push_str(&mut body, api);
    push_str(&mut body, "\",\n          ");
    match content_id {
        Some(id) => {
            push_str(&mut body, "\"id\": \"");
            push_str(&mut body, id);
            push_str(&mut body, "\",");
        },
        None => {},
    }
    push_str(&mut body, "\n          \"type\": \"");
    push_str(&mut body, event_type);
    body
}

/// Writes a smoke webhook body and pairs it with its receipt instant.
pub fn smoke_fixture(
    api: &str,
    content_id: Option<&str>,
    event_type: &str,
    old_status: Option<&str>,
    new_status: Option<&str>,
    received_at: UtcTimestamp,
    old_updated_at: Option<UtcTimestamp>,
    new_updated_at: Option<UtcTimestamp>,
    draft_created_at: Option<UtcTimestamp>,
    content_created_at: Option<UtcTimestamp>,
    content_published_at: Option<UtcTimestamp>,
) -> (r: (String, UtcTimestamp))
    requires
        smoke_instants_valid(received_at, old_updated_at, new_updated_at, draft_created_at,
            content_created_at, content_published_at),
    ensures
        r.1 == received_at,
        r.0@ == smoke_body_spec(api@, match content_id { Some(c) => Some(c@), None => None },
            event_type@, match old_status { Some(s) => Some(s@), None => None },
            match new_status { Some(s) => Some(s@), None => None }, received_at, old_updated_at,
            new_updated_at, draft_created_at, content_created_at, content_published_at),
{
    let old: Option<String> = match old_status {
        Some(status) => Some(old_document(status, old_updated_at, received_at)),
        None => None,
    };
    let new: Option<String> = match new_status {
        Some(status) => Some(new_document(status, received_at, new_updated_at, draft_created_at,
            content_created_at, content_published_at)),
        None => None,
    };
    let mut body = body_head(api, content_id, event_type);
    push_str(&mut body, "\",\n          \"contents\": {\n            \"old\": ");
    match &old {
        Some(d) => push_str(&mut body, d.as_str()),
        None => push_str(&mut body, "null"),
    }
    push_str(&mut body, ",\n            \"new\": ");
    match &new {
        Some(d) => push_str(&mut body, d.as_str()),
        None => push_str(&mut body, "null"),
    }
    push_str(&mut body, "\n          }\n        }");
    (body, received_at)
}

} // verus!

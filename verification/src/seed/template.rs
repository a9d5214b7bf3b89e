//! The webhook bodies of bulk data, one template per event kind.

use vstd::prelude::*;
use crate::text::{concat_texts, concat_strs};
use crate::time::{UtcTimestamp, to_rfc3339, rfc3339_text, valid_instant};
use crate::event_kind::{EventKind, event_kind_spec, has_status_spec};

verus! {

/// The event kind a bulk webhook is written for.
#[derive(Clone, Copy, Debug, PartialEq, Eq, Structural)]
pub enum BulkTemplate {
    InitialDraft,
    SaveDraft,
    PublishFromDraft,
    InitialPublish,
    UpdatePublished,
    AddDraftToPublished,
    DiscardDraftOnPublished,
    UnpublishToDraft,
    UnpublishToClosed,
    ReopenToDraft,
    RepublishFromClosed,
    DeleteDraft,
    DeletePublished,
    DeleteClosed,
}

/// The webhook type a template is written with.
pub open spec fn template_type(t: BulkTemplate) -> Seq<char> {
    match t {
        BulkTemplate::InitialDraft | BulkTemplate::InitialPublish => "new"@,
        BulkTemplate::DeleteDraft | BulkTemplate::DeletePublished | BulkTemplate::DeleteClosed => "delete"@,
        _ => "edit"@,
    }
}

/// The old and new status sets a template writes (empty for `null`).
pub open spec fn template_statuses(t: BulkTemplate) -> (Seq<Seq<char>>, Seq<Seq<char>>) {
    match t {
        BulkTemplate::InitialDraft => (seq![], seq!["DRAFT"@]),
        BulkTemplate::SaveDraft => (seq!["DRAFT"@], seq!["DRAFT"@]),
        BulkTemplate::PublishFromDraft => (seq!["DRAFT"@], seq!["PUBLISH"@]),
        BulkTemplate::InitialPublish => (seq![], seq!["PUBLISH"@]),
        BulkTemplate::UpdatePublished => (seq!["PUBLISH"@], seq!["PUBLISH"@]),
        BulkTemplate::AddDraftToPublished => (seq!["PUBLISH"@], seq!["PUBLISH"@, "DRAFT"@]),
        BulkTemplate::DiscardDraftOnPublished => (seq!["PUBLISH"@, "DRAFT"@], seq!["PUBLISH"@]),
        BulkTemplate::UnpublishToDraft => (seq!["PUBLISH"@], seq!["DRAFT"@]),
        BulkTemplate::UnpublishToClosed => (seq!["PUBLISH"@], seq!["CLOSED"@]),
        BulkTemplate::ReopenToDraft => (seq!["CLOSED"@], seq!["DRAFT"@]),
        BulkTemplate::RepublishFromClosed => (seq!["CLOSED"@], seq!["PUBLISH"@]),
        BulkTemplate::DeleteDraft => (seq!["DRAFT"@], seq![]),
        BulkTemplate::DeletePublished => (seq!["PUBLISH"@], seq![]),
        BulkTemplate::DeleteClosed => (seq!["CLOSED"@], seq![]),
    }
}

/// The event kind a template is written for.
pub open spec fn template_kind(t: BulkTemplate) -> EventKind {
    match t {
        BulkTemplate::InitialDraft => EventKind::InitialDraft,
        BulkTemplate::SaveDraft => EventKind::SaveDraft,
        BulkTemplate::PublishFromDraft => EventKind::PublishFromDraft,
        BulkTemplate::InitialPublish => EventKind::InitialPublish,
        BulkTemplate::UpdatePublished => EventKind::UpdatePublished,
        BulkTemplate::AddDraftToPublished => EventKind::AddDraftToPublished,
        BulkTemplate::DiscardDraftOnPublished => EventKind::DiscardDraftOnPublished,
        BulkTemplate::UnpublishToDraft => EventKind::UnpublishToDraft,
        BulkTemplate::UnpublishToClosed => EventKind::UnpublishToClosed,
        BulkTemplate::ReopenToDraft => EventKind::ReopenToDraft,
        BulkTemplate::RepublishFromClosed => EventKind::RepublishFromClosed,
        BulkTemplate::DeleteDraft => EventKind::DeleteDraft,
        BulkTemplate::DeletePublished => EventKind::DeletePublished,
        BulkTemplate::DeleteClosed => EventKind::DeleteClosed,
    }
}

/// Every template writes a webhook type and status sets that are
/// classified as the event kind the template is written for, so the kinds
/// of bulk data follow its template counts.
pub proof fn lemma_templates_classify_as_their_kind(t: BulkTemplate)
    ensures
        event_kind_spec(Some(template_type(t)), template_statuses(t).0, template_statuses(t).1)
            == Some(template_kind(t)),
{
    reveal_strlit("new");
    reveal_strlit("edit");
    reveal_strlit("delete");
    reveal_strlit("DRAFT");
    reveal_strlit("PUBLISH");
    reveal_strlit("CLOSED");
    let old = template_statuses(t).0;
    let new = template_statuses(t).1;
    assert("edit"@.len() == 4 && "new"@.len() == 3 && "delete"@.len() == 6);
    assert("DRAFT"@.len() == 5 && "PUBLISH"@.len() == 7 && "CLOSED"@.len() == 6);
    if old.len() > 0 {
        assert(has_status_spec(old, old[0]));
    }
    if new.len() > 0 {
        assert(has_status_spec(new, new[0]));
    }
    match t {
        BulkTemplate::AddDraftToPublished => {
            assert(new[1] == "DRAFT"@);
            assert(has_status_spec(new, "DRAFT"@));
            assert(!has_status_spec(old, "DRAFT"@));
        },
        BulkTemplate::DiscardDraftOnPublished => {
            assert(old[1] == "DRAFT"@);
            assert(has_status_spec(old, "DRAFT"@));
            assert(!has_status_spec(new, "DRAFT"@));
        },
        _ => {},
    }
}

/// The instants a bulk webhook carries for its content, where they differ
/// from the defaults derived from its receipt instant.
#[derive(Clone, Copy, Debug)]
pub struct BulkEventTiming {
    pub draft_created_at: Option<UtcTimestamp>,
    pub content_created_at: Option<UtcTimestamp>,
    pub content_published_at: Option<UtcTimestamp>,
}

impl BulkEventTiming {
    /// The timing of a filler webhook: every instant derived from receipt.
    pub fn for_filler(template: BulkTemplate) -> (r: Self)
        ensures
            r.draft_created_at is None,
            r.content_created_at is None,
            r.content_published_at is None,
    {
        BulkEventTiming { draft_created_at: None, content_created_at: None, content_published_at: None }
    }
}

/// The instant `days` days before `t`.
pub open spec fn days_before(t: UtcTimestamp, days: int) -> UtcTimestamp {
    UtcTimestamp { seconds: (t.seconds - days * 86_400) as i64, nanos: t.nanos }
}

/// The instant `days` days before `t` is one `chrono` represents.
pub open spec fn days_before_valid(t: UtcTimestamp, days: int) -> bool {
    valid_instant(t.seconds - days * 86_400, t.nanos as int)
}

/// Returns the instant `days` days before `t`.
pub fn minus_days(t: UtcTimestamp, days: i64) -> (r: UtcTimestamp)
    requires
        t.valid(),
        days_before_valid(t, days as int),
    ensures
        r == days_before(t, days as int),
        r.valid(),
{
    UtcTimestamp { seconds: t.seconds - days * 86_400, nanos: t.nanos }
}

/// The text pieces of a bulk webhook body, given the API, the content id
/// and the RFC 3339 texts of its instants.
pub open spec fn template_pieces(
    template: BulkTemplate,
    api: Seq<char>,
    content_id: Seq<char>,
    timestamp: Seq<char>,
    day_before: Seq<char>,
    draft_created_at: Seq<char>,
    content_created_at: Seq<char>,
    content_published_at: Seq<char>,
) -> Seq<Seq<char>> {
    match template {
        BulkTemplate::InitialDraft => seq!["{\n              \"service\":\"example-service\",\n              \"api\":\""@, api, "\",\n              \"id\":\""@, content_id, "\",\n              \"type\":\"new\",\n              \"contents\":{\n                \"old\":null,\n                \"new\":{\n                  \"status\":[\"DRAFT\"],\n                  \"updatedAt\":\""@, timestamp, "\",\n                  \"draftValue\":{\"createdAt\":\""@, draft_created_at, "\"}\n                }\n              }\n            }"@],
        BulkTemplate::SaveDraft => seq!["{\n              \"service\":\"example-service\",\n              \"api\":\""@, api, "\",\n              \"id\":\""@, content_id, "\",\n              \"type\":\"edit\",\n              \"contents\":{\n                \"old\":{\"status\":[\"DRAFT\"],\"updatedAt\":\""@, day_before, "\"},\n                \"new\":{\n                  \"status\":[\"DRAFT\"],\n                  \"updatedAt\":\""@, timestamp, "\",\n                  \"draftValue\":{\"createdAt\":\""@, draft_created_at, "\"}\n                }\n              }\n            }"@],
        BulkTemplate::InitialPublish => seq!["{\n              \"service\":\"example-service\",\n              \"api\":\""@, api, "\",\n              \"id\":\""@, content_id, "\",\n              \"type\":\"new\",\n              \"contents\":{\n                \"old\":null,\n                \"new\":{\n                  \"status\":[\"PUBLISH\"],\n                  \"updatedAt\":\""@, timestamp, "\",\n                  \"publishValue\":{\"createdAt\":\""@, content_created_at, "\",\"publishedAt\":\""@, content_published_at, "\"}\n                }\n              }\n            }"@],
        BulkTemplate::PublishFromDraft => seq!["{\n              \"service\":\"example-service\",\n              \"api\":\""@, api, "\",\n              \"id\":\""@, content_id, "\",\n              \"type\":\"edit\",\n              \"contents\":{\n                \"old\":{\"status\":[\"DRAFT\"],\"updatedAt\":\""@, day_before, "\"},\n                \"new\":{\n                  \"status\":[\"PUBLISH\"],\n                  \"updatedAt\":\""@, timestamp, "\",\n                  \"publishValue\":{\"createdAt\":\""@, content_created_at, "\",\"publishedAt\":\""@, content_published_at, "\"}\n                }\n              }\n            }"@],
        BulkTemplate::UpdatePublished => seq!["{\n              \"service\":\"example-service\",\n              \"api\":\""@, api, "\",\n              \"id\":\""@, content_id, "\",\n              \"type\":\"edit\",\n              \"contents\":{\n                \"old\":{\"status\":[\"PUBLISH\"],\"updatedAt\":\""@, day_before, "\"},\n                \"new\":{\"status\":[\"PUBLISH\"],\"updatedAt\":\""@, timestamp, "\"}\n              }\n            }"@],
        BulkTemplate::AddDraftToPublished => seq!["{\n              \"service\":\"example-service\",\n              \"api\":\""@, api, "\",\n              \"id\":\""@, content_id, "\",\n              \"type\":\"edit\",\n              \"contents\":{\n                \"old\":{\"status\":[\"PUBLISH\"],\"updatedAt\":\""@, day_before, "\"},\n                \"new\":{\n                  \"status\":[\"PUBLISH\",\"DRAFT\"],\n                  \"updatedAt\":\""@, timestamp, "\",\n                  \"draftKey\":\"debug-draft-key\",\n                  \"publishValue\":{\"createdAt\":\""@, content_created_at, "\",\"publishedAt\":\""@, content_published_at, "\"},\n                  \"draftValue\":{\"createdAt\":\""@, draft_created_at, "\"}\n                }\n              }\n            }"@],
        BulkTemplate::DiscardDraftOnPublished => seq!["{\n              \"service\":\"example-service\",\n              \"api\":\""@, api, "\",\n              \"id\":\""@, content_id, "\",\n              \"type\":\"edit\",\n              \"contents\":{\n                \"old\":{\n                  \"status\":[\"PUBLISH\",\"DRAFT\"],\n                  \"updatedAt\":\""@, day_before, "\",\n                  \"draftKey\":\"debug-draft-key\",\n                  \"publishValue\":{\"createdAt\":\""@, content_created_at, "\",\"publishedAt\":\""@, content_published_at, "\"},\n                  \"draftValue\":{\"createdAt\":\""@, draft_created_at, "\"}\n                },\n                \"new\":{\n                  \"status\":[\"PUBLISH\"],\n                  \"updatedAt\":\""@, timestamp, "\",\n                  \"draftKey\":null,\n                  \"publishValue\":{\"createdAt\":\""@, content_created_at, "\",\"publishedAt\":\""@, content_published_at, "\"},\n                  \"draftValue\":null\n                }\n              }\n            }"@],
        BulkTemplate::UnpublishToDraft => seq!["{\n              \"service\":\"example-service\",\n              \"api\":\""@, api, "\",\n              \"id\":\""@, content_id, "\",\n              \"type\":\"edit\",\n              \"contents\":{\n                \"old\":{\"status\":[\"PUBLISH\"],\"updatedAt\":\""@, day_before, "\"},\n                \"new\":{\n                  \"status\":[\"DRAFT\"],\n                  \"updatedAt\":\""@, timestamp, "\",\n                  \"draftKey\":\"debug-draft-key\",\n                  \"publishValue\":null,\n                  \"draftValue\":{\"createdAt\":\""@, draft_created_at, "\"}\n                }\n              }\n            }"@],
        BulkTemplate::UnpublishToClosed => seq!["{\n              \"service\":\"example-service\",\n              \"api\":\""@, api, "\",\n              \"id\":\""@, content_id, "\",\n              \"type\":\"edit\",\n              \"contents\":{\n                \"old\":{\"status\":[\"PUBLISH\"],\"updatedAt\":\""@, day_before, "\"},\n                \"new\":{\n                  \"status\":[\"CLOSED\"],\n                  \"updatedAt\":\""@, timestamp, "\",\n                  \"draftKey\":null,\n                  \"publishValue\":null,\n                  \"draftValue\":null\n                }\n              }\n            }"@],
        BulkTemplate::ReopenToDraft => seq!["{\n              \"service\":\"example-service\",\n              \"api\":\""@, api, "\",\n              \"id\":\""@, content_id, "\",\n              \"type\":\"edit\",\n              \"contents\":{\n                \"old\":{\"status\":[\"CLOSED\"],\"updatedAt\":\""@, day_before, "\"},\n                \"new\":{\n                  \"status\":[\"DRAFT\"],\n                  \"updatedAt\":\""@, timestamp, "\",\n                  \"draftKey\":\"debug-draft-key\",\n                  \"publishValue\":null,\n                  \"draftValue\":{\"createdAt\":\""@, draft_created_at, "\"}\n                }\n              }\n            }"@],
        BulkTemplate::RepublishFromClosed => seq!["{\n              \"service\":\"example-service\",\n              \"api\":\""@, api, "\",\n              \"id\":\""@, content_id, "\",\n              \"type\":\"edit\",\n              \"contents\":{\n                \"old\":{\"status\":[\"CLOSED\"],\"updatedAt\":\""@, day_before, "\"},\n                \"new\":{\n                  \"status\":[\"PUBLISH\"],\n                  \"updatedAt\":\""@, timestamp, "\",\n                  \"publishValue\":{\"createdAt\":\""@, content_created_at, "\",\"publishedAt\":\""@, content_published_at, "\"}\n                }\n              }\n            }"@],
        BulkTemplate::DeleteDraft => seq!["{\n              \"service\":\"example-service\",\n              \"api\":\""@, api, "\",\n              \"id\":\""@, content_id, "\",\n              \"type\":\"delete\",\n              \"contents\":{\n                \"old\":{\"status\":[\"DRAFT\"],\"updatedAt\":\""@, timestamp, "\"},\n                \"new\":null\n              }\n            }"@],
        BulkTemplate::DeletePublished => seq!["{\n              \"service\":\"example-service\",\n              \"api\":\""@, api, "\",\n              \"id\":\""@, content_id, "\",\n              \"type\":\"delete\",\n              \"contents\":{\n                \"old\":{\"status\":[\"PUBLISH\"],\"updatedAt\":\""@, timestamp, "\"},\n                \"new\":null\n              }\n            }"@],
        BulkTemplate::DeleteClosed => seq!["{\n              \"service\":\"example-service\",\n              \"api\":\""@, api, "\",\n              \"id\":\""@, content_id, "\",\n              \"type\":\"delete\",\n              \"contents\":{\n                \"old\":{\"status\":[\"CLOSED\"],\"updatedAt\":\""@, timestamp, "\"},\n                \"new\":null\n              }\n            }"@],
    }
}

fn template_piece_texts<'a>(
    template: BulkTemplate,
    api: &'a str,
    content_id: &'a str,
    timestamp: &'a str,
    day_before: &'a str,
    draft_created_at: &'a str,
    content_created_at: &'a str,
    content_published_at: &'a str,
) -> (r: Vec<&'a str>)
    ensures
        r@.len() == template_pieces(template, api@, content_id@, timestamp@, day_before@,
            draft_created_at@, content_created_at@, content_published_at@).len(),
        forall|i: int| 0 <= i < r@.len() ==> (#[trigger] r@[i])@ == template_pieces(template, api@,
            content_id@, timestamp@, day_before@, draft_created_at@, content_created_at@,
            content_published_at@)[i],
{
    match template {
        BulkTemplate::InitialDraft => vec!["{\n              \"service\":\"example-service\",\n              \"api\":\"", api, "\",\n              \"id\":\"", content_id, "\",\n              \"type\":\"new\",\n              \"contents\":{\n                \"old\":null,\n                \"new\":{\n                  \"status\":[\"DRAFT\"],\n                  \"updatedAt\":\"", timestamp, "\",\n                  \"draftValue\":{\"createdAt\":\"", draft_created_at, "\"}\n                }\n              }\n            }"],
        BulkTemplate::SaveDraft => vec!["{\n              \"service\":\"example-service\",\n              \"api\":\"", api, "\",\n              \"id\":\"", content_id, "\",\n              \"type\":\"edit\",\n              \"contents\":{\n                \"old\":{\"status\":[\"DRAFT\"],\"updatedAt\":\"", day_before, "\"},\n                \"new\":{\n                  \"status\":[\"DRAFT\"],\n                  \"updatedAt\":\"", timestamp, "\",\n                  \"draftValue\":{\"createdAt\":\"", draft_created_at, "\"}\n                }\n              }\n            }"],
        BulkTemplate::InitialPublish => vec!["{\n              \"service\":\"example-service\",\n              \"api\":\"", api, "\",\n              \"id\":\"", content_id, "\",\n              \"type\":\"new\",\n              \"contents\":{\n                \"old\":null,\n                \"new\":{\n                  \"status\":[\"PUBLISH\"],\n                  \"updatedAt\":\"", timestamp, "\",\n                  \"publishValue\":{\"createdAt\":\"", content_created_at, "\",\"publishedAt\":\"", content_published_at, "\"}\n                }\n              }\n            }"],
        BulkTemplate::PublishFromDraft => vec!["{\n              \"service\":\"example-service\",\n              \"api\":\"", api, "\",\n              \"id\":\"", content_id, "\",\n              \"type\":\"edit\",\n              \"contents\":{\n                \"old\":{\"status\":[\"DRAFT\"],\"updatedAt\":\"", day_before, "\"},\n                \"new\":{\n                  \"status\":[\"PUBLISH\"],\n                  \"updatedAt\":\"", timestamp, "\",\n                  \"publishValue\":{\"createdAt\":\"", content_created_at, "\",\"publishedAt\":\"", content_published_at, "\"}\n                }\n              }\n            }"],
        BulkTemplate::UpdatePublished => vec!["{\n              \"service\":\"example-service\",\n              \"api\":\"", api, "\",\n              \"id\":\"", content_id, "\",\n              \"type\":\"edit\",\n              \"contents\":{\n                \"old\":{\"status\":[\"PUBLISH\"],\"updatedAt\":\"", day_before, "\"},\n                \"new\":{\"status\":[\"PUBLISH\"],\"updatedAt\":\"", timestamp, "\"}\n              }\n            }"],
        BulkTemplate::AddDraftToPublished => vec!["{\n              \"service\":\"example-service\",\n              \"api\":\"", api, "\",\n              \"id\":\"", content_id, "\",\n              \"type\":\"edit\",\n              \"contents\":{\n                \"old\":{\"status\":[\"PUBLISH\"],\"updatedAt\":\"", day_before, "\"},\n                \"new\":{\n                  \"status\":[\"PUBLISH\",\"DRAFT\"],\n                  \"updatedAt\":\"", timestamp, "\",\n                  \"draftKey\":\"debug-draft-key\",\n                  \"publishValue\":{\"createdAt\":\"", content_created_at, "\",\"publishedAt\":\"", content_published_at, "\"},\n                  \"draftValue\":{\"createdAt\":\"", draft_created_at, "\"}\n                }\n              }\n            }"],
        BulkTemplate::DiscardDraftOnPublished => vec!["{\n              \"service\":\"example-service\",\n              \"api\":\"", api, "\",\n              \"id\":\"", content_id, "\",\n              \"type\":\"edit\",\n              \"contents\":{\n                \"old\":{\n                  \"status\":[\"PUBLISH\",\"DRAFT\"],\n                  \"updatedAt\":\"", day_before, "\",\n                  \"draftKey\":\"debug-draft-key\",\n                  \"publishValue\":{\"createdAt\":\"", content_created_at, "\",\"publishedAt\":\"", content_published_at, "\"},\n                  \"draftValue\":{\"createdAt\":\"", draft_created_at, "\"}\n                },\n                \"new\":{\n                  \"status\":[\"PUBLISH\"],\n                  \"updatedAt\":\"", timestamp, "\",\n                  \"draftKey\":null,\n                  \"publishValue\":{\"createdAt\":\"", content_created_at, "\",\"publishedAt\":\"", content_published_at, "\"},\n                  \"draftValue\":null\n                }\n              }\n            }"],
        BulkTemplate::UnpublishToDraft => vec!["{\n              \"service\":\"example-service\",\n              \"api\":\"", api, "\",\n              \"id\":\"", content_id, "\",\n              \"type\":\"edit\",\n              \"contents\":{\n                \"old\":{\"status\":[\"PUBLISH\"],\"updatedAt\":\"", day_before, "\"},\n                \"new\":{\n                  \"status\":[\"DRAFT\"],\n                  \"updatedAt\":\"", timestamp, "\",\n                  \"draftKey\":\"debug-draft-key\",\n                  \"publishValue\":null,\n                  \"draftValue\":{\"createdAt\":\"", draft_created_at, "\"}\n                }\n              }\n            }"],
        BulkTemplate::UnpublishToClosed => vec!["{\n              \"service\":\"example-service\",\n              \"api\":\"", api, "\",\n              \"id\":\"", content_id, "\",\n              \"type\":\"edit\",\n              \"contents\":{\n                \"old\":{\"status\":[\"PUBLISH\"],\"updatedAt\":\"", day_before, "\"},\n                \"new\":{\n                  \"status\":[\"CLOSED\"],\n                  \"updatedAt\":\"", timestamp, "\",\n                  \"draftKey\":null,\n                  \"publishValue\":null,\n                  \"draftValue\":null\n                }\n              }\n            }"],
        BulkTemplate::ReopenToDraft => vec!["{\n              \"service\":\"example-service\",\n              \"api\":\"", api, "\",\n              \"id\":\"", content_id, "\",\n              \"type\":\"edit\",\n              \"contents\":{\n                \"old\":{\"status\":[\"CLOSED\"],\"updatedAt\":\"", day_before, "\"},\n                \"new\":{\n                  \"status\":[\"DRAFT\"],\n                  \"updatedAt\":\"", timestamp, "\",\n                  \"draftKey\":\"debug-draft-key\",\n                  \"publishValue\":null,\n                  \"draftValue\":{\"createdAt\":\"", draft_created_at, "\"}\n                }\n              }\n            }"],
        BulkTemplate::RepublishFromClosed => vec!["{\n              \"service\":\"example-service\",\n              \"api\":\"", api, "\",\n              \"id\":\"", content_id, "\",\n              \"type\":\"edit\",\n              \"contents\":{\n                \"old\":{\"status\":[\"CLOSED\"],\"updatedAt\":\"", day_before, "\"},\n                \"new\":{\n                  \"status\":[\"PUBLISH\"],\n                  \"updatedAt\":\"", timestamp, "\",\n                  \"publishValue\":{\"createdAt\":\"", content_created_at, "\",\"publishedAt\":\"", content_published_at, "\"}\n                }\n              }\n            }"],
        BulkTemplate::DeleteDraft => vec!["{\n              \"service\":\"example-service\",\n              \"api\":\"", api, "\",\n              \"id\":\"", content_id, "\",\n              \"type\":\"delete\",\n              \"contents\":{\n                \"old\":{\"status\":[\"DRAFT\"],\"updatedAt\":\"", timestamp, "\"},\n                \"new\":null\n              }\n            }"],
        BulkTemplate::DeletePublished => vec!["{\n              \"service\":\"example-service\",\n              \"api\":\"", api, "\",\n              \"id\":\"", content_id, "\",\n              \"type\":\"delete\",\n              \"contents\":{\n                \"old\":{\"status\":[\"PUBLISH\"],\"updatedAt\":\"", timestamp, "\"},\n                \"new\":null\n              }\n            }"],
        BulkTemplate::DeleteClosed => vec!["{\n              \"service\":\"example-service\",\n              \"api\":\"", api, "\",\n              \"id\":\"", content_id, "\",\n              \"type\":\"delete\",\n              \"contents\":{\n                \"old\":{\"status\":[\"CLOSED\"],\"updatedAt\":\"", timestamp, "\"},\n                \"new\":null\n              }\n            }"],
    }
}

/// The instants a bulk webhook is written with: receipt, the day before,
/// draft creation (receipt minus 7 days unless given), content creation
/// (receipt minus 7 days unless given) and publication (receipt unless
/// given).
pub open spec fn body_instants(received_at: UtcTimestamp, timing: BulkEventTiming) -> (UtcTimestamp, UtcTimestamp, UtcTimestamp, UtcTimestamp, UtcTimestamp) {
    (
        received_at,
        days_before(received_at, 1),
        match timing.draft_created_at { Some(t) => t, None => days_before(received_at, 7) },
        match timing.content_created_at { Some(t) => t, None => days_before(received_at, 7) },
        match timing.content_published_at { Some(t) => t, None => received_at },
    )
}

/// All instants of a bulk webhook are ones `chrono` represents.
pub open spec fn body_instants_valid(received_at: UtcTimestamp, timing: BulkEventTiming) -> bool {
    &&& received_at.valid()
    &&& days_before_valid(received_at, 1)
    &&& days_before_valid(received_at, 7)
    &&& (timing.draft_created_at matches Some(t) ==> t.valid())
    &&& (timing.content_created_at matches Some(t) ==> t.valid())
    &&& (timing.content_published_at matches Some(t) ==> t.valid())
}

/// The RFC 3339 text of an instant.
pub open spec fn instant_text(t: UtcTimestamp) -> Seq<char> {
    rfc3339_text(t.seconds, t.nanos)
}

/// The body of a bulk webhook of `template` for content `content_id` of
/// `api`, received at `received_at`.
pub open spec fn bulk_body_spec(
    api: Seq<char>,
    content_id: Seq<char>,
    template: BulkTemplate,
    received_at: UtcTimestamp,
    timing: BulkEventTiming,
) -> Seq<char> {
    let (ts, before, draft, created, published) = body_instants(received_at, timing);
    concat_texts(template_pieces(template, api, content_id, instant_text(ts), instant_text(before),
        instant_text(draft), instant_text(created), instant_text(published)))
}

fn text_of_or(t: Option<UtcTimestamp>, default: UtcTimestamp) -> (r: String)
    requires
        default.valid(),
        t matches Some(x) ==> x.valid(),
    ensures
        r@ == instant_text(match t { Some(x) => x, None => default }),
{
    match t {
        Some(x) => to_rfc3339(x),
        None => to_rfc3339(default),
    }
}

/// Writes the body of a bulk webhook.
pub fn build_bulk_webhook_body(
    api: &str,
    content_id: &str,
    template: BulkTemplate,
    received_at: UtcTimestamp,
    timing: &BulkEventTiming,
) -> (r: String)
    requires
        body_instants_valid(received_at, *timing),
    ensures
        r@ == bulk_body_spec(api@, content_id@, template, received_at, *timing),
{
    let timestamp = to_rfc3339(received_at);
    let day_before = to_rfc3339(minus_days(received_at, 1));
    let week_before = minus_days(received_at, 7);
    let draft_created_at = text_of_or(timing.draft_created_at, week_before);
    let content_created_at = text_of_or(timing.content_created_at, week_before);
    let content_published_at = text_of_or(timing.content_published_at, received_at);
    let pieces = template_piece_texts(template, api, content_id, timestamp.as_str(),
        day_before.as_str(), draft_created_at.as_str(), content_created_at.as_str(),
        content_published_at.as_str());
    let ghost spec_pieces = template_pieces(template, api@, content_id@, timestamp@, day_before@,
        draft_created_at@, content_created_at@, content_published_at@);
    assert(pieces@.map_values(|p: &str| p@) =~= spec_pieces);
    concat_strs(pieces.as_slice())
}

} // verus!

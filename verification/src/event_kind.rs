//! Classification of a webhook into an analytics event kind from the
//! webhook `type` and the old/new content status sets.

use vstd::prelude::*;
use crate::text::{str_equal, copy_str};

verus! {

/// One of the fourteen analytics event kinds.
#[derive(Clone, Copy, Debug, PartialEq, Eq, Structural)]
pub enum EventKind {
    InitialDraft,
    SaveDraft,
    PublishFromDraft,
    InitialPublish,
    UpdatePublished,
    AddDraftToPublished,
    DiscardDraftOnPublished,
    UnpublishToDraft,
    UnpublishToClosed,
    ReopenToDraft,
    RepublishFromClosed,
    DeleteDraft,
    DeletePublished,
    DeleteClosed,
}

/// The canonical state of a content status set.
#[derive(Clone, Copy, Debug, PartialEq, Eq, Structural)]
pub enum ContentStatus {
    Draft,
    Publish,
    Closed,
}

/// The stored name of an event kind.
pub open spec fn event_kind_name(kind: EventKind) -> Seq<char> {
    match kind {
        EventKind::InitialDraft => "INITIAL_DRAFT"@,
        EventKind::SaveDraft => "SAVE_DRAFT"@,
        EventKind::PublishFromDraft => "PUBLISH_FROM_DRAFT"@,
        EventKind::InitialPublish => "INITIAL_PUBLISH"@,
        EventKind::UpdatePublished => "UPDATE_PUBLISHED"@,
        EventKind::AddDraftToPublished => "ADD_DRAFT_TO_PUBLISHED"@,
        EventKind::DiscardDraftOnPublished => "DISCARD_DRAFT_ON_PUBLISHED"@,
        EventKind::UnpublishToDraft => "UNPUBLISH_TO_DRAFT"@,
        EventKind::UnpublishToClosed => "UNPUBLISH_TO_CLOSED"@,
        EventKind::ReopenToDraft => "REOPEN_TO_DRAFT"@,
        EventKind::RepublishFromClosed => "REPUBLISH_FROM_CLOSED"@,
        EventKind::DeleteDraft => "DELETE_DRAFT"@,
        EventKind::DeletePublished => "DELETE_PUBLISHED"@,
        EventKind::DeleteClosed => "DELETE_CLOSED"@,
    }
}

impl EventKind {
    /// The stored name of this event kind, such as `PUBLISH_FROM_DRAFT`.
    pub fn as_str(&self) -> (s: &'static str)
        ensures
            s@ == event_kind_name(*self),
    {
        match self {
            EventKind::InitialDraft => "INITIAL_DRAFT",
            EventKind::SaveDraft => "SAVE_DRAFT",
            EventKind::PublishFromDraft => "PUBLISH_FROM_DRAFT",
            EventKind::InitialPublish => "INITIAL_PUBLISH",
            EventKind::UpdatePublished => "UPDATE_PUBLISHED",
            EventKind::AddDraftToPublished => "ADD_DRAFT_TO_PUBLISHED",
            EventKind::DiscardDraftOnPublished => "DISCARD_DRAFT_ON_PUBLISHED",
            EventKind::UnpublishToDraft => "UNPUBLISH_TO_DRAFT",
            EventKind::UnpublishToClosed => "UNPUBLISH_TO_CLOSED",
            EventKind::ReopenToDraft => "REOPEN_TO_DRAFT",
            EventKind::RepublishFromClosed => "REPUBLISH_FROM_CLOSED",
            EventKind::DeleteDraft => "DELETE_DRAFT",
            EventKind::DeletePublished => "DELETE_PUBLISHED",
            EventKind::DeleteClosed => "DELETE_CLOSED",
        }
    }
}

/// The views of a slice of strings.
pub open spec fn texts(v: Seq<String>) -> Seq<Seq<char>> {
    v.map_values(|s: String| s@)
}

/// Whether `expected` occurs among `statuses`.
pub open spec fn has_status_spec(statuses: Seq<Seq<char>>, expected: Seq<char>) -> bool {
    exists|i: int| 0 <= i < statuses.len() && statuses[i] == expected
}

/// The canonical state of a status set: any set holding `PUBLISH` is
/// published; a set of exactly `DRAFT` or exactly `CLOSED` is that state;
/// every other set (empty, unknown or mixed without `PUBLISH`) has none.
pub open spec fn canonical_status_spec(statuses: Seq<Seq<char>>) -> Option<ContentStatus> {
    if has_status_spec(statuses, "PUBLISH"@) {
        Some(ContentStatus::Publish)
    } else if has_status_spec(statuses, "DRAFT"@) && statuses.len() == 1 {
        Some(ContentStatus::Draft)
    } else if has_status_spec(statuses, "CLOSED"@) && statuses.len() == 1 {
        Some(ContentStatus::Closed)
    } else {
        None
    }
}

/// The event kind of a webhook with type `event_type` whose content moved
/// from the status set `old` to the status set `new`.
pub open spec fn event_kind_spec(
    event_type: Option<Seq<char>>,
    old: Seq<Seq<char>>,
    new: Seq<Seq<char>>,
) -> Option<EventKind> {
    let o = canonical_status_spec(old);
    let n = canonical_status_spec(new);
    let old_draft = has_status_spec(old, "DRAFT"@);
    let new_draft = has_status_spec(new, "DRAFT"@);
    if event_type == Some("new"@) {
        match (o, n) {
            (None, Some(ContentStatus::Draft)) => Some(EventKind::InitialDraft),
            (None, Some(ContentStatus::Publish)) => Some(EventKind::InitialPublish),
            _ => None,
        }
    } else if event_type == Some("edit"@) {
        match (o, n) {
            (Some(ContentStatus::Draft), Some(ContentStatus::Draft)) => Some(EventKind::SaveDraft),
            (Some(ContentStatus::Draft), Some(ContentStatus::Publish)) => Some(
                EventKind::PublishFromDraft,
            ),
            (Some(ContentStatus::Publish), Some(ContentStatus::Publish)) => if !old_draft
                && new_draft {
                Some(EventKind::AddDraftToPublished)
            } else if old_draft && !new_draft {
                Some(EventKind::DiscardDraftOnPublished)
            } else {
                Some(EventKind::UpdatePublished)
            },
            (Some(ContentStatus::Publish), Some(ContentStatus::Draft)) => Some(
                EventKind::UnpublishToDraft,
            ),
            (Some(ContentStatus::Publish), Some(ContentStatus::Closed)) => Some(
                EventKind::UnpublishToClosed,
            ),
            (Some(ContentStatus::Closed), Some(ContentStatus::Draft)) => Some(
                EventKind::ReopenToDraft,
            ),
            (Some(ContentStatus::Closed), Some(ContentStatus::Publish)) => Some(
                EventKind::RepublishFromClosed,
            ),
            _ => None,
        }
    } else if event_type == Some("delete"@) {
        match (o, n) {
            (Some(ContentStatus::Draft), None) => Some(EventKind::DeleteDraft),
            (Some(ContentStatus::Publish), None) => Some(EventKind::DeletePublished),
            (Some(ContentStatus::Closed), None) => Some(EventKind::DeleteClosed),
            _ => None,
        }
    } else {
        None
    }
}

/// The stored event-kind column for a webhook: the kind's name, or nothing.
pub open spec fn event_kind_text_spec(
    event_type: Option<Seq<char>>,
    old: Seq<Seq<char>>,
    new: Seq<Seq<char>>,
) -> Option<Seq<char>> {
    match event_kind_spec(event_type, old, new) {
        Some(k) => Some(event_kind_name(k)),
        None => None,
    }
}

/// Returns whether `expected` occurs among `statuses`.
pub fn has_status(statuses: &[String], expected: &str) -> (r: bool)
    ensures
        r == has_status_spec(texts(statuses@), expected@),
{
    let mut i: usize = 0;
    while i < statuses.len()
        invariant
            0 <= i <= statuses.len(),
            forall|j: int| 0 <= j < i ==> statuses@[j]@ != expected@,
        decreases statuses.len() - i,
    {
        if str_equal(statuses[i].as_str(), expected) {
            assert(texts(statuses@)[i as int] == expected@);
            return true;
        }
        i = i + 1;
    }
    assert forall|j: int| 0 <= j < texts(statuses@).len() implies texts(statuses@)[j]
        != expected@ by {
        assert(texts(statuses@)[j] == statuses@[j]@);
    }
    false
}

/// Returns the canonical state of a status set.
pub fn canonical_status(statuses: &[String]) -> (r: Option<ContentStatus>)
    ensures
        r == canonical_status_spec(texts(statuses@)),
{
    if has_status(statuses, "PUBLISH") {
        Some(ContentStatus::Publish)
    } else if has_status(statuses, "DRAFT") && statuses.len() == 1 {
        Some(ContentStatus::Draft)
    } else if has_status(statuses, "CLOSED") && statuses.len() == 1 {
        Some(ContentStatus::Closed)
    } else {
        None
    }
}

/// Classifies a webhook into its event kind.
pub fn classify_event(event_type: Option<&str>, old_statuses: &[String], new_statuses: &[String]) -> (r: Option<EventKind>)
    ensures
        r == event_kind_spec(
            match event_type { Some(t) => Some(t@), None => None },
            texts(old_statuses@),
            texts(new_statuses@),
        ),
{
    let old_state = canonical_status(old_statuses);
    let new_state = canonical_status(new_statuses);
    let old_draft = has_status(old_statuses, "DRAFT");
    let new_draft = has_status(new_statuses, "DRAFT");
    match event_type {
        None => None,
        Some(t) => {
            if str_equal(t, "new") {
                match (old_state, new_state) {
                    (None, Some(ContentStatus::Draft)) => Some(EventKind::InitialDraft),
                    (None, Some(ContentStatus::Publish)) => Some(EventKind::InitialPublish),
                    _ => None,
                }
            } else if str_equal(t, "edit") {
                match (old_state, new_state) {
                    (Some(ContentStatus::Draft), Some(ContentStatus::Draft)) => Some(EventKind::SaveDraft),
                    (Some(ContentStatus::Draft), Some(ContentStatus::Publish)) => Some(EventKind::PublishFromDraft),
                    (Some(ContentStatus::Publish), Some(ContentStatus::Publish)) => {
                        if !old_draft && new_draft {
                            Some(EventKind::AddDraftToPublished)
                        } else if old_draft && !new_draft {
                            Some(EventKind::DiscardDraftOnPublished)
                        } else {
                            Some(EventKind::UpdatePublished)
                        }
                    },
                    (Some(ContentStatus::Publish), Some(ContentStatus::Draft)) => Some(EventKind::UnpublishToDraft),
                    (Some(ContentStatus::Publish), Some(ContentStatus::Closed)) => Some(EventKind::UnpublishToClosed),
                    (Some(ContentStatus::Closed), Some(ContentStatus::Draft)) => Some(EventKind::ReopenToDraft),
                    (Some(ContentStatus::Closed), Some(ContentStatus::Publish)) => Some(EventKind::RepublishFromClosed),
                    _ => None,
                }
            } else if str_equal(t, "delete") {
                match (old_state, new_state) {
                    (Some(ContentStatus::Draft), None) => Some(EventKind::DeleteDraft),
                    (Some(ContentStatus::Publish), None) => Some(EventKind::DeletePublished),
                    (Some(ContentStatus::Closed), None) => Some(EventKind::DeleteClosed),
                    _ => None,
                }
            } else {
                None
            }
        },
    }
}

/// Derives the stored event-kind column of a webhook from its type and its
/// old and new status sets.
pub fn derive_event_kind(event_type: Option<&str>, old_statuses: &[String], new_statuses: &[String]) -> (r: Option<String>)
    ensures
        (match r { Some(s) => Some(s@), None => None }) == event_kind_text_spec(
            match event_type { Some(t) => Some(t@), None => None },
            texts(old_statuses@),
            texts(new_statuses@),
        ),
{
    match classify_event(event_type, old_statuses, new_statuses) {
        Some(kind) => Some(copy_str(kind.as_str())),
        None => None,
    }
}


/// The status set is exactly `{status}`.
pub open spec fn only_status(s: Seq<Seq<char>>, status: Seq<char>) -> bool {
    s.len() == 1 && s[0] == status
}

/// The status set is neither published nor exactly draft nor exactly closed.
pub open spec fn no_state(s: Seq<Seq<char>>) -> bool {
    !s.contains("PUBLISH"@) && !only_status(s, "DRAFT"@) && !only_status(s, "CLOSED"@)
}

proof fn lemma_status_facts(s: Seq<Seq<char>>)
    ensures
        has_status_spec(s, "PUBLISH"@) == s.contains("PUBLISH"@),
        has_status_spec(s, "DRAFT"@) == s.contains("DRAFT"@),
        (has_status_spec(s, "DRAFT"@) && s.len() == 1) == only_status(s, "DRAFT"@),
        (has_status_spec(s, "CLOSED"@) && s.len() == 1) == only_status(s, "CLOSED"@),
        only_status(s, "DRAFT"@) ==> !s.contains("PUBLISH"@) && !only_status(s, "CLOSED"@),
        only_status(s, "CLOSED"@) ==> !s.contains("PUBLISH"@),
{
    reveal_strlit("PUBLISH");
    reveal_strlit("DRAFT");
    reveal_strlit("CLOSED");
    assert("PUBLISH"@.len() == 7 && "DRAFT"@.len() == 5 && "CLOSED"@.len() == 6);
    assert("PUBLISH"@ != "DRAFT"@);
    assert("PUBLISH"@ != "CLOSED"@);
    assert("DRAFT"@ != "CLOSED"@);
    if s.len() == 1 {
        if s.contains("DRAFT"@) {
            let i = choose|i: int| 0 <= i < s.len() && s[i] == "DRAFT"@;
            assert(s[0] == "DRAFT"@);
        }
        if s.contains("CLOSED"@) {
            let i = choose|i: int| 0 <= i < s.len() && s[i] == "CLOSED"@;
            assert(s[0] == "CLOSED"@);
        }
        if has_status_spec(s, "CLOSED"@) {
            let i = choose|i: int| 0 <= i < s.len() && s[i] == "CLOSED"@;
            assert(s[0] == "CLOSED"@);
        }
        if has_status_spec(s, "DRAFT"@) {
            let i = choose|i: int| 0 <= i < s.len() && s[i] == "DRAFT"@;
            assert(s[0] == "DRAFT"@);
        }
        if only_status(s, "DRAFT"@) || only_status(s, "CLOSED"@) {
            assert(s.contains(s[0]));
            if s.contains("PUBLISH"@) {
                let i = choose|i: int| 0 <= i < s.len() && s[i] == "PUBLISH"@;
                assert(i == 0);
            }
        }
    }
}

/// How an edit is classified, by the old and new status sets alone: a draft
/// saved as a draft, a draft published, a draft added to or discarded from
/// a published content (the draft present on one side only), any other
/// change of a published content (a draft on both sides or on neither), an
/// unpublication to draft or to closed, a reopening and a republication;
/// anything else has no kind.
pub proof fn lemma_edit_kinds(old: Seq<Seq<char>>, new: Seq<Seq<char>>)
    ensures ({
        let k = event_kind_spec(Some("edit"@), old, new);
        let (op, np) = (old.contains("PUBLISH"@), new.contains("PUBLISH"@));
        let (od, nd) = (old.contains("DRAFT"@), new.contains("DRAFT"@));
        &&& k == Some(EventKind::SaveDraft) <==> only_status(old, "DRAFT"@) && only_status(new, "DRAFT"@)
        &&& k == Some(EventKind::PublishFromDraft) <==> only_status(old, "DRAFT"@) && np
        &&& k == Some(EventKind::AddDraftToPublished) <==> op && np && !od && nd
        &&& k == Some(EventKind::DiscardDraftOnPublished) <==> op && np && od && !nd
        &&& k == Some(EventKind::UpdatePublished) <==> op && np && od == nd
        &&& k == Some(EventKind::UnpublishToDraft) <==> op && only_status(new, "DRAFT"@)
        &&& k == Some(EventKind::UnpublishToClosed) <==> op && only_status(new, "CLOSED"@)
        &&& k == Some(EventKind::ReopenToDraft) <==> only_status(old, "CLOSED"@) && only_status(new, "DRAFT"@)
        &&& k == Some(EventKind::RepublishFromClosed) <==> only_status(old, "CLOSED"@) && np
        &&& k is None <==> (no_state(old) || no_state(new)
            || (only_status(old, "DRAFT"@) && only_status(new, "CLOSED"@))
            || (only_status(old, "CLOSED"@) && only_status(new, "CLOSED"@)))
    }),
{
    lemma_status_facts(old);
    lemma_status_facts(new);
    reveal_strlit("edit");
    reveal_strlit("new");
    assert("edit"@.len() == 4 && "new"@.len() == 3);
    assert("edit"@ != "new"@);
}

/// How a creation is classified: a content without a state before it
/// becomes an initial draft when it is exactly a draft, and an initial
/// publication when it is published; anything else has no kind.
pub proof fn lemma_new_kinds(old: Seq<Seq<char>>, new: Seq<Seq<char>>)
    ensures ({
        let k = event_kind_spec(Some("new"@), old, new);
        &&& k == Some(EventKind::InitialDraft) <==> no_state(old) && only_status(new, "DRAFT"@)
        &&& k == Some(EventKind::InitialPublish) <==> no_state(old) && new.contains("PUBLISH"@)
        &&& k is None <==> !(no_state(old) && (only_status(new, "DRAFT"@) || new.contains("PUBLISH"@)))
    }),
{
    lemma_status_facts(old);
    lemma_status_facts(new);
}

/// How a deletion is classified: a content left without a state is a
/// deleted draft, published content or closed content by its old state;
/// anything else has no kind.
pub proof fn lemma_delete_kinds(old: Seq<Seq<char>>, new: Seq<Seq<char>>)
    ensures ({
        let k = event_kind_spec(Some("delete"@), old, new);
        &&& k == Some(EventKind::DeleteDraft) <==> only_status(old, "DRAFT"@) && no_state(new)
        &&& k == Some(EventKind::DeletePublished) <==> old.contains("PUBLISH"@) && no_state(new)
        &&& k == Some(EventKind::DeleteClosed) <==> only_status(old, "CLOSED"@) && no_state(new)
        &&& k is None <==> (no_state(old) || !no_state(new))
    }),
{
    lemma_status_facts(old);
    lemma_status_facts(new);
    reveal_strlit("delete");
    reveal_strlit("edit");
    reveal_strlit("new");
    assert("delete"@.len() == 6 && "edit"@.len() == 4 && "new"@.len() == 3);
    assert("delete"@ != "new"@);
    assert("delete"@ != "edit"@);
}

/// A webhook of any other type, or of none, has no kind.
pub proof fn lemma_other_types_have_no_kind(event_type: Option<Seq<char>>, old: Seq<Seq<char>>, new: Seq<Seq<char>>)
    requires
        event_type != Some("new"@),
        event_type != Some("edit"@),
        event_type != Some("delete"@),
    ensures
        event_kind_spec(event_type, old, new) is None,
{
}

} // verus!

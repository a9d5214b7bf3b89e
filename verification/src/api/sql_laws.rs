//! What the metrics queries count: the columns each query holds, stated in
//! terms of the event kinds and their stored names.

use vstd::prelude::*;
use crate::text::concat_texts;
use crate::event_kind::{EventKind, event_kind_name};
use crate::api::sql::{
    bounds_cte_spec, publish_action_summary_sql_spec, api_activity_sql_spec, publish_action_trend_sql_spec,
    average_time_to_publish_sql_spec, unit_divisor, unit_column, signed_decimal_text,
};
use crate::api::validation::PublishDurationUnit;

verus! {

/// `s` occurs in `t`.
pub open spec fn has_infix(t: Seq<char>, s: Seq<char>) -> bool {
    exists|i: int| 0 <= i && i + s.len() <= t.len() && #[trigger] t.subrange(i, i + s.len()) == s
}

/// A text with its ASCII capitals turned to small letters.
pub open spec fn lowercase(s: Seq<char>) -> Seq<char> {
    s.map_values(|c: char| if 'A' <= c && c <= 'Z' { ((c as u32) + 32) as char } else { c })
}

/// The kinds that publish a content: from a draft, directly, or from closed.
pub open spec fn publication_kinds() -> Seq<EventKind> {
    seq![EventKind::PublishFromDraft, EventKind::InitialPublish, EventKind::RepublishFromClosed]
}

/// The kinds after which a content is published: the publications and the
/// updates of a published content.
pub open spec fn published_state_kinds() -> Seq<EventKind> {
    seq![EventKind::PublishFromDraft, EventKind::InitialPublish, EventKind::UpdatePublished,
        EventKind::RepublishFromClosed]
}

/// The kinds that leave a content in a state of its own: every kind but the
/// changes of a published content's draft and the deletions.
pub open spec fn state_arrival_kinds() -> Seq<EventKind> {
    seq![EventKind::InitialDraft, EventKind::SaveDraft, EventKind::PublishFromDraft, EventKind::InitialPublish,
        EventKind::UpdatePublished, EventKind::UnpublishToDraft, EventKind::UnpublishToClosed,
        EventKind::ReopenToDraft, EventKind::RepublishFromClosed]
}

/// The quoted, comma-separated stored names of event kinds, as an SQL
/// `IN` list holds them: `'A', 'B', 'C'`.
pub open spec fn kind_name_list(kinds: Seq<EventKind>) -> Seq<char>
    decreases kinds.len(),
{
    if kinds.len() == 0 {
        Seq::empty()
    } else if kinds.len() == 1 {
        seq!['\''] + event_kind_name(kinds[0]) + seq!['\'']
    } else {
        kind_name_list(kinds.drop_last()) + ", '"@ + event_kind_name(kinds.last()) + seq!['\'']
    }
}

/// A column counting the rows whose kind is one of `kinds`, named `column`.
pub open spec fn kinds_count_column(kinds: Seq<EventKind>, column: Seq<char>) -> Seq<char> {
    "SUM(CASE WHEN event_kind IN ("@ + kind_name_list(kinds) + ") THEN 1 ELSE 0 END), 0) AS "@ + column
}

/// The column named after a kind: its stored name in small letters with
/// `_count`.
pub open spec fn kind_column_name(kind: EventKind) -> Seq<char> {
    lowercase(event_kind_name(kind)) + "_count"@
}

/// A column counting the rows of one kind, named after the kind.
pub open spec fn kind_count_column(kind: EventKind) -> Seq<char> {
    "SUM(CASE WHEN event_kind = '"@ + event_kind_name(kind) + "' THEN 1 ELSE 0 END) AS "@ + kind_column_name(kind)
}

proof fn lemma_infix_extend(t: Seq<char>, u: Seq<char>, s: Seq<char>)
    requires
        has_infix(t, s),
    ensures
        has_infix(t + u, s),
{
    let i = choose|i: int| 0 <= i && i + s.len() <= t.len() && #[trigger] t.subrange(i, i + s.len()) == s;
    assert((t + u).subrange(i, i + s.len()) =~= t.subrange(i, i + s.len()));
}

/// A text found inside one piece of a concatenation is found in the whole.
proof fn lemma_infix_in_piece(pieces: Seq<Seq<char>>, j: int, k: int, s: Seq<char>)
    requires
        0 <= j < pieces.len(),
        0 <= k,
        k + s.len() <= pieces[j].len(),
        pieces[j].subrange(k, k + s.len()) == s,
    ensures
        has_infix(concat_texts(pieces), s),
    decreases pieces.len(),
{
    let front = pieces.drop_last();
    if j == pieces.len() - 1 {
        let pre = concat_texts(front);
        let i = pre.len() + k;
        assert(concat_texts(pieces).subrange(i, i + s.len()) =~= pieces[j].subrange(k, k + s.len()));
    } else {
        assert(front[j] == pieces[j]);
        lemma_infix_in_piece(front, j, k, s);
        lemma_infix_extend(concat_texts(front), pieces.last(), s);
    }
}

/// The summary's `publish_count` counts exactly the publications: the rows
/// whose kind is one of `publication_kinds`.
#[verifier::rlimit(40)]
#[verifier::spinoff_prover]
pub proof fn lemma_summary_counts_publications(events_sql: Seq<char>, from_ms: i64, to_ms: i64)
    ensures
        has_infix(publish_action_summary_sql_spec(events_sql, from_ms, to_ms), kinds_count_column(publication_kinds(), "publish_count"@)),
{
    let pieces = seq!["\n        WITH "@, bounds_cte_spec(from_ms, to_ms), ",\n        summary AS (\n          SELECT\n            COALESCE(SUM(CASE WHEN event_kind IN ('PUBLISH_FROM_DRAFT', 'INITIAL_PUBLISH', 'REPUBLISH_FROM_CLOSED') THEN 1 ELSE 0 END), 0) AS publish_count,\n            COALESCE(SUM(CASE WHEN event_kind IN ('PUBLISH_FROM_DRAFT', 'INITIAL_PUBLISH', 'UPDATE_PUBLISHED', 'REPUBLISH_FROM_CLOSED') THEN 1 ELSE 0 END), 0) AS published_state_count,\n            COALESCE(SUM(CASE WHEN event_kind IN ('INITIAL_DRAFT', 'SAVE_DRAFT', 'PUBLISH_FROM_DRAFT', 'INITIAL_PUBLISH', 'UPDATE_PUBLISHED', 'UNPUBLISH_TO_DRAFT', 'UNPUBLISH_TO_CLOSED', 'REOPEN_TO_DRAFT', 'REPUBLISH_FROM_CLOSED') THEN 1 ELSE 0 END), 0) AS state_arrival_count\n          FROM "@, events_sql, "\n          WHERE\n            dt >= (SELECT start_date FROM bounds)\n            AND dt <= (SELECT end_date FROM bounds)\n        )\n        SELECT\n          publish_count,\n          published_state_count,\n          state_arrival_count,\n          CASE\n            WHEN state_arrival_count = 0 THEN NULL\n            ELSE published_state_count::DOUBLE / state_arrival_count\n          END AS published_state_rate\n        FROM summary\n        "@];
    reveal_strlit("\n        WITH ");
    reveal_strlit(",\n        summary AS (\n          SELECT\n            COALESCE(SUM(CASE WHEN event_kind IN ('PUBLISH_FROM_DRAFT', 'INITIAL_PUBLISH', 'REPUBLISH_FROM_CLOSED') THEN 1 ELSE 0 END), 0) AS publish_count,\n            COALESCE(SUM(CASE WHEN event_kind IN ('PUBLISH_FROM_DRAFT', 'INITIAL_PUBLISH', 'UPDATE_PUBLISHED', 'REPUBLISH_FROM_CLOSED') THEN 1 ELSE 0 END), 0) AS published_state_count,\n            COALESCE(SUM(CASE WHEN event_kind IN ('INITIAL_DRAFT', 'SAVE_DRAFT', 'PUBLISH_FROM_DRAFT', 'INITIAL_PUBLISH', 'UPDATE_PUBLISHED', 'UNPUBLISH_TO_DRAFT', 'UNPUBLISH_TO_CLOSED', 'REOPEN_TO_DRAFT', 'REPUBLISH_FROM_CLOSED') THEN 1 ELSE 0 END), 0) AS state_arrival_count\n          FROM ");
    reveal_strlit("\n          WHERE\n            dt >= (SELECT start_date FROM bounds)\n            AND dt <= (SELECT end_date FROM bounds)\n        )\n        SELECT\n          publish_count,\n          published_state_count,\n          state_arrival_count,\n          CASE\n            WHEN state_arrival_count = 0 THEN NULL\n            ELSE published_state_count::DOUBLE / state_arrival_count\n          END AS published_state_rate\n        FROM summary\n        ");
    reveal_strlit("INITIAL_PUBLISH");
    reveal_strlit("PUBLISH_FROM_DRAFT");
    reveal_strlit("REPUBLISH_FROM_CLOSED");
    reveal_strlit(", '");
    assert(kind_name_list(seq![EventKind::PublishFromDraft]) == seq!['\''] + "PUBLISH_FROM_DRAFT"@ + seq!['\'']);
    assert(seq![EventKind::PublishFromDraft, EventKind::InitialPublish].drop_last() =~= seq![EventKind::PublishFromDraft]);
    assert(kind_name_list(seq![EventKind::PublishFromDraft, EventKind::InitialPublish]) == kind_name_list(seq![EventKind::PublishFromDraft]) + ", '"@ + "INITIAL_PUBLISH"@ + seq!['\'']);
    assert(seq![EventKind::PublishFromDraft, EventKind::InitialPublish, EventKind::RepublishFromClosed].drop_last() =~= seq![EventKind::PublishFromDraft, EventKind::InitialPublish]);
    assert(kind_name_list(seq![EventKind::PublishFromDraft, EventKind::InitialPublish, EventKind::RepublishFromClosed]) == kind_name_list(seq![EventKind::PublishFromDraft, EventKind::InitialPublish]) + ", '"@ + "REPUBLISH_FROM_CLOSED"@ + seq!['\'']);
    reveal_strlit("SUM(CASE WHEN event_kind IN (");
    reveal_strlit(") THEN 1 ELSE 0 END), 0) AS ");
    reveal_strlit("publish_count");
    let text = "SUM(CASE WHEN event_kind IN ('PUBLISH_FROM_DRAFT', 'INITIAL_PUBLISH', 'REPUBLISH_FROM_CLOSED') THEN 1 ELSE 0 END), 0) AS publish_count"@;
    reveal_strlit("SUM(CASE WHEN event_kind IN ('PUBLISH_FROM_DRAFT', 'INITIAL_PUBLISH', 'REPUBLISH_FROM_CLOSED') THEN 1 ELSE 0 END), 0) AS publish_count");
    assert(kinds_count_column(seq![EventKind::PublishFromDraft, EventKind::InitialPublish, EventKind::RepublishFromClosed], "publish_count"@) =~= text);
    assert(pieces[2].subrange(61, 61 + text.len() as int) =~= text);
    lemma_infix_in_piece(pieces, 2, 61, text);
}

/// The summary's `published_state_count` counts the publications and the
/// updates of published contents.
#[verifier::rlimit(40)]
#[verifier::spinoff_prover]
pub proof fn lemma_summary_counts_published_states(events_sql: Seq<char>, from_ms: i64, to_ms: i64)
    ensures
        has_infix(publish_action_summary_sql_spec(events_sql, from_ms, to_ms), kinds_count_column(published_state_kinds(), "published_state_count"@)),
{
    let pieces = seq!["\n        WITH "@, bounds_cte_spec(from_ms, to_ms), ",\n        summary AS (\n          SELECT\n            COALESCE(SUM(CASE WHEN event_kind IN ('PUBLISH_FROM_DRAFT', 'INITIAL_PUBLISH', 'REPUBLISH_FROM_CLOSED') THEN 1 ELSE 0 END), 0) AS publish_count,\n            COALESCE(SUM(CASE WHEN event_kind IN ('PUBLISH_FROM_DRAFT', 'INITIAL_PUBLISH', 'UPDATE_PUBLISHED', 'REPUBLISH_FROM_CLOSED') THEN 1 ELSE 0 END), 0) AS published_state_count,\n            COALESCE(SUM(CASE WHEN event_kind IN ('INITIAL_DRAFT', 'SAVE_DRAFT', 'PUBLISH_FROM_DRAFT', 'INITIAL_PUBLISH', 'UPDATE_PUBLISHED', 'UNPUBLISH_TO_DRAFT', 'UNPUBLISH_TO_CLOSED', 'REOPEN_TO_DRAFT', 'REPUBLISH_FROM_CLOSED') THEN 1 ELSE 0 END), 0) AS state_arrival_count\n          FROM "@, events_sql, "\n          WHERE\n            dt >= (SELECT start_date FROM bounds)\n            AND dt <= (SELECT end_date FROM bounds)\n        )\n        SELECT\n          publish_count,\n          published_state_count,\n          state_arrival_count,\n          CASE\n            WHEN state_arrival_count = 0 THEN NULL\n            ELSE published_state_count::DOUBLE / state_arrival_count\n          END AS published_state_rate\n        FROM summary\n        "@];
    reveal_strlit("\n        WITH ");
    reveal_strlit(",\n        summary AS (\n          SELECT\n            COALESCE(SUM(CASE WHEN event_kind IN ('PUBLISH_FROM_DRAFT', 'INITIAL_PUBLISH', 'REPUBLISH_FROM_CLOSED') THEN 1 ELSE 0 END), 0) AS publish_count,\n            COALESCE(SUM(CASE WHEN event_kind IN ('PUBLISH_FROM_DRAFT', 'INITIAL_PUBLISH', 'UPDATE_PUBLISHED', 'REPUBLISH_FROM_CLOSED') THEN 1 ELSE 0 END), 0) AS published_state_count,\n            COALESCE(SUM(CASE WHEN event_kind IN ('INITIAL_DRAFT', 'SAVE_DRAFT', 'PUBLISH_FROM_DRAFT', 'INITIAL_PUBLISH', 'UPDATE_PUBLISHED', 'UNPUBLISH_TO_DRAFT', 'UNPUBLISH_TO_CLOSED', 'REOPEN_TO_DRAFT', 'REPUBLISH_FROM_CLOSED') THEN 1 ELSE 0 END), 0) AS state_arrival_count\n          FROM ");
    reveal_strlit("\n          WHERE\n            dt >= (SELECT start_date FROM bounds)\n            AND dt <= (SELECT end_date FROM bounds)\n        )\n        SELECT\n          publish_count,\n          published_state_count,\n          state_arrival_count,\n          CASE\n            WHEN state_arrival_count = 0 THEN NULL\n            ELSE published_state_count::DOUBLE / state_arrival_count\n          END AS published_state_rate\n        FROM summary\n        ");
    reveal_strlit("INITIAL_PUBLISH");
    reveal_strlit("PUBLISH_FROM_DRAFT");
    reveal_strlit("REPUBLISH_FROM_CLOSED");
    reveal_strlit("UPDATE_PUBLISHED");
    reveal_strlit(", '");
    assert(kind_name_list(seq![EventKind::PublishFromDraft]) == seq!['\''] + "PUBLISH_FROM_DRAFT"@ + seq!['\'']);
    assert(seq![EventKind::PublishFromDraft, EventKind::InitialPublish].drop_last() =~= seq![EventKind::PublishFromDraft]);
    assert(kind_name_list(seq![EventKind::PublishFromDraft, EventKind::InitialPublish]) == kind_name_list(seq![EventKind::PublishFromDraft]) + ", '"@ + "INITIAL_PUBLISH"@ + seq!['\'']);
    assert(seq![EventKind::PublishFromDraft, EventKind::InitialPublish, EventKind::UpdatePublished].drop_last() =~= seq![EventKind::PublishFromDraft, EventKind::InitialPublish]);
    assert(kind_name_list(seq![EventKind::PublishFromDraft, EventKind::InitialPublish, EventKind::UpdatePublished]) == kind_name_list(seq![EventKind::PublishFromDraft, EventKind::InitialPublish]) + ", '"@ + "UPDATE_PUBLISHED"@ + seq!['\'']);
    assert(seq![EventKind::PublishFromDraft, EventKind::InitialPublish, EventKind::UpdatePublished, EventKind::RepublishFromClosed].drop_last() =~= seq![EventKind::PublishFromDraft, EventKind::InitialPublish, EventKind::UpdatePublished]);
    assert(kind_name_list(seq![EventKind::PublishFromDraft, EventKind::InitialPublish, EventKind::UpdatePublished, EventKind::RepublishFromClosed]) == kind_name_list(seq![EventKind::PublishFromDraft, EventKind::InitialPublish, EventKind::UpdatePublished]) + ", '"@ + "REPUBLISH_FROM_CLOSED"@ + seq!['\'']);
    reveal_strlit("SUM(CASE WHEN event_kind IN (");
    reveal_strlit(") THEN 1 ELSE 0 END), 0) AS ");
    reveal_strlit("published_state_count");
    let text = "SUM(CASE WHEN event_kind IN ('PUBLISH_FROM_DRAFT', 'INITIAL_PUBLISH', 'UPDATE_PUBLISHED', 'REPUBLISH_FROM_CLOSED') THEN 1 ELSE 0 END), 0) AS published_state_count"@;
    reveal_strlit("SUM(CASE WHEN event_kind IN ('PUBLISH_FROM_DRAFT', 'INITIAL_PUBLISH', 'UPDATE_PUBLISHED', 'REPUBLISH_FROM_CLOSED') THEN 1 ELSE 0 END), 0) AS published_state_count");
    assert(kinds_count_column(seq![EventKind::PublishFromDraft, EventKind::InitialPublish, EventKind::UpdatePublished, EventKind::RepublishFromClosed], "published_state_count"@) =~= text);
    assert(pieces[2].subrange(218, 218 + text.len() as int) =~= text);
    lemma_infix_in_piece(pieces, 2, 218, text);
}

/// The summary's `state_arrival_count` counts every kind that leaves a
/// content in a state: all kinds but the published-draft changes and the
/// deletions.
#[verifier::rlimit(40)]
#[verifier::spinoff_prover]
pub proof fn lemma_summary_counts_state_arrivals(events_sql: Seq<char>, from_ms: i64, to_ms: i64)
    ensures
        has_infix(publish_action_summary_sql_spec(events_sql, from_ms, to_ms), kinds_count_column(state_arrival_kinds(), "state_arrival_count"@)),
{
    let pieces = seq!["\n        WITH "@, bounds_cte_spec(from_ms, to_ms), ",\n        summary AS (\n          SELECT\n            COALESCE(SUM(CASE WHEN event_kind IN ('PUBLISH_FROM_DRAFT', 'INITIAL_PUBLISH', 'REPUBLISH_FROM_CLOSED') THEN 1 ELSE 0 END), 0) AS publish_count,\n            COALESCE(SUM(CASE WHEN event_kind IN ('PUBLISH_FROM_DRAFT', 'INITIAL_PUBLISH', 'UPDATE_PUBLISHED', 'REPUBLISH_FROM_CLOSED') THEN 1 ELSE 0 END), 0) AS published_state_count,\n            COALESCE(SUM(CASE WHEN event_kind IN ('INITIAL_DRAFT', 'SAVE_DRAFT', 'PUBLISH_FROM_DRAFT', 'INITIAL_PUBLISH', 'UPDATE_PUBLISHED', 'UNPUBLISH_TO_DRAFT', 'UNPUBLISH_TO_CLOSED', 'REOPEN_TO_DRAFT', 'REPUBLISH_FROM_CLOSED') THEN 1 ELSE 0 END), 0) AS state_arrival_count\n          FROM "@, events_sql, "\n          WHERE\n            dt >= (SELECT start_date FROM bounds)\n            AND dt <= (SELECT end_date FROM bounds)\n        )\n        SELECT\n          publish_count,\n          published_state_count,\n          state_arrival_count,\n          CASE\n            WHEN state_arrival_count = 0 THEN NULL\n            ELSE published_state_count::DOUBLE / state_arrival_count\n          END AS published_state_rate\n        FROM summary\n        "@];
    reveal_strlit("\n        WITH ");
    reveal_strlit(",\n        summary AS (\n          SELECT\n            COALESCE(SUM(CASE WHEN event_kind IN ('PUBLISH_FROM_DRAFT', 'INITIAL_PUBLISH', 'REPUBLISH_FROM_CLOSED') THEN 1 ELSE 0 END), 0) AS publish_count,\n            COALESCE(SUM(CASE WHEN event_kind IN ('PUBLISH_FROM_DRAFT', 'INITIAL_PUBLISH', 'UPDATE_PUBLISHED', 'REPUBLISH_FROM_CLOSED') THEN 1 ELSE 0 END), 0) AS published_state_count,\n            COALESCE(SUM(CASE WHEN event_kind IN ('INITIAL_DRAFT', 'SAVE_DRAFT', 'PUBLISH_FROM_DRAFT', 'INITIAL_PUBLISH', 'UPDATE_PUBLISHED', 'UNPUBLISH_TO_DRAFT', 'UNPUBLISH_TO_CLOSED', 'REOPEN_TO_DRAFT', 'REPUBLISH_FROM_CLOSED') THEN 1 ELSE 0 END), 0) AS state_arrival_count\n          FROM ");
    reveal_strlit("\n          WHERE\n            dt >= (SELECT start_date FROM bounds)\n            AND dt <= (SELECT end_date FROM bounds)\n        )\n        SELECT\n          publish_count,\n          published_state_count,\n          state_arrival_count,\n          CASE\n            WHEN state_arrival_count = 0 THEN NULL\n            ELSE published_state_count::DOUBLE / state_arrival_count\n          END AS published_state_rate\n        FROM summary\n        ");
    reveal_strlit("INITIAL_DRAFT");
    reveal_strlit("INITIAL_PUBLISH");
    reveal_strlit("PUBLISH_FROM_DRAFT");
    reveal_strlit("REOPEN_TO_DRAFT");
    reveal_strlit("REPUBLISH_FROM_CLOSED");
    reveal_strlit("SAVE_DRAFT");
    reveal_strlit("UNPUBLISH_TO_CLOSED");
    reveal_strlit("UNPUBLISH_TO_DRAFT");
    reveal_strlit("UPDATE_PUBLISHED");
    reveal_strlit(", '");
    assert(kind_name_list(seq![EventKind::InitialDraft]) == seq!['\''] + "INITIAL_DRAFT"@ + seq!['\'']);
    assert(seq![EventKind::InitialDraft, EventKind::SaveDraft].drop_last() =~= seq![EventKind::InitialDraft]);
    assert(kind_name_list(seq![EventKind::InitialDraft, EventKind::SaveDraft]) == kind_name_list(seq![EventKind::InitialDraft]) + ", '"@ + "SAVE_DRAFT"@ + seq!['\'']);
    assert(seq![EventKind::InitialDraft, EventKind::SaveDraft, EventKind::PublishFromDraft].drop_last() =~= seq![EventKind::InitialDraft, EventKind::SaveDraft]);
    assert(kind_name_list(seq![EventKind::InitialDraft, EventKind::SaveDraft, EventKind::PublishFromDraft]) == kind_name_list(seq![EventKind::InitialDraft, EventKind::SaveDraft]) + ", '"@ + "PUBLISH_FROM_DRAFT"@ + seq!['\'']);
    assert(seq![EventKind::InitialDraft, EventKind::SaveDraft, EventKind::PublishFromDraft, EventKind::InitialPublish].drop_last() =~= seq![EventKind::InitialDraft, EventKind::SaveDraft, EventKind::PublishFromDraft]);
    assert(kind_name_list(seq![EventKind::InitialDraft, EventKind::SaveDraft, EventKind::PublishFromDraft, EventKind::InitialPublish]) == kind_name_list(seq![EventKind::InitialDraft, EventKind::SaveDraft, EventKind::PublishFromDraft]) + ", '"@ + "INITIAL_PUBLISH"@ + seq!['\'']);
    assert(seq![EventKind::InitialDraft, EventKind::SaveDraft, EventKind::PublishFromDraft, EventKind::InitialPublish, EventKind::UpdatePublished].drop_last() =~= seq![EventKind::InitialDraft, EventKind::SaveDraft, EventKind::PublishFromDraft, EventKind::InitialPublish]);
    assert(kind_name_list(seq![EventKind::InitialDraft, EventKind::SaveDraft, EventKind::PublishFromDraft, EventKind::InitialPublish, EventKind::UpdatePublished]) == kind_name_list(seq![EventKind::InitialDraft, EventKind::SaveDraft, EventKind::PublishFromDraft, EventKind::InitialPublish]) + ", '"@ + "UPDATE_PUBLISHED"@ + seq!['\'']);
    assert(seq![EventKind::InitialDraft, EventKind::SaveDraft, EventKind::PublishFromDraft, EventKind::InitialPublish, EventKind::UpdatePublished, EventKind::UnpublishToDraft].drop_last() =~= seq![EventKind::InitialDraft, EventKind::SaveDraft, EventKind::PublishFromDraft, EventKind::InitialPublish, EventKind::UpdatePublished]);
    assert(kind_name_list(seq![EventKind::InitialDraft, EventKind::SaveDraft, EventKind::PublishFromDraft, EventKind::InitialPublish, EventKind::UpdatePublished, EventKind::UnpublishToDraft]) == kind_name_list(seq![EventKind::InitialDraft, EventKind::SaveDraft, EventKind::PublishFromDraft, EventKind::InitialPublish, EventKind::UpdatePublished]) + ", '"@ + "UNPUBLISH_TO_DRAFT"@ + seq!['\'']);
    assert(seq![EventKind::InitialDraft, EventKind::SaveDraft, EventKind::PublishFromDraft, EventKind::InitialPublish, EventKind::UpdatePublished, EventKind::UnpublishToDraft, EventKind::UnpublishToClosed].drop_last() =~= seq![EventKind::InitialDraft, EventKind::SaveDraft, EventKind::PublishFromDraft, EventKind::InitialPublish, EventKind::UpdatePublished, EventKind::UnpublishToDraft]);
    assert(kind_name_list(seq![EventKind::InitialDraft, EventKind::SaveDraft, EventKind::PublishFromDraft, EventKind::InitialPublish, EventKind::UpdatePublished, EventKind::UnpublishToDraft, EventKind::UnpublishToClosed]) == kind_name_list(seq![EventKind::InitialDraft, EventKind::SaveDraft, EventKind::PublishFromDraft, EventKind::InitialPublish, EventKind::UpdatePublished, EventKind::UnpublishToDraft]) + ", '"@ + "UNPUBLISH_TO_CLOSED"@ + seq!['\'']);
    assert(seq![EventKind::InitialDraft, EventKind::SaveDraft, EventKind::PublishFromDraft, EventKind::InitialPublish, EventKind::UpdatePublished, EventKind::UnpublishToDraft, EventKind::UnpublishToClosed, EventKind::ReopenToDraft].drop_last() =~= seq![EventKind::InitialDraft, EventKind::SaveDraft, EventKind::PublishFromDraft, EventKind::InitialPublish, EventKind::UpdatePublished, EventKind::UnpublishToDraft, EventKind::UnpublishToClosed]);
    assert(kind_name_list(seq![EventKind::InitialDraft, EventKind::SaveDraft, EventKind::PublishFromDraft, EventKind::InitialPublish, EventKind::UpdatePublished, EventKind::UnpublishToDraft, EventKind::UnpublishToClosed, EventKind::ReopenToDraft]) == kind_name_list(seq![EventKind::InitialDraft, EventKind::SaveDraft, EventKind::PublishFromDraft, EventKind::InitialPublish, EventKind::UpdatePublished, EventKind::UnpublishToDraft, EventKind::UnpublishToClosed]) + ", '"@ + "REOPEN_TO_DRAFT"@ + seq!['\'']);
    assert(seq![EventKind::InitialDraft, EventKind::SaveDraft, EventKind::PublishFromDraft, EventKind::InitialPublish, EventKind::UpdatePublished, EventKind::UnpublishToDraft, EventKind::UnpublishToClosed, EventKind::ReopenToDraft, EventKind::RepublishFromClosed].drop_last() =~= seq![EventKind::InitialDraft, EventKind::SaveDraft, EventKind::PublishFromDraft, EventKind::InitialPublish, EventKind::UpdatePublished, EventKind::UnpublishToDraft, EventKind::UnpublishToClosed, EventKind::ReopenToDraft]);
    assert(kind_name_list(seq![EventKind::InitialDraft, EventKind::SaveDraft, EventKind::PublishFromDraft, EventKind::InitialPublish, EventKind::UpdatePublished, EventKind::UnpublishToDraft, EventKind::UnpublishToClosed, EventKind::ReopenToDraft, EventKind::RepublishFromClosed]) == kind_name_list(seq![EventKind::InitialDraft, EventKind::SaveDraft, EventKind::PublishFromDraft, EventKind::InitialPublish, EventKind::UpdatePublished, EventKind::UnpublishToDraft, EventKind::UnpublishToClosed, EventKind::ReopenToDraft]) + ", '"@ + "REPUBLISH_FROM_CLOSED"@ + seq!['\'']);
    reveal_strlit("SUM(CASE WHEN event_kind IN (");
    reveal_strlit(") THEN 1 ELSE 0 END), 0) AS ");
    reveal_strlit("state_arrival_count");
    let text = "SUM(CASE WHEN event_kind IN ('INITIAL_DRAFT', 'SAVE_DRAFT', 'PUBLISH_FROM_DRAFT', 'INITIAL_PUBLISH', 'UPDATE_PUBLISHED', 'UNPUBLISH_TO_DRAFT', 'UNPUBLISH_TO_CLOSED', 'REOPEN_TO_DRAFT', 'REPUBLISH_FROM_CLOSED') THEN 1 ELSE 0 END), 0) AS state_arrival_count"@;
    reveal_strlit("SUM(CASE WHEN event_kind IN ('INITIAL_DRAFT', 'SAVE_DRAFT', 'PUBLISH_FROM_DRAFT', 'INITIAL_PUBLISH', 'UPDATE_PUBLISHED', 'UNPUBLISH_TO_DRAFT', 'UNPUBLISH_TO_CLOSED', 'REOPEN_TO_DRAFT', 'REPUBLISH_FROM_CLOSED') THEN 1 ELSE 0 END), 0) AS state_arrival_count");
    assert(kinds_count_column(seq![EventKind::InitialDraft, EventKind::SaveDraft, EventKind::PublishFromDraft, EventKind::InitialPublish, EventKind::UpdatePublished, EventKind::UnpublishToDraft, EventKind::UnpublishToClosed, EventKind::ReopenToDraft, EventKind::RepublishFromClosed], "state_arrival_count"@) =~= text);
    assert(pieces[2].subrange(403, 403 + text.len() as int) =~= text);
    lemma_infix_in_piece(pieces, 2, 403, text);
}

/// For every event kind, the activity query has the column named after the
/// kind (its stored name lower-cased, with `_count`), which sums exactly
/// the rows of that kind.
#[verifier::rlimit(40)]
#[verifier::spinoff_prover]
pub proof fn lemma_api_activity_counts_each_kind(events_sql: Seq<char>, from_ms: i64, to_ms: i64, kind: EventKind)
    ensures
        has_infix(api_activity_sql_spec(events_sql, from_ms, to_ms), kind_count_column(kind)),
{
    let pieces = seq!["\n        WITH "@, bounds_cte_spec(from_ms, to_ms), "\n        SELECT\n          api,\n          SUM(CASE WHEN event_kind = 'INITIAL_DRAFT' THEN 1 ELSE 0 END) AS initial_draft_count,\n          SUM(CASE WHEN event_kind = 'SAVE_DRAFT' THEN 1 ELSE 0 END) AS save_draft_count,\n          SUM(CASE WHEN event_kind = 'PUBLISH_FROM_DRAFT' THEN 1 ELSE 0 END) AS publish_from_draft_count,\n          SUM(CASE WHEN event_kind = 'INITIAL_PUBLISH' THEN 1 ELSE 0 END) AS initial_publish_count,\n          SUM(CASE WHEN event_kind = 'UPDATE_PUBLISHED' THEN 1 ELSE 0 END) AS update_published_count,\n          SUM(CASE WHEN event_kind = 'ADD_DRAFT_TO_PUBLISHED' THEN 1 ELSE 0 END) AS add_draft_to_published_count,\n          SUM(CASE WHEN event_kind = 'DISCARD_DRAFT_ON_PUBLISHED' THEN 1 ELSE 0 END) AS discard_draft_on_published_count,\n          SUM(CASE WHEN event_kind = 'UNPUBLISH_TO_DRAFT' THEN 1 ELSE 0 END) AS unpublish_to_draft_count,\n          SUM(CASE WHEN event_kind = 'UNPUBLISH_TO_CLOSED' THEN 1 ELSE 0 END) AS unpublish_to_closed_count,\n          SUM(CASE WHEN event_kind = 'REOPEN_TO_DRAFT' THEN 1 ELSE 0 END) AS reopen_to_draft_count,\n          SUM(CASE WHEN event_kind = 'REPUBLISH_FROM_CLOSED' THEN 1 ELSE 0 END) AS republish_from_closed_count,\n          SUM(CASE WHEN event_kind = 'DELETE_DRAFT' THEN 1 ELSE 0 END) AS delete_draft_count,\n          SUM(CASE WHEN event_kind = 'DELETE_PUBLISHED' THEN 1 ELSE 0 END) AS delete_published_count,\n          SUM(CASE WHEN event_kind = 'DELETE_CLOSED' THEN 1 ELSE 0 END) AS delete_closed_count,\n          COUNT(*) AS total_count\n        FROM "@, events_sql, "\n        WHERE\n          dt >= (SELECT start_date FROM bounds)\n          AND dt <= (SELECT end_date FROM bounds)\n        GROUP BY api\n        ORDER BY total_count DESC, api\n        "@];
    reveal_strlit("\n        WITH ");
    reveal_strlit("\n        SELECT\n          api,\n          SUM(CASE WHEN event_kind = 'INITIAL_DRAFT' THEN 1 ELSE 0 END) AS initial_draft_count,\n          SUM(CASE WHEN event_kind = 'SAVE_DRAFT' THEN 1 ELSE 0 END) AS save_draft_count,\n          SUM(CASE WHEN event_kind = 'PUBLISH_FROM_DRAFT' THEN 1 ELSE 0 END) AS publish_from_draft_count,\n          SUM(CASE WHEN event_kind = 'INITIAL_PUBLISH' THEN 1 ELSE 0 END) AS initial_publish_count,\n          SUM(CASE WHEN event_kind = 'UPDATE_PUBLISHED' THEN 1 ELSE 0 END) AS update_published_count,\n          SUM(CASE WHEN event_kind = 'ADD_DRAFT_TO_PUBLISHED' THEN 1 ELSE 0 END) AS add_draft_to_published_count,\n          SUM(CASE WHEN event_kind = 'DISCARD_DRAFT_ON_PUBLISHED' THEN 1 ELSE 0 END) AS discard_draft_on_published_count,\n          SUM(CASE WHEN event_kind = 'UNPUBLISH_TO_DRAFT' THEN 1 ELSE 0 END) AS unpublish_to_draft_count,\n          SUM(CASE WHEN event_kind = 'UNPUBLISH_TO_CLOSED' THEN 1 ELSE 0 END) AS unpublish_to_closed_count,\n          SUM(CASE WHEN event_kind = 'REOPEN_TO_DRAFT' THEN 1 ELSE 0 END) AS reopen_to_draft_count,\n          SUM(CASE WHEN event_kind = 'REPUBLISH_FROM_CLOSED' THEN 1 ELSE 0 END) AS republish_from_closed_count,\n          SUM(CASE WHEN event_kind = 'DELETE_DRAFT' THEN 1 ELSE 0 END) AS delete_draft_count,\n          SUM(CASE WHEN event_kind = 'DELETE_PUBLISHED' THEN 1 ELSE 0 END) AS delete_published_count,\n          SUM(CASE WHEN event_kind = 'DELETE_CLOSED' THEN 1 ELSE 0 END) AS delete_closed_count,\n          COUNT(*) AS total_count\n        FROM ");
    reveal_strlit("\n        WHERE\n          dt >= (SELECT start_date FROM bounds)\n          AND dt <= (SELECT end_date FROM bounds)\n        GROUP BY api\n        ORDER BY total_count DESC, api\n        ");
    reveal_strlit("SUM(CASE WHEN event_kind = '");
    reveal_strlit("' THEN 1 ELSE 0 END) AS ");
    reveal_strlit("_count");
    match kind {
        EventKind::InitialDraft => {
            reveal_strlit("INITIAL_DRAFT");
            reveal_strlit("initial_draft_count");
            assert(lowercase("INITIAL_DRAFT"@) + "_count"@ =~= "initial_draft_count"@);
            let text = "SUM(CASE WHEN event_kind = 'INITIAL_DRAFT' THEN 1 ELSE 0 END) AS initial_draft_count"@;
            reveal_strlit("SUM(CASE WHEN event_kind = 'INITIAL_DRAFT' THEN 1 ELSE 0 END) AS initial_draft_count");
            assert(kind_count_column(kind) =~= text);
            assert(pieces[2].subrange(41, 41 + text.len() as int) =~= text);
            lemma_infix_in_piece(pieces, 2, 41, text);
        },
        EventKind::SaveDraft => {
            reveal_strlit("SAVE_DRAFT");
            reveal_strlit("save_draft_count");
            assert(lowercase("SAVE_DRAFT"@) + "_count"@ =~= "save_draft_count"@);
            let text = "SUM(CASE WHEN event_kind = 'SAVE_DRAFT' THEN 1 ELSE 0 END) AS save_draft_count"@;
            reveal_strlit("SUM(CASE WHEN event_kind = 'SAVE_DRAFT' THEN 1 ELSE 0 END) AS save_draft_count");
            assert(kind_count_column(kind) =~= text);
            assert(pieces[2].subrange(137, 137 + text.len() as int) =~= text);
            lemma_infix_in_piece(pieces, 2, 137, text);
        },
        EventKind::PublishFromDraft => {
            reveal_strlit("PUBLISH_FROM_DRAFT");
            reveal_strlit("publish_from_draft_count");
            assert(lowercase("PUBLISH_FROM_DRAFT"@) + "_count"@ =~= "publish_from_draft_count"@);
            let text = "SUM(CASE WHEN event_kind = 'PUBLISH_FROM_DRAFT' THEN 1 ELSE 0 END) AS publish_from_draft_count"@;
            reveal_strlit("SUM(CASE WHEN event_kind = 'PUBLISH_FROM_DRAFT' THEN 1 ELSE 0 END) AS publish_from_draft_count");
            assert(kind_count_column(kind) =~= text);
            assert(pieces[2].subrange(227, 227 + text.len() as int) =~= text);
            lemma_infix_in_piece(pieces, 2, 227, text);
        },
        EventKind::InitialPublish => {
            reveal_strlit("INITIAL_PUBLISH");
            reveal_strlit("initial_publish_count");
            assert(lowercase("INITIAL_PUBLISH"@) + "_count"@ =~= "initial_publish_count"@);
            let text = "SUM(CASE WHEN event_kind = 'INITIAL_PUBLISH' THEN 1 ELSE 0 END) AS initial_publish_count"@;
            reveal_strlit("SUM(CASE WHEN event_kind = 'INITIAL_PUBLISH' THEN 1 ELSE 0 END) AS initial_publish_count");
            assert(kind_count_column(kind) =~= text);
            assert(pieces[2].subrange(333, 333 + text.len() as int) =~= text);
            lemma_infix_in_piece(pieces, 2, 333, text);
        },
        EventKind::UpdatePublished => {
            reveal_strlit("UPDATE_PUBLISHED");
            reveal_strlit("update_published_count");
            assert(lowercase("UPDATE_PUBLISHED"@) + "_count"@ =~= "update_published_count"@);
            let text = "SUM(CASE WHEN event_kind = 'UPDATE_PUBLISHED' THEN 1 ELSE 0 END) AS update_published_count"@;
            reveal_strlit("SUM(CASE WHEN event_kind = 'UPDATE_PUBLISHED' THEN 1 ELSE 0 END) AS update_published_count");
            assert(kind_count_column(kind) =~= text);
            assert(pieces[2].subrange(433, 433 + text.len() as int) =~= text);
            lemma_infix_in_piece(pieces, 2, 433, text);
        },
        EventKind::AddDraftToPublished => {
            reveal_strlit("ADD_DRAFT_TO_PUBLISHED");
            reveal_strlit("add_draft_to_published_count");
            assert(lowercase("ADD_DRAFT_TO_PUBLISHED"@) + "_count"@ =~= "add_draft_to_published_count"@);
            let text = "SUM(CASE WHEN event_kind = 'ADD_DRAFT_TO_PUBLISHED' THEN 1 ELSE 0 END) AS add_draft_to_published_count"@;
            reveal_strlit("SUM(CASE WHEN event_kind = 'ADD_DRAFT_TO_PUBLISHED' THEN 1 ELSE 0 END) AS add_draft_to_published_count");
            assert(kind_count_column(kind) =~= text);
            assert(pieces[2].subrange(535, 535 + text.len() as int) =~= text);
            lemma_infix_in_piece(pieces, 2, 535, text);
        },
        EventKind::DiscardDraftOnPublished => {
            reveal_strlit("DISCARD_DRAFT_ON_PUBLISHED");
            reveal_strlit("discard_draft_on_published_count");
            assert(lowercase("DISCARD_DRAFT_ON_PUBLISHED"@) + "_count"@ =~= "discard_draft_on_published_count"@);
            let text = "SUM(CASE WHEN event_kind = 'DISCARD_DRAFT_ON_PUBLISHED' THEN 1 ELSE 0 END) AS discard_draft_on_published_count"@;
            reveal_strlit("SUM(CASE WHEN event_kind = 'DISCARD_DRAFT_ON_PUBLISHED' THEN 1 ELSE 0 END) AS discard_draft_on_published_count");
            assert(kind_count_column(kind) =~= text);
            assert(pieces[2].subrange(649, 649 + text.len() as int) =~= text);
            lemma_infix_in_piece(pieces, 2, 649, text);
        },
        EventKind::UnpublishToDraft => {
            reveal_strlit("UNPUBLISH_TO_DRAFT");
            reveal_strlit("unpublish_to_draft_count");
            assert(lowercase("UNPUBLISH_TO_DRAFT"@) + "_count"@ =~= "unpublish_to_draft_count"@);
            let text = "SUM(CASE WHEN event_kind = 'UNPUBLISH_TO_DRAFT' THEN 1 ELSE 0 END) AS unpublish_to_draft_count"@;
            reveal_strlit("SUM(CASE WHEN event_kind = 'UNPUBLISH_TO_DRAFT' THEN 1 ELSE 0 END) AS unpublish_to_draft_count");
            assert(kind_count_column(kind) =~= text);
            assert(pieces[2].subrange(771, 771 + text.len() as int) =~= text);
            lemma_infix_in_piece(pieces, 2, 771, text);
        },
        EventKind::UnpublishToClosed => {
            reveal_strlit("UNPUBLISH_TO_CLOSED");
            reveal_strlit("unpublish_to_closed_count");
            assert(lowercase("UNPUBLISH_TO_CLOSED"@) + "_count"@ =~= "unpublish_to_closed_count"@);
            let text = "SUM(CASE WHEN event_kind = 'UNPUBLISH_TO_CLOSED' THEN 1 ELSE 0 END) AS unpublish_to_closed_count"@;
            reveal_strlit("SUM(CASE WHEN event_kind = 'UNPUBLISH_TO_CLOSED' THEN 1 ELSE 0 END) AS unpublish_to_closed_count");
            assert(kind_count_column(kind) =~= text);
            assert(pieces[2].subrange(877, 877 + text.len() as int) =~= text);
            lemma_infix_in_piece(pieces, 2, 877, text);
        },
        EventKind::ReopenToDraft => {
            reveal_strlit("REOPEN_TO_DRAFT");
            reveal_strlit("reopen_to_draft_count");
            assert(lowercase("REOPEN_TO_DRAFT"@) + "_count"@ =~= "reopen_to_draft_count"@);
            let text = "SUM(CASE WHEN event_kind = 'REOPEN_TO_DRAFT' THEN 1 ELSE 0 END) AS reopen_to_draft_count"@;
            reveal_strlit("SUM(CASE WHEN event_kind = 'REOPEN_TO_DRAFT' THEN 1 ELSE 0 END) AS reopen_to_draft_count");
            assert(kind_count_column(kind) =~= text);
            assert(pieces[2].subrange(985, 985 + text.len() as int) =~= text);
            lemma_infix_in_piece(pieces, 2, 985, text);
        },
        EventKind::RepublishFromClosed => {
            reveal_strlit("REPUBLISH_FROM_CLOSED");
            reveal_strlit("republish_from_closed_count");
            assert(lowercase("REPUBLISH_FROM_CLOSED"@) + "_count"@ =~= "republish_from_closed_count"@);
            let text = "SUM(CASE WHEN event_kind = 'REPUBLISH_FROM_CLOSED' THEN 1 ELSE 0 END) AS republish_from_closed_count"@;
            reveal_strlit("SUM(CASE WHEN event_kind = 'REPUBLISH_FROM_CLOSED' THEN 1 ELSE 0 END) AS republish_from_closed_count");
            assert(kind_count_column(kind) =~= text);
            assert(pieces[2].subrange(1085, 1085 + text.len() as int) =~= text);
            lemma_infix_in_piece(pieces, 2, 1085, text);
        },
        EventKind::DeleteDraft => {
            reveal_strlit("DELETE_DRAFT");
            reveal_strlit("delete_draft_count");
            assert(lowercase("DELETE_DRAFT"@) + "_count"@ =~= "delete_draft_count"@);
            let text = "SUM(CASE WHEN event_kind = 'DELETE_DRAFT' THEN 1 ELSE 0 END) AS delete_draft_count"@;
            reveal_strlit("SUM(CASE WHEN event_kind = 'DELETE_DRAFT' THEN 1 ELSE 0 END) AS delete_draft_count");
            assert(kind_count_column(kind) =~= text);
            assert(pieces[2].subrange(1197, 1197 + text.len() as int) =~= text);
            lemma_infix_in_piece(pieces, 2, 1197, text);
        },
        EventKind::DeletePublished => {
            reveal_strlit("DELETE_PUBLISHED");
            reveal_strlit("delete_published_count");
            assert(lowercase("DELETE_PUBLISHED"@) + "_count"@ =~= "delete_published_count"@);
            let text = "SUM(CASE WHEN event_kind = 'DELETE_PUBLISHED' THEN 1 ELSE 0 END) AS delete_published_count"@;
            reveal_strlit("SUM(CASE WHEN event_kind = 'DELETE_PUBLISHED' THEN 1 ELSE 0 END) AS delete_published_count");
            assert(kind_count_column(kind) =~= text);
            assert(pieces[2].subrange(1291, 1291 + text.len() as int) =~= text);
            lemma_infix_in_piece(pieces, 2, 1291, text);
        },
        EventKind::DeleteClosed => {
            reveal_strlit("DELETE_CLOSED");
            reveal_strlit("delete_closed_count");
            assert(lowercase("DELETE_CLOSED"@) + "_count"@ =~= "delete_closed_count"@);
            let text = "SUM(CASE WHEN event_kind = 'DELETE_CLOSED' THEN 1 ELSE 0 END) AS delete_closed_count"@;
            reveal_strlit("SUM(CASE WHEN event_kind = 'DELETE_CLOSED' THEN 1 ELSE 0 END) AS delete_closed_count");
            assert(kind_count_column(kind) =~= text);
            assert(pieces[2].subrange(1393, 1393 + text.len() as int) =~= text);
            lemma_infix_in_piece(pieces, 2, 1393, text);
        },
    }
}

/// For each publication kind, the daily trend has the column named after
/// it, which sums exactly the rows of that kind.
#[verifier::rlimit(40)]
#[verifier::spinoff_prover]
pub proof fn lemma_trend_counts_each_publication_kind(events_sql: Seq<char>, from_ms: i64, to_ms: i64, kind: EventKind)
    ensures
        kind == EventKind::PublishFromDraft || kind == EventKind::InitialPublish || kind == EventKind::RepublishFromClosed ==> has_infix(publish_action_trend_sql_spec(events_sql, from_ms, to_ms), kind_count_column(kind)),
{
    let pieces = seq!["\n        WITH "@, bounds_cte_spec(from_ms, to_ms), ",\n        calendar AS (\n          SELECT CAST(day AS DATE) AS dt\n          FROM generate_series(\n            (SELECT start_date FROM bounds),\n            (SELECT end_date FROM bounds),\n            INTERVAL 1 DAY\n          ) AS series(day)\n        ),\n        daily AS (\n          SELECT\n            dt,\n            SUM(CASE WHEN event_kind = 'PUBLISH_FROM_DRAFT' THEN 1 ELSE 0 END) AS publish_from_draft_count,\n            SUM(CASE WHEN event_kind = 'INITIAL_PUBLISH' THEN 1 ELSE 0 END) AS initial_publish_count,\n            SUM(CASE WHEN event_kind = 'REPUBLISH_FROM_CLOSED' THEN 1 ELSE 0 END) AS republish_from_closed_count\n          FROM "@, events_sql, "\n          WHERE\n            dt >= (SELECT start_date FROM bounds)\n            AND dt <= (SELECT end_date FROM bounds)\n          GROUP BY dt\n        )\n        SELECT\n          CONCAT(CAST(calendar.dt AS VARCHAR), 'T00:00:00+09:00') AS time,\n          COALESCE(daily.publish_from_draft_count, 0) AS publish_from_draft_count,\n          COALESCE(daily.initial_publish_count, 0) AS initial_publish_count,\n          COALESCE(daily.republish_from_closed_count, 0) AS republish_from_closed_count,\n          COALESCE(daily.publish_from_draft_count, 0) + COALESCE(daily.initial_publish_count, 0) + COALESCE(daily.republish_from_closed_count, 0) AS publish_count\n        FROM calendar\n        LEFT JOIN daily ON daily.dt = calendar.dt\n        ORDER BY calendar.dt\n        "@];
    reveal_strlit("\n        WITH ");
    reveal_strlit(",\n        calendar AS (\n          SELECT CAST(day AS DATE) AS dt\n          FROM generate_series(\n            (SELECT start_date FROM bounds),\n            (SELECT end_date FROM bounds),\n            INTERVAL 1 DAY\n          ) AS series(day)\n        ),\n        daily AS (\n          SELECT\n            dt,\n            SUM(CASE WHEN event_kind = 'PUBLISH_FROM_DRAFT' THEN 1 ELSE 0 END) AS publish_from_draft_count,\n            SUM(CASE WHEN event_kind = 'INITIAL_PUBLISH' THEN 1 ELSE 0 END) AS initial_publish_count,\n            SUM(CASE WHEN event_kind = 'REPUBLISH_FROM_CLOSED' THEN 1 ELSE 0 END) AS republish_from_closed_count\n          FROM ");
    reveal_strlit("\n          WHERE\n            dt >= (SELECT start_date FROM bounds)\n            AND dt <= (SELECT end_date FROM bounds)\n          GROUP BY dt\n        )\n        SELECT\n          CONCAT(CAST(calendar.dt AS VARCHAR), 'T00:00:00+09:00') AS time,\n          COALESCE(daily.publish_from_draft_count, 0) AS publish_from_draft_count,\n          COALESCE(daily.initial_publish_count, 0) AS initial_publish_count,\n          COALESCE(daily.republish_from_closed_count, 0) AS republish_from_closed_count,\n          COALESCE(daily.publish_from_draft_count, 0) + COALESCE(daily.initial_publish_count, 0) + COALESCE(daily.republish_from_closed_count, 0) AS publish_count\n        FROM calendar\n        LEFT JOIN daily ON daily.dt = calendar.dt\n        ORDER BY calendar.dt\n        ");
    reveal_strlit("SUM(CASE WHEN event_kind = '");
    reveal_strlit("' THEN 1 ELSE 0 END) AS ");
    reveal_strlit("_count");
    match kind {
        EventKind::PublishFromDraft => {
            reveal_strlit("PUBLISH_FROM_DRAFT");
            reveal_strlit("publish_from_draft_count");
            assert(lowercase("PUBLISH_FROM_DRAFT"@) + "_count"@ =~= "publish_from_draft_count"@);
            let text = "SUM(CASE WHEN event_kind = 'PUBLISH_FROM_DRAFT' THEN 1 ELSE 0 END) AS publish_from_draft_count"@;
            reveal_strlit("SUM(CASE WHEN event_kind = 'PUBLISH_FROM_DRAFT' THEN 1 ELSE 0 END) AS publish_from_draft_count");
            assert(kind_count_column(kind) =~= text);
            assert(pieces[2].subrange(314, 314 + text.len() as int) =~= text);
            lemma_infix_in_piece(pieces, 2, 314, text);
        },
        EventKind::InitialPublish => {
            reveal_strlit("INITIAL_PUBLISH");
            reveal_strlit("initial_publish_count");
            assert(lowercase("INITIAL_PUBLISH"@) + "_count"@ =~= "initial_publish_count"@);
            let text = "SUM(CASE WHEN event_kind = 'INITIAL_PUBLISH' THEN 1 ELSE 0 END) AS initial_publish_count"@;
            reveal_strlit("SUM(CASE WHEN event_kind = 'INITIAL_PUBLISH' THEN 1 ELSE 0 END) AS initial_publish_count");
            assert(kind_count_column(kind) =~= text);
            assert(pieces[2].subrange(422, 422 + text.len() as int) =~= text);
            lemma_infix_in_piece(pieces, 2, 422, text);
        },
        EventKind::RepublishFromClosed => {
            reveal_strlit("REPUBLISH_FROM_CLOSED");
            reveal_strlit("republish_from_closed_count");
            assert(lowercase("REPUBLISH_FROM_CLOSED"@) + "_count"@ =~= "republish_from_closed_count"@);
            let text = "SUM(CASE WHEN event_kind = 'REPUBLISH_FROM_CLOSED' THEN 1 ELSE 0 END) AS republish_from_closed_count"@;
            reveal_strlit("SUM(CASE WHEN event_kind = 'REPUBLISH_FROM_CLOSED' THEN 1 ELSE 0 END) AS republish_from_closed_count");
            assert(kind_count_column(kind) =~= text);
            assert(pieces[2].subrange(524, 524 + text.len() as int) =~= text);
            lemma_infix_in_piece(pieces, 2, 524, text);
        },
        _ => {},
    }
}

/// The average time to publish is taken over the publications only: the
/// query keeps the rows whose kind is one of `publication_kinds`.
#[verifier::rlimit(40)]
#[verifier::spinoff_prover]
pub proof fn lemma_time_to_publish_over_publications(events_sql: Seq<char>, from_ms: i64, to_ms: i64, unit: PublishDurationUnit)
    ensures
        has_infix(average_time_to_publish_sql_spec(events_sql, from_ms, to_ms, unit),
            "event_kind IN ("@ + kind_name_list(publication_kinds()) + ")"@),
{
    let pieces = seq!["\n        WITH "@, bounds_cte_spec(from_ms, to_ms), "\n        SELECT\n          api,\n          AVG(date_diff('second', content_created_at, content_published_at) / "@, unit_divisor(unit), ") AS "@, unit_column(unit), "\n        FROM "@, events_sql, "\n        WHERE\n          dt >= (SELECT start_date FROM bounds)\n          AND dt <= (SELECT end_date FROM bounds)\n          AND event_kind IN ('PUBLISH_FROM_DRAFT', 'INITIAL_PUBLISH', 'REPUBLISH_FROM_CLOSED')\n          AND content_created_at IS NOT NULL\n          AND content_published_at IS NOT NULL\n          AND content_published_at >= content_created_at\n        GROUP BY api\n        ORDER BY "@, unit_column(unit), " DESC, api\n        "@];
    reveal_strlit("\n        WITH ");
    reveal_strlit("\n        SELECT\n          api,\n          AVG(date_diff('second', content_created_at, content_published_at) / ");
    reveal_strlit(") AS ");
    reveal_strlit("\n        FROM ");
    reveal_strlit("\n        WHERE\n          dt >= (SELECT start_date FROM bounds)\n          AND dt <= (SELECT end_date FROM bounds)\n          AND event_kind IN ('PUBLISH_FROM_DRAFT', 'INITIAL_PUBLISH', 'REPUBLISH_FROM_CLOSED')\n          AND content_created_at IS NOT NULL\n          AND content_published_at IS NOT NULL\n          AND content_published_at >= content_created_at\n        GROUP BY api\n        ORDER BY ");
    reveal_strlit(" DESC, api\n        ");
    reveal_strlit("PUBLISH_FROM_DRAFT");
    reveal_strlit("INITIAL_PUBLISH");
    reveal_strlit("REPUBLISH_FROM_CLOSED");
    reveal_strlit(", '");
    assert(kind_name_list(seq![EventKind::PublishFromDraft]) == seq!['\''] + "PUBLISH_FROM_DRAFT"@ + seq!['\'']);
    assert(seq![EventKind::PublishFromDraft, EventKind::InitialPublish].drop_last() =~= seq![EventKind::PublishFromDraft]);
    assert(kind_name_list(seq![EventKind::PublishFromDraft, EventKind::InitialPublish]) == kind_name_list(seq![EventKind::PublishFromDraft]) + ", '"@ + "INITIAL_PUBLISH"@ + seq!['\'']);
    assert(publication_kinds().drop_last() =~= seq![EventKind::PublishFromDraft, EventKind::InitialPublish]);
    assert(kind_name_list(publication_kinds()) == kind_name_list(seq![EventKind::PublishFromDraft, EventKind::InitialPublish]) + ", '"@ + "REPUBLISH_FROM_CLOSED"@ + seq!['\'']);
    reveal_strlit("event_kind IN (");
    reveal_strlit(")");
    let text = "event_kind IN ('PUBLISH_FROM_DRAFT', 'INITIAL_PUBLISH', 'REPUBLISH_FROM_CLOSED')"@;
    reveal_strlit("event_kind IN ('PUBLISH_FROM_DRAFT', 'INITIAL_PUBLISH', 'REPUBLISH_FROM_CLOSED')");
    assert("event_kind IN ("@ + kind_name_list(publication_kinds()) + ")"@ =~= text);
    assert(pieces[8].subrange(127, 127 + text.len() as int) =~= text);
    lemma_infix_in_piece(pieces, 8, 127, text);
}

/// The daily `publish_count` of the trend is the sum of the columns of the
/// three publication kinds.
#[verifier::rlimit(40)]
#[verifier::spinoff_prover]
pub proof fn lemma_trend_publish_count_sums_publications(events_sql: Seq<char>, from_ms: i64, to_ms: i64)
    ensures
        has_infix(publish_action_trend_sql_spec(events_sql, from_ms, to_ms),
            "COALESCE(daily."@ + kind_column_name(publication_kinds()[0]) + ", 0) + COALESCE(daily."@
                + kind_column_name(publication_kinds()[1]) + ", 0) + COALESCE(daily."@
                + kind_column_name(publication_kinds()[2]) + ", 0) AS publish_count"@),
{
    let pieces = seq!["\n        WITH "@, bounds_cte_spec(from_ms, to_ms), ",\n        calendar AS (\n          SELECT CAST(day AS DATE) AS dt\n          FROM generate_series(\n            (SELECT start_date FROM bounds),\n            (SELECT end_date FROM bounds),\n            INTERVAL 1 DAY\n          ) AS series(day)\n        ),\n        daily AS (\n          SELECT\n            dt,\n            SUM(CASE WHEN event_kind = 'PUBLISH_FROM_DRAFT' THEN 1 ELSE 0 END) AS publish_from_draft_count,\n            SUM(CASE WHEN event_kind = 'INITIAL_PUBLISH' THEN 1 ELSE 0 END) AS initial_publish_count,\n            SUM(CASE WHEN event_kind = 'REPUBLISH_FROM_CLOSED' THEN 1 ELSE 0 END) AS republish_from_closed_count\n          FROM "@, events_sql, "\n          WHERE\n            dt >= (SELECT start_date FROM bounds)\n            AND dt <= (SELECT end_date FROM bounds)\n          GROUP BY dt\n        )\n        SELECT\n          CONCAT(CAST(calendar.dt AS VARCHAR), 'T00:00:00+09:00') AS time,\n          COALESCE(daily.publish_from_draft_count, 0) AS publish_from_draft_count,\n          COALESCE(daily.initial_publish_count, 0) AS initial_publish_count,\n          COALESCE(daily.republish_from_closed_count, 0) AS republish_from_closed_count,\n          COALESCE(daily.publish_from_draft_count, 0) + COALESCE(daily.initial_publish_count, 0) + COALESCE(daily.republish_from_closed_count, 0) AS publish_count\n        FROM calendar\n        LEFT JOIN daily ON daily.dt = calendar.dt\n        ORDER BY calendar.dt\n        "@];
    reveal_strlit("\n        WITH ");
    reveal_strlit(",\n        calendar AS (\n          SELECT CAST(day AS DATE) AS dt\n          FROM generate_series(\n            (SELECT start_date FROM bounds),\n            (SELECT end_date FROM bounds),\n            INTERVAL 1 DAY\n          ) AS series(day)\n        ),\n        daily AS (\n          SELECT\n            dt,\n            SUM(CASE WHEN event_kind = 'PUBLISH_FROM_DRAFT' THEN 1 ELSE 0 END) AS publish_from_draft_count,\n            SUM(CASE WHEN event_kind = 'INITIAL_PUBLISH' THEN 1 ELSE 0 END) AS initial_publish_count,\n            SUM(CASE WHEN event_kind = 'REPUBLISH_FROM_CLOSED' THEN 1 ELSE 0 END) AS republish_from_closed_count\n          FROM ");
    reveal_strlit("\n          WHERE\n            dt >= (SELECT start_date FROM bounds)\n            AND dt <= (SELECT end_date FROM bounds)\n          GROUP BY dt\n        )\n        SELECT\n          CONCAT(CAST(calendar.dt AS VARCHAR), 'T00:00:00+09:00') AS time,\n          COALESCE(daily.publish_from_draft_count, 0) AS publish_from_draft_count,\n          COALESCE(daily.initial_publish_count, 0) AS initial_publish_count,\n          COALESCE(daily.republish_from_closed_count, 0) AS republish_from_closed_count,\n          COALESCE(daily.publish_from_draft_count, 0) + COALESCE(daily.initial_publish_count, 0) + COALESCE(daily.republish_from_closed_count, 0) AS publish_count\n        FROM calendar\n        LEFT JOIN daily ON daily.dt = calendar.dt\n        ORDER BY calendar.dt\n        ");
    reveal_strlit("PUBLISH_FROM_DRAFT");
    reveal_strlit("INITIAL_PUBLISH");
    reveal_strlit("REPUBLISH_FROM_CLOSED");
    reveal_strlit("_count");
    reveal_strlit("COALESCE(daily.");
    reveal_strlit(", 0) + COALESCE(daily.");
    reveal_strlit(", 0) AS publish_count");
    reveal_strlit("publish_from_draft_count");
    reveal_strlit("initial_publish_count");
    reveal_strlit("republish_from_closed_count");
    assert(kind_column_name(EventKind::PublishFromDraft) =~= "publish_from_draft_count"@);
    assert(kind_column_name(EventKind::InitialPublish) =~= "initial_publish_count"@);
    assert(kind_column_name(EventKind::RepublishFromClosed) =~= "republish_from_closed_count"@);
    let text = "COALESCE(daily.publish_from_draft_count, 0) + COALESCE(daily.initial_publish_count, 0) + COALESCE(daily.republish_from_closed_count, 0) AS publish_count"@;
    reveal_strlit("COALESCE(daily.publish_from_draft_count, 0) + COALESCE(daily.initial_publish_count, 0) + COALESCE(daily.republish_from_closed_count, 0) AS publish_count");
    assert("COALESCE(daily."@ + kind_column_name(publication_kinds()[0]) + ", 0) + COALESCE(daily."@
        + kind_column_name(publication_kinds()[1]) + ", 0) + COALESCE(daily."@
        + kind_column_name(publication_kinds()[2]) + ", 0) AS publish_count"@ =~= text);
    assert(pieces[4].subrange(500, 500 + text.len() as int) =~= text);
    lemma_infix_in_piece(pieces, 4, 500, text);
}


/// The first JST day of a range starting at `from_ms`, as the `bounds`
/// expression names it `start_date`.
pub open spec fn range_start_text(from_ms: i64) -> Seq<char> {
    "CAST(epoch_ms("@ + signed_decimal_text(from_ms as int) + ") + INTERVAL '9 HOURS' AS DATE) AS start_date"@
}

/// The last JST day of a range ending at `to_ms`, as the `bounds`
/// expression names it `end_date`.
pub open spec fn range_end_text(to_ms: i64) -> Seq<char> {
    "CAST(epoch_ms("@ + signed_decimal_text(to_ms as int) + ") + INTERVAL '9 HOURS' AS DATE) AS end_date"@
}

proof fn lemma_infix_trans(t: Seq<char>, u: Seq<char>, s: Seq<char>)
    requires
        has_infix(t, u),
        has_infix(u, s),
    ensures
        has_infix(t, s),
{
    let i = choose|i: int| 0 <= i && i + u.len() <= t.len() && #[trigger] t.subrange(i, i + u.len()) == u;
    let j = choose|j: int| 0 <= j && j + s.len() <= u.len() && #[trigger] u.subrange(j, j + s.len()) == s;
    assert(t.subrange(i + j, i + j + s.len()) =~= u.subrange(j, j + s.len()));
}

/// The `bounds` expression starts the range on the JST day of `from_ms`
/// and ends it on the JST day of `to_ms`.
#[verifier::rlimit(40)]
#[verifier::spinoff_prover]
pub proof fn lemma_bounds_span_the_range(from_ms: i64, to_ms: i64)
    ensures
        has_infix(bounds_cte_spec(from_ms, to_ms), range_start_text(from_ms)),
        has_infix(bounds_cte_spec(from_ms, to_ms), range_end_text(to_ms)),
{
    let a1 = "bounds AS (\n          SELECT\n            CAST(epoch_ms("@;
    let a2 = ") + INTERVAL '9 HOURS' AS DATE) AS start_date,\n            CAST(epoch_ms("@;
    let a3 = ") + INTERVAL '9 HOURS' AS DATE) AS end_date\n        )"@;
    reveal_strlit("bounds AS (\n          SELECT\n            CAST(epoch_ms(");
    reveal_strlit(") + INTERVAL '9 HOURS' AS DATE) AS start_date,\n            CAST(epoch_ms(");
    reveal_strlit(") + INTERVAL '9 HOURS' AS DATE) AS end_date\n        )");
    reveal_strlit("CAST(epoch_ms(");
    reveal_strlit(") + INTERVAL '9 HOURS' AS DATE) AS start_date");
    reveal_strlit(") + INTERVAL '9 HOURS' AS DATE) AS end_date");
    let sf = signed_decimal_text(from_ms as int);
    let st = signed_decimal_text(to_ms as int);
    let b = bounds_cte_spec(from_ms, to_ms);
    assert(b == a1 + sf + a2 + st + a3);
    assert(a1.subrange(41, 55) =~= "CAST(epoch_ms("@);
    assert(a2.subrange(0, 45) =~= ") + INTERVAL '9 HOURS' AS DATE) AS start_date"@);
    assert(a2.subrange(59, 73) =~= "CAST(epoch_ms("@);
    assert(a3.subrange(0, 43) =~= ") + INTERVAL '9 HOURS' AS DATE) AS end_date"@);
    let s1 = range_start_text(from_ms);
    assert(b.subrange(41, 41 + s1.len() as int) =~= a1.subrange(41, 55) + sf + a2.subrange(0, 45));
    let i2 = 55 + sf.len() + 59;
    let s2 = range_end_text(to_ms);
    assert(b.subrange(i2 as int, i2 + s2.len() as int) =~= a2.subrange(59, 73) + st + a3.subrange(0, 43));
}

/// The summary query counts the rows of the JST days from the day of
/// `from_ms` to the day of `to_ms`: its `bounds` start and end there, and it
/// keeps the rows whose day lies between them.
#[verifier::rlimit(40)]
#[verifier::spinoff_prover]
pub proof fn lemma_summary_covers_the_range(events_sql: Seq<char>, from_ms: i64, to_ms: i64)
    ensures
        has_infix(publish_action_summary_sql_spec(events_sql, from_ms, to_ms), range_start_text(from_ms)),
        has_infix(publish_action_summary_sql_spec(events_sql, from_ms, to_ms), range_end_text(to_ms)),
        has_infix(publish_action_summary_sql_spec(events_sql, from_ms, to_ms), "dt >= (SELECT start_date FROM bounds)"@),
        has_infix(publish_action_summary_sql_spec(events_sql, from_ms, to_ms), "dt <= (SELECT end_date FROM bounds)"@),
{
    let pieces = seq!["\n        WITH "@, bounds_cte_spec(from_ms, to_ms), ",\n        summary AS (\n          SELECT\n            COALESCE(SUM(CASE WHEN event_kind IN ('PUBLISH_FROM_DRAFT', 'INITIAL_PUBLISH', 'REPUBLISH_FROM_CLOSED') THEN 1 ELSE 0 END), 0) AS publish_count,\n            COALESCE(SUM(CASE WHEN event_kind IN ('PUBLISH_FROM_DRAFT', 'INITIAL_PUBLISH', 'UPDATE_PUBLISHED', 'REPUBLISH_FROM_CLOSED') THEN 1 ELSE 0 END), 0) AS published_state_count,\n            COALESCE(SUM(CASE WHEN event_kind IN ('INITIAL_DRAFT', 'SAVE_DRAFT', 'PUBLISH_FROM_DRAFT', 'INITIAL_PUBLISH', 'UPDATE_PUBLISHED', 'UNPUBLISH_TO_DRAFT', 'UNPUBLISH_TO_CLOSED', 'REOPEN_TO_DRAFT', 'REPUBLISH_FROM_CLOSED') THEN 1 ELSE 0 END), 0) AS state_arrival_count\n          FROM "@, events_sql, "\n          WHERE\n            dt >= (SELECT start_date FROM bounds)\n            AND dt <= (SELECT end_date FROM bounds)\n        )\n        SELECT\n          publish_count,\n          published_state_count,\n          state_arrival_count,\n          CASE\n            WHEN state_arrival_count = 0 THEN NULL\n            ELSE published_state_count::DOUBLE / state_arrival_count\n          END AS published_state_rate\n        FROM summary\n        "@];
    reveal_strlit("\n        WITH ");
    reveal_strlit(",\n        summary AS (\n          SELECT\n            COALESCE(SUM(CASE WHEN event_kind IN ('PUBLISH_FROM_DRAFT', 'INITIAL_PUBLISH', 'REPUBLISH_FROM_CLOSED') THEN 1 ELSE 0 END), 0) AS publish_count,\n            COALESCE(SUM(CASE WHEN event_kind IN ('PUBLISH_FROM_DRAFT', 'INITIAL_PUBLISH', 'UPDATE_PUBLISHED', 'REPUBLISH_FROM_CLOSED') THEN 1 ELSE 0 END), 0) AS published_state_count,\n            COALESCE(SUM(CASE WHEN event_kind IN ('INITIAL_DRAFT', 'SAVE_DRAFT', 'PUBLISH_FROM_DRAFT', 'INITIAL_PUBLISH', 'UPDATE_PUBLISHED', 'UNPUBLISH_TO_DRAFT', 'UNPUBLISH_TO_CLOSED', 'REOPEN_TO_DRAFT', 'REPUBLISH_FROM_CLOSED') THEN 1 ELSE 0 END), 0) AS state_arrival_count\n          FROM ");
    reveal_strlit("\n          WHERE\n            dt >= (SELECT start_date FROM bounds)\n            AND dt <= (SELECT end_date FROM bounds)\n        )\n        SELECT\n          publish_count,\n          published_state_count,\n          state_arrival_count,\n          CASE\n            WHEN state_arrival_count = 0 THEN NULL\n            ELSE published_state_count::DOUBLE / state_arrival_count\n          END AS published_state_rate\n        FROM summary\n        ");
    reveal_strlit("dt >= (SELECT start_date FROM bounds)");
    reveal_strlit("dt <= (SELECT end_date FROM bounds)");
    let b = bounds_cte_spec(from_ms, to_ms);
    assert(pieces[1].subrange(0, b.len() as int) =~= b);
    lemma_infix_in_piece(pieces, 1, 0, b);
    lemma_bounds_span_the_range(from_ms, to_ms);
    lemma_infix_trans(concat_texts(pieces), b, range_start_text(from_ms));
    lemma_infix_trans(concat_texts(pieces), b, range_end_text(to_ms));
    assert(pieces[4].subrange(29, 66) =~= "dt >= (SELECT start_date FROM bounds)"@);
    lemma_infix_in_piece(pieces, 4, 29, "dt >= (SELECT start_date FROM bounds)"@);
    assert(pieces[4].subrange(83, 118) =~= "dt <= (SELECT end_date FROM bounds)"@);
    lemma_infix_in_piece(pieces, 4, 83, "dt <= (SELECT end_date FROM bounds)"@);
}

/// The trend query counts the rows of the JST days from the day of
/// `from_ms` to the day of `to_ms`: its `bounds` start and end there, and it
/// keeps the rows whose day lies between them.
#[verifier::rlimit(40)]
#[verifier::spinoff_prover]
pub proof fn lemma_trend_covers_the_range(events_sql: Seq<char>, from_ms: i64, to_ms: i64)
    ensures
        has_infix(publish_action_trend_sql_spec(events_sql, from_ms, to_ms), range_start_text(from_ms)),
        has_infix(publish_action_trend_sql_spec(events_sql, from_ms, to_ms), range_end_text(to_ms)),
        has_infix(publish_action_trend_sql_spec(events_sql, from_ms, to_ms), "dt >= (SELECT start_date FROM bounds)"@),
        has_infix(publish_action_trend_sql_spec(events_sql, from_ms, to_ms), "dt <= (SELECT end_date FROM bounds)"@),
{
    let pieces = seq!["\n        WITH "@, bounds_cte_spec(from_ms, to_ms), ",\n        calendar AS (\n          SELECT CAST(day AS DATE) AS dt\n          FROM generate_series(\n            (SELECT start_date FROM bounds),\n            (SELECT end_date FROM bounds),\n            INTERVAL 1 DAY\n          ) AS series(day)\n        ),\n        daily AS (\n          SELECT\n            dt,\n            SUM(CASE WHEN event_kind = 'PUBLISH_FROM_DRAFT' THEN 1 ELSE 0 END) AS publish_from_draft_count,\n            SUM(CASE WHEN event_kind = 'INITIAL_PUBLISH' THEN 1 ELSE 0 END) AS initial_publish_count,\n            SUM(CASE WHEN event_kind = 'REPUBLISH_FROM_CLOSED' THEN 1 ELSE 0 END) AS republish_from_closed_count\n          FROM "@, events_sql, "\n          WHERE\n            dt >= (SELECT start_date FROM bounds)\n            AND dt <= (SELECT end_date FROM bounds)\n          GROUP BY dt\n        )\n        SELECT\n          CONCAT(CAST(calendar.dt AS VARCHAR), 'T00:00:00+09:00') AS time,\n          COALESCE(daily.publish_from_draft_count, 0) AS publish_from_draft_count,\n          COALESCE(daily.initial_publish_count, 0) AS initial_publish_count,\n          COALESCE(daily.republish_from_closed_count, 0) AS republish_from_closed_count,\n          COALESCE(daily.publish_from_draft_count, 0) + COALESCE(daily.initial_publish_count, 0) + COALESCE(daily.republish_from_closed_count, 0) AS publish_count\n        FROM calendar\n        LEFT JOIN daily ON daily.dt = calendar.dt\n        ORDER BY calendar.dt\n        "@];
    reveal_strlit("\n        WITH ");
    reveal_strlit(",\n        calendar AS (\n          SELECT CAST(day AS DATE) AS dt\n          FROM generate_series(\n            (SELECT start_date FROM bounds),\n            (SELECT end_date FROM bounds),\n            INTERVAL 1 DAY\n          ) AS series(day)\n        ),\n        daily AS (\n          SELECT\n            dt,\n            SUM(CASE WHEN event_kind = 'PUBLISH_FROM_DRAFT' THEN 1 ELSE 0 END) AS publish_from_draft_count,\n            SUM(CASE WHEN event_kind = 'INITIAL_PUBLISH' THEN 1 ELSE 0 END) AS initial_publish_count,\n            SUM(CASE WHEN event_kind = 'REPUBLISH_FROM_CLOSED' THEN 1 ELSE 0 END) AS republish_from_closed_count\n          FROM ");
    reveal_strlit("\n          WHERE\n            dt >= (SELECT start_date FROM bounds)\n            AND dt <= (SELECT end_date FROM bounds)\n          GROUP BY dt\n        )\n        SELECT\n          CONCAT(CAST(calendar.dt AS VARCHAR), 'T00:00:00+09:00') AS time,\n          COALESCE(daily.publish_from_draft_count, 0) AS publish_from_draft_count,\n          COALESCE(daily.initial_publish_count, 0) AS initial_publish_count,\n          COALESCE(daily.republish_from_closed_count, 0) AS republish_from_closed_count,\n          COALESCE(daily.publish_from_draft_count, 0) + COALESCE(daily.initial_publish_count, 0) + COALESCE(daily.republish_from_closed_count, 0) AS publish_count\n        FROM calendar\n        LEFT JOIN daily ON daily.dt = calendar.dt\n        ORDER BY calendar.dt\n        ");
    reveal_strlit("dt >= (SELECT start_date FROM bounds)");
    reveal_strlit("dt <= (SELECT end_date FROM bounds)");
    let b = bounds_cte_spec(from_ms, to_ms);
    assert(pieces[1].subrange(0, b.len() as int) =~= b);
    lemma_infix_in_piece(pieces, 1, 0, b);
    lemma_bounds_span_the_range(from_ms, to_ms);
    lemma_infix_trans(concat_texts(pieces), b, range_start_text(from_ms));
    lemma_infix_trans(concat_texts(pieces), b, range_end_text(to_ms));
    assert(pieces[4].subrange(29, 66) =~= "dt >= (SELECT start_date FROM bounds)"@);
    lemma_infix_in_piece(pieces, 4, 29, "dt >= (SELECT start_date FROM bounds)"@);
    assert(pieces[4].subrange(83, 118) =~= "dt <= (SELECT end_date FROM bounds)"@);
    lemma_infix_in_piece(pieces, 4, 83, "dt <= (SELECT end_date FROM bounds)"@);
}

/// The api_activity query counts the rows of the JST days from the day of
/// `from_ms` to the day of `to_ms`: its `bounds` start and end there, and it
/// keeps the rows whose day lies between them.
#[verifier::rlimit(40)]
#[verifier::spinoff_prover]
pub proof fn lemma_api_activity_covers_the_range(events_sql: Seq<char>, from_ms: i64, to_ms: i64)
    ensures
        has_infix(api_activity_sql_spec(events_sql, from_ms, to_ms), range_start_text(from_ms)),
        has_infix(api_activity_sql_spec(events_sql, from_ms, to_ms), range_end_text(to_ms)),
        has_infix(api_activity_sql_spec(events_sql, from_ms, to_ms), "dt >= (SELECT start_date FROM bounds)"@),
        has_infix(api_activity_sql_spec(events_sql, from_ms, to_ms), "dt <= (SELECT end_date FROM bounds)"@),
{
    let pieces = seq!["\n        WITH "@, bounds_cte_spec(from_ms, to_ms), "\n        SELECT\n          api,\n          SUM(CASE WHEN event_kind = 'INITIAL_DRAFT' THEN 1 ELSE 0 END) AS initial_draft_count,\n          SUM(CASE WHEN event_kind = 'SAVE_DRAFT' THEN 1 ELSE 0 END) AS save_draft_count,\n          SUM(CASE WHEN event_kind = 'PUBLISH_FROM_DRAFT' THEN 1 ELSE 0 END) AS publish_from_draft_count,\n          SUM(CASE WHEN event_kind = 'INITIAL_PUBLISH' THEN 1 ELSE 0 END) AS initial_publish_count,\n          SUM(CASE WHEN event_kind = 'UPDATE_PUBLISHED' THEN 1 ELSE 0 END) AS update_published_count,\n          SUM(CASE WHEN event_kind = 'ADD_DRAFT_TO_PUBLISHED' THEN 1 ELSE 0 END) AS add_draft_to_published_count,\n          SUM(CASE WHEN event_kind = 'DISCARD_DRAFT_ON_PUBLISHED' THEN 1 ELSE 0 END) AS discard_draft_on_published_count,\n          SUM(CASE WHEN event_kind = 'UNPUBLISH_TO_DRAFT' THEN 1 ELSE 0 END) AS unpublish_to_draft_count,\n          SUM(CASE WHEN event_kind = 'UNPUBLISH_TO_CLOSED' THEN 1 ELSE 0 END) AS unpublish_to_closed_count,\n          SUM(CASE WHEN event_kind = 'REOPEN_TO_DRAFT' THEN 1 ELSE 0 END) AS reopen_to_draft_count,\n          SUM(CASE WHEN event_kind = 'REPUBLISH_FROM_CLOSED' THEN 1 ELSE 0 END) AS republish_from_closed_count,\n          SUM(CASE WHEN event_kind = 'DELETE_DRAFT' THEN 1 ELSE 0 END) AS delete_draft_count,\n          SUM(CASE WHEN event_kind = 'DELETE_PUBLISHED' THEN 1 ELSE 0 END) AS delete_published_count,\n          SUM(CASE WHEN event_kind = 'DELETE_CLOSED' THEN 1 ELSE 0 END) AS delete_closed_count,\n          COUNT(*) AS total_count\n        FROM "@, events_sql, "\n        WHERE\n          dt >= (SELECT start_date FROM bounds)\n          AND dt <= (SELECT end_date FROM bounds)\n        GROUP BY api\n        ORDER BY total_count DESC, api\n        "@];
    reveal_strlit("\n        WITH ");
    reveal_strlit("\n        SELECT\n          api,\n          SUM(CASE WHEN event_kind = 'INITIAL_DRAFT' THEN 1 ELSE 0 END) AS initial_draft_count,\n          SUM(CASE WHEN event_kind = 'SAVE_DRAFT' THEN 1 ELSE 0 END) AS save_draft_count,\n          SUM(CASE WHEN event_kind = 'PUBLISH_FROM_DRAFT' THEN 1 ELSE 0 END) AS publish_from_draft_count,\n          SUM(CASE WHEN event_kind = 'INITIAL_PUBLISH' THEN 1 ELSE 0 END) AS initial_publish_count,\n          SUM(CASE WHEN event_kind = 'UPDATE_PUBLISHED' THEN 1 ELSE 0 END) AS update_published_count,\n          SUM(CASE WHEN event_kind = 'ADD_DRAFT_TO_PUBLISHED' THEN 1 ELSE 0 END) AS add_draft_to_published_count,\n          SUM(CASE WHEN event_kind = 'DISCARD_DRAFT_ON_PUBLISHED' THEN 1 ELSE 0 END) AS discard_draft_on_published_count,\n          SUM(CASE WHEN event_kind = 'UNPUBLISH_TO_DRAFT' THEN 1 ELSE 0 END) AS unpublish_to_draft_count,\n          SUM(CASE WHEN event_kind = 'UNPUBLISH_TO_CLOSED' THEN 1 ELSE 0 END) AS unpublish_to_closed_count,\n          SUM(CASE WHEN event_kind = 'REOPEN_TO_DRAFT' THEN 1 ELSE 0 END) AS reopen_to_draft_count,\n          SUM(CASE WHEN event_kind = 'REPUBLISH_FROM_CLOSED' THEN 1 ELSE 0 END) AS republish_from_closed_count,\n          SUM(CASE WHEN event_kind = 'DELETE_DRAFT' THEN 1 ELSE 0 END) AS delete_draft_count,\n          SUM(CASE WHEN event_kind = 'DELETE_PUBLISHED' THEN 1 ELSE 0 END) AS delete_published_count,\n          SUM(CASE WHEN event_kind = 'DELETE_CLOSED' THEN 1 ELSE 0 END) AS delete_closed_count,\n          COUNT(*) AS total_count\n        FROM ");
    reveal_strlit("\n        WHERE\n          dt >= (SELECT start_date FROM bounds)\n          AND dt <= (SELECT end_date FROM bounds)\n        GROUP BY api\n        ORDER BY total_count DESC, api\n        ");
    reveal_strlit("dt >= (SELECT start_date FROM bounds)");
    reveal_strlit("dt <= (SELECT end_date FROM bounds)");
    let b = bounds_cte_spec(from_ms, to_ms);
    assert(pieces[1].subrange(0, b.len() as int) =~= b);
    lemma_infix_in_piece(pieces, 1, 0, b);
    lemma_bounds_span_the_range(from_ms, to_ms);
    lemma_infix_trans(concat_texts(pieces), b, range_start_text(from_ms));
    lemma_infix_trans(concat_texts(pieces), b, range_end_text(to_ms));
    assert(pieces[4].subrange(25, 62) =~= "dt >= (SELECT start_date FROM bounds)"@);
    lemma_infix_in_piece(pieces, 4, 25, "dt >= (SELECT start_date FROM bounds)"@);
    assert(pieces[4].subrange(77, 112) =~= "dt <= (SELECT end_date FROM bounds)"@);
    lemma_infix_in_piece(pieces, 4, 77, "dt <= (SELECT end_date FROM bounds)"@);
}


proof fn lemma_infix_pair(pieces: Seq<Seq<char>>, j: int, k: int, s: Seq<char>)
    requires
        0 <= j,
        j + 1 < pieces.len(),
        0 <= k <= pieces[j].len(),
        pieces[j].subrange(k, pieces[j].len() as int) == s,
    ensures
        has_infix(concat_texts(pieces), s + pieces[j + 1]),
    decreases pieces.len(),
{
    let front = pieces.drop_last();
    if j + 1 == pieces.len() - 1 {
        let pre = concat_texts(front.drop_last());
        assert(concat_texts(front) == pre + pieces[j]);
        let i = pre.len() + k;
        let whole = concat_texts(pieces);
        assert(whole == pre + pieces[j] + pieces[j + 1]);
        assert(whole.subrange(i, i + (s + pieces[j + 1]).len()) =~= s + pieces[j + 1]);
    } else {
        assert(front[j] == pieces[j]);
        assert(front[j + 1] == pieces[j + 1]);
        lemma_infix_pair(front, j, k, s);
        lemma_infix_extend(concat_texts(front), pieces.last(), s + pieces[j + 1]);
    }
}

/// The summary reads the given events, and its published-state rate is the
/// published-state count over the state-arrival count, none when there are
/// no arrivals.
#[verifier::rlimit(40)]
#[verifier::spinoff_prover]
pub proof fn lemma_summary_rate_and_source(events_sql: Seq<char>, from_ms: i64, to_ms: i64)
    ensures
        has_infix(publish_action_summary_sql_spec(events_sql, from_ms, to_ms), "CASE\n            WHEN state_arrival_count = 0 THEN NULL\n            ELSE published_state_count::DOUBLE / state_arrival_count\n          END AS published_state_rate"@),
        has_infix(publish_action_summary_sql_spec(events_sql, from_ms, to_ms), "FROM "@ + events_sql),
{
    let pieces = seq!["\n        WITH "@, bounds_cte_spec(from_ms, to_ms), ",\n        summary AS (\n          SELECT\n            COALESCE(SUM(CASE WHEN event_kind IN ('PUBLISH_FROM_DRAFT', 'INITIAL_PUBLISH', 'REPUBLISH_FROM_CLOSED') THEN 1 ELSE 0 END), 0) AS publish_count,\n            COALESCE(SUM(CASE WHEN event_kind IN ('PUBLISH_FROM_DRAFT', 'INITIAL_PUBLISH', 'UPDATE_PUBLISHED', 'REPUBLISH_FROM_CLOSED') THEN 1 ELSE 0 END), 0) AS published_state_count,\n            COALESCE(SUM(CASE WHEN event_kind IN ('INITIAL_DRAFT', 'SAVE_DRAFT', 'PUBLISH_FROM_DRAFT', 'INITIAL_PUBLISH', 'UPDATE_PUBLISHED', 'UNPUBLISH_TO_DRAFT', 'UNPUBLISH_TO_CLOSED', 'REOPEN_TO_DRAFT', 'REPUBLISH_FROM_CLOSED') THEN 1 ELSE 0 END), 0) AS state_arrival_count\n          FROM "@, events_sql, "\n          WHERE\n            dt >= (SELECT start_date FROM bounds)\n            AND dt <= (SELECT end_date FROM bounds)\n        )\n        SELECT\n          publish_count,\n          published_state_count,\n          state_arrival_count,\n          CASE\n            WHEN state_arrival_count = 0 THEN NULL\n            ELSE published_state_count::DOUBLE / state_arrival_count\n          END AS published_state_rate\n        FROM summary\n        "@];
    reveal_strlit("\n        WITH ");
    reveal_strlit(",\n        summary AS (\n          SELECT\n            COALESCE(SUM(CASE WHEN event_kind IN ('PUBLISH_FROM_DRAFT', 'INITIAL_PUBLISH', 'REPUBLISH_FROM_CLOSED') THEN 1 ELSE 0 END), 0) AS publish_count,\n            COALESCE(SUM(CASE WHEN event_kind IN ('PUBLISH_FROM_DRAFT', 'INITIAL_PUBLISH', 'UPDATE_PUBLISHED', 'REPUBLISH_FROM_CLOSED') THEN 1 ELSE 0 END), 0) AS published_state_count,\n            COALESCE(SUM(CASE WHEN event_kind IN ('INITIAL_DRAFT', 'SAVE_DRAFT', 'PUBLISH_FROM_DRAFT', 'INITIAL_PUBLISH', 'UPDATE_PUBLISHED', 'UNPUBLISH_TO_DRAFT', 'UNPUBLISH_TO_CLOSED', 'REOPEN_TO_DRAFT', 'REPUBLISH_FROM_CLOSED') THEN 1 ELSE 0 END), 0) AS state_arrival_count\n          FROM ");
    reveal_strlit("\n          WHERE\n            dt >= (SELECT start_date FROM bounds)\n            AND dt <= (SELECT end_date FROM bounds)\n        )\n        SELECT\n          publish_count,\n          published_state_count,\n          state_arrival_count,\n          CASE\n            WHEN state_arrival_count = 0 THEN NULL\n            ELSE published_state_count::DOUBLE / state_arrival_count\n          END AS published_state_rate\n        FROM summary\n        ");
    reveal_strlit("CASE\n            WHEN state_arrival_count = 0 THEN NULL\n            ELSE published_state_count::DOUBLE / state_arrival_count\n          END AS published_state_rate");
    assert(pieces[4].subrange(243, 405) =~= "CASE\n            WHEN state_arrival_count = 0 THEN NULL\n            ELSE published_state_count::DOUBLE / state_arrival_count\n          END AS published_state_rate"@);
    assert("CASE\n            WHEN state_arrival_count = 0 THEN NULL\n            ELSE published_state_count::DOUBLE / state_arrival_count\n          END AS published_state_rate"@ =~= "CASE\n            WHEN state_arrival_count = 0 THEN NULL\n            ELSE published_state_count::DOUBLE / state_arrival_count\n          END AS published_state_rate"@);
    lemma_infix_in_piece(pieces, 4, 243, "CASE\n            WHEN state_arrival_count = 0 THEN NULL\n            ELSE published_state_count::DOUBLE / state_arrival_count\n          END AS published_state_rate"@);
    reveal_strlit("FROM ");
    assert(pieces[2].subrange(669, 674) =~= "FROM "@);
    lemma_infix_pair(pieces, 2, 669, "FROM "@);
}

/// The trend reads the given events and reports every day of the calendar,
/// each publication kind's daily count in its own column, zero on days
/// without one.
#[verifier::rlimit(40)]
#[verifier::spinoff_prover]
pub proof fn lemma_trend_fills_every_day(events_sql: Seq<char>, from_ms: i64, to_ms: i64)
    ensures
        has_infix(publish_action_trend_sql_spec(events_sql, from_ms, to_ms), "COALESCE(daily."@ + kind_column_name(EventKind::PublishFromDraft) + ", 0) AS "@ + kind_column_name(EventKind::PublishFromDraft)),
        has_infix(publish_action_trend_sql_spec(events_sql, from_ms, to_ms), "COALESCE(daily."@ + kind_column_name(EventKind::InitialPublish) + ", 0) AS "@ + kind_column_name(EventKind::InitialPublish)),
        has_infix(publish_action_trend_sql_spec(events_sql, from_ms, to_ms), "COALESCE(daily."@ + kind_column_name(EventKind::RepublishFromClosed) + ", 0) AS "@ + kind_column_name(EventKind::RepublishFromClosed)),
        has_infix(publish_action_trend_sql_spec(events_sql, from_ms, to_ms), "LEFT JOIN daily ON daily.dt = calendar.dt"@),
        has_infix(publish_action_trend_sql_spec(events_sql, from_ms, to_ms), "FROM "@ + events_sql),
{
    let pieces = seq!["\n        WITH "@, bounds_cte_spec(from_ms, to_ms), ",\n        calendar AS (\n          SELECT CAST(day AS DATE) AS dt\n          FROM generate_series(\n            (SELECT start_date FROM bounds),\n            (SELECT end_date FROM bounds),\n            INTERVAL 1 DAY\n          ) AS series(day)\n        ),\n        daily AS (\n          SELECT\n            dt,\n            SUM(CASE WHEN event_kind = 'PUBLISH_FROM_DRAFT' THEN 1 ELSE 0 END) AS publish_from_draft_count,\n            SUM(CASE WHEN event_kind = 'INITIAL_PUBLISH' THEN 1 ELSE 0 END) AS initial_publish_count,\n            SUM(CASE WHEN event_kind = 'REPUBLISH_FROM_CLOSED' THEN 1 ELSE 0 END) AS republish_from_closed_count\n          FROM "@, events_sql, "\n          WHERE\n            dt >= (SELECT start_date FROM bounds)\n            AND dt <= (SELECT end_date FROM bounds)\n          GROUP BY dt\n        )\n        SELECT\n          CONCAT(CAST(calendar.dt AS VARCHAR), 'T00:00:00+09:00') AS time,\n          COALESCE(daily.publish_from_draft_count, 0) AS publish_from_draft_count,\n          COALESCE(daily.initial_publish_count, 0) AS initial_publish_count,\n          COALESCE(daily.republish_from_closed_count, 0) AS republish_from_closed_count,\n          COALESCE(daily.publish_from_draft_count, 0) + COALESCE(daily.initial_publish_count, 0) + COALESCE(daily.republish_from_closed_count, 0) AS publish_count\n        FROM calendar\n        LEFT JOIN daily ON daily.dt = calendar.dt\n        ORDER BY calendar.dt\n        "@];
    reveal_strlit("\n        WITH ");
    reveal_strlit(",\n        calendar AS (\n          SELECT CAST(day AS DATE) AS dt\n          FROM generate_series(\n            (SELECT start_date FROM bounds),\n            (SELECT end_date FROM bounds),\n            INTERVAL 1 DAY\n          ) AS series(day)\n        ),\n        daily AS (\n          SELECT\n            dt,\n            SUM(CASE WHEN event_kind = 'PUBLISH_FROM_DRAFT' THEN 1 ELSE 0 END) AS publish_from_draft_count,\n            SUM(CASE WHEN event_kind = 'INITIAL_PUBLISH' THEN 1 ELSE 0 END) AS initial_publish_count,\n            SUM(CASE WHEN event_kind = 'REPUBLISH_FROM_CLOSED' THEN 1 ELSE 0 END) AS republish_from_closed_count\n          FROM ");
    reveal_strlit("\n          WHERE\n            dt >= (SELECT start_date FROM bounds)\n            AND dt <= (SELECT end_date FROM bounds)\n          GROUP BY dt\n        )\n        SELECT\n          CONCAT(CAST(calendar.dt AS VARCHAR), 'T00:00:00+09:00') AS time,\n          COALESCE(daily.publish_from_draft_count, 0) AS publish_from_draft_count,\n          COALESCE(daily.initial_publish_count, 0) AS initial_publish_count,\n          COALESCE(daily.republish_from_closed_count, 0) AS republish_from_closed_count,\n          COALESCE(daily.publish_from_draft_count, 0) + COALESCE(daily.initial_publish_count, 0) + COALESCE(daily.republish_from_closed_count, 0) AS publish_count\n        FROM calendar\n        LEFT JOIN daily ON daily.dt = calendar.dt\n        ORDER BY calendar.dt\n        ");
    reveal_strlit("publish_from_draft_count");
    reveal_strlit("PUBLISH_FROM_DRAFT");
    reveal_strlit("_count");
    reveal_strlit("COALESCE(daily.");
    reveal_strlit(", 0) AS ");
    assert(kind_column_name(EventKind::PublishFromDraft) =~= "publish_from_draft_count"@);
    reveal_strlit("COALESCE(daily.publish_from_draft_count, 0) AS publish_from_draft_count");
    assert(pieces[4].subrange(251, 322) =~= "COALESCE(daily.publish_from_draft_count, 0) AS publish_from_draft_count"@);
    assert("COALESCE(daily."@ + kind_column_name(EventKind::PublishFromDraft) + ", 0) AS "@ + kind_column_name(EventKind::PublishFromDraft) =~= "COALESCE(daily.publish_from_draft_count, 0) AS publish_from_draft_count"@);
    lemma_infix_in_piece(pieces, 4, 251, "COALESCE(daily.publish_from_draft_count, 0) AS publish_from_draft_count"@);
    reveal_strlit("initial_publish_count");
    reveal_strlit("INITIAL_PUBLISH");
    reveal_strlit("_count");
    reveal_strlit("COALESCE(daily.");
    reveal_strlit(", 0) AS ");
    assert(kind_column_name(EventKind::InitialPublish) =~= "initial_publish_count"@);
    reveal_strlit("COALESCE(daily.initial_publish_count, 0) AS initial_publish_count");
    assert(pieces[4].subrange(334, 399) =~= "COALESCE(daily.initial_publish_count, 0) AS initial_publish_count"@);
    assert("COALESCE(daily."@ + kind_column_name(EventKind::InitialPublish) + ", 0) AS "@ + kind_column_name(EventKind::InitialPublish) =~= "COALESCE(daily.initial_publish_count, 0) AS initial_publish_count"@);
    lemma_infix_in_piece(pieces, 4, 334, "COALESCE(daily.initial_publish_count, 0) AS initial_publish_count"@);
    reveal_strlit("republish_from_closed_count");
    reveal_strlit("REPUBLISH_FROM_CLOSED");
    reveal_strlit("_count");
    reveal_strlit("COALESCE(daily.");
    reveal_strlit(", 0) AS ");
    assert(kind_column_name(EventKind::RepublishFromClosed) =~= "republish_from_closed_count"@);
    reveal_strlit("COALESCE(daily.republish_from_closed_count, 0) AS republish_from_closed_count");
    assert(pieces[4].subrange(411, 488) =~= "COALESCE(daily.republish_from_closed_count, 0) AS republish_from_closed_count"@);
    assert("COALESCE(daily."@ + kind_column_name(EventKind::RepublishFromClosed) + ", 0) AS "@ + kind_column_name(EventKind::RepublishFromClosed) =~= "COALESCE(daily.republish_from_closed_count, 0) AS republish_from_closed_count"@);
    lemma_infix_in_piece(pieces, 4, 411, "COALESCE(daily.republish_from_closed_count, 0) AS republish_from_closed_count"@);
    reveal_strlit("LEFT JOIN daily ON daily.dt = calendar.dt");
    assert(pieces[4].subrange(683, 724) =~= "LEFT JOIN daily ON daily.dt = calendar.dt"@);
    assert("LEFT JOIN daily ON daily.dt = calendar.dt"@ =~= "LEFT JOIN daily ON daily.dt = calendar.dt"@);
    lemma_infix_in_piece(pieces, 4, 683, "LEFT JOIN daily ON daily.dt = calendar.dt"@);
    reveal_strlit("FROM ");
    assert(pieces[2].subrange(635, 640) =~= "FROM "@);
    lemma_infix_pair(pieces, 2, 635, "FROM "@);
}

/// The activity query reads the given events, counts all of an API's rows
/// in `total_count`, and reports one row per API, busiest first.
#[verifier::rlimit(40)]
#[verifier::spinoff_prover]
pub proof fn lemma_api_activity_groups_by_api(events_sql: Seq<char>, from_ms: i64, to_ms: i64)
    ensures
        has_infix(api_activity_sql_spec(events_sql, from_ms, to_ms), "COUNT(*) AS total_count"@),
        has_infix(api_activity_sql_spec(events_sql, from_ms, to_ms), "GROUP BY api"@),
        has_infix(api_activity_sql_spec(events_sql, from_ms, to_ms), "ORDER BY total_count DESC, api"@),
        has_infix(api_activity_sql_spec(events_sql, from_ms, to_ms), "FROM "@ + events_sql),
{
    let pieces = seq!["\n        WITH "@, bounds_cte_spec(from_ms, to_ms), "\n        SELECT\n          api,\n          SUM(CASE WHEN event_kind = 'INITIAL_DRAFT' THEN 1 ELSE 0 END) AS initial_draft_count,\n          SUM(CASE WHEN event_kind = 'SAVE_DRAFT' THEN 1 ELSE 0 END) AS save_draft_count,\n          SUM(CASE WHEN event_kind = 'PUBLISH_FROM_DRAFT' THEN 1 ELSE 0 END) AS publish_from_draft_count,\n          SUM(CASE WHEN event_kind = 'INITIAL_PUBLISH' THEN 1 ELSE 0 END) AS initial_publish_count,\n          SUM(CASE WHEN event_kind = 'UPDATE_PUBLISHED' THEN 1 ELSE 0 END) AS update_published_count,\n          SUM(CASE WHEN event_kind = 'ADD_DRAFT_TO_PUBLISHED' THEN 1 ELSE 0 END) AS add_draft_to_published_count,\n          SUM(CASE WHEN event_kind = 'DISCARD_DRAFT_ON_PUBLISHED' THEN 1 ELSE 0 END) AS discard_draft_on_published_count,\n          SUM(CASE WHEN event_kind = 'UNPUBLISH_TO_DRAFT' THEN 1 ELSE 0 END) AS unpublish_to_draft_count,\n          SUM(CASE WHEN event_kind = 'UNPUBLISH_TO_CLOSED' THEN 1 ELSE 0 END) AS unpublish_to_closed_count,\n          SUM(CASE WHEN event_kind = 'REOPEN_TO_DRAFT' THEN 1 ELSE 0 END) AS reopen_to_draft_count,\n          SUM(CASE WHEN event_kind = 'REPUBLISH_FROM_CLOSED' THEN 1 ELSE 0 END) AS republish_from_closed_count,\n          SUM(CASE WHEN event_kind = 'DELETE_DRAFT' THEN 1 ELSE 0 END) AS delete_draft_count,\n          SUM(CASE WHEN event_kind = 'DELETE_PUBLISHED' THEN 1 ELSE 0 END) AS delete_published_count,\n          SUM(CASE WHEN event_kind = 'DELETE_CLOSED' THEN 1 ELSE 0 END) AS delete_closed_count,\n          COUNT(*) AS total_count\n        FROM "@, events_sql, "\n        WHERE\n          dt >= (SELECT start_date FROM bounds)\n          AND dt <= (SELECT end_date FROM bounds)\n        GROUP BY api\n        ORDER BY total_count DESC, api\n        "@];
    reveal_strlit("\n        WITH ");
    reveal_strlit("\n        SELECT\n          api,\n          SUM(CASE WHEN event_kind = 'INITIAL_DRAFT' THEN 1 ELSE 0 END) AS initial_draft_count,\n          SUM(CASE WHEN event_kind = 'SAVE_DRAFT' THEN 1 ELSE 0 END) AS save_draft_count,\n          SUM(CASE WHEN event_kind = 'PUBLISH_FROM_DRAFT' THEN 1 ELSE 0 END) AS publish_from_draft_count,\n          SUM(CASE WHEN event_kind = 'INITIAL_PUBLISH' THEN 1 ELSE 0 END) AS initial_publish_count,\n          SUM(CASE WHEN event_kind = 'UPDATE_PUBLISHED' THEN 1 ELSE 0 END) AS update_published_count,\n          SUM(CASE WHEN event_kind = 'ADD_DRAFT_TO_PUBLISHED' THEN 1 ELSE 0 END) AS add_draft_to_published_count,\n          SUM(CASE WHEN event_kind = 'DISCARD_DRAFT_ON_PUBLISHED' THEN 1 ELSE 0 END) AS discard_draft_on_published_count,\n          SUM(CASE WHEN event_kind = 'UNPUBLISH_TO_DRAFT' THEN 1 ELSE 0 END) AS unpublish_to_draft_count,\n          SUM(CASE WHEN event_kind = 'UNPUBLISH_TO_CLOSED' THEN 1 ELSE 0 END) AS unpublish_to_closed_count,\n          SUM(CASE WHEN event_kind = 'REOPEN_TO_DRAFT' THEN 1 ELSE 0 END) AS reopen_to_draft_count,\n          SUM(CASE WHEN event_kind = 'REPUBLISH_FROM_CLOSED' THEN 1 ELSE 0 END) AS republish_from_closed_count,\n          SUM(CASE WHEN event_kind = 'DELETE_DRAFT' THEN 1 ELSE 0 END) AS delete_draft_count,\n          SUM(CASE WHEN event_kind = 'DELETE_PUBLISHED' THEN 1 ELSE 0 END) AS delete_published_count,\n          SUM(CASE WHEN event_kind = 'DELETE_CLOSED' THEN 1 ELSE 0 END) AS delete_closed_count,\n          COUNT(*) AS total_count\n        FROM ");
    reveal_strlit("\n        WHERE\n          dt >= (SELECT start_date FROM bounds)\n          AND dt <= (SELECT end_date FROM bounds)\n        GROUP BY api\n        ORDER BY total_count DESC, api\n        ");
    reveal_strlit("COUNT(*) AS total_count");
    assert(pieces[2].subrange(1489, 1512) =~= "COUNT(*) AS total_count"@);
    assert("COUNT(*) AS total_count"@ =~= "COUNT(*) AS total_count"@);
    lemma_infix_in_piece(pieces, 2, 1489, "COUNT(*) AS total_count"@);
    reveal_strlit("GROUP BY api");
    assert(pieces[4].subrange(121, 133) =~= "GROUP BY api"@);
    assert("GROUP BY api"@ =~= "GROUP BY api"@);
    lemma_infix_in_piece(pieces, 4, 121, "GROUP BY api"@);
    reveal_strlit("ORDER BY total_count DESC, api");
    assert(pieces[4].subrange(142, 172) =~= "ORDER BY total_count DESC, api"@);
    assert("ORDER BY total_count DESC, api"@ =~= "ORDER BY total_count DESC, api"@);
    lemma_infix_in_piece(pieces, 4, 142, "ORDER BY total_count DESC, api"@);
    reveal_strlit("FROM ");
    assert(pieces[2].subrange(1521, 1526) =~= "FROM "@);
    lemma_infix_pair(pieces, 2, 1521, "FROM "@);
}

} // verus!

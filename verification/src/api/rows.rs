//! The rows the metrics API answers with.

use vstd::prelude::*;

verus! {

/// Events on one JST day; `time` is the day's start as an instant text.
#[derive(Debug, Clone, PartialEq, Eq)]
pub struct CalendarHeatmapRow {
    pub time: String,
    pub value: i64,
}

/// Event counts of every kind, and in total, for one API.
#[derive(Debug, Clone, PartialEq, Eq)]
pub struct ApiActivityRow {
    pub api: Option<String>,
    pub initial_draft_count: i64,
    pub save_draft_count: i64,
    pub publish_from_draft_count: i64,
    pub initial_publish_count: i64,
    pub update_published_count: i64,
    pub add_draft_to_published_count: i64,
    pub discard_draft_on_published_count: i64,
    pub unpublish_to_draft_count: i64,
    pub unpublish_to_closed_count: i64,
    pub reopen_to_draft_count: i64,
    pub republish_from_closed_count: i64,
    pub delete_draft_count: i64,
    pub delete_published_count: i64,
    pub delete_closed_count: i64,
    pub total_count: i64,
}

/// How often a content was created or edited, and when last.
#[derive(Debug, Clone, PartialEq, Eq)]
pub struct TopUpdatedContentRow {
    pub api: Option<String>,
    pub content_id: Option<String>,
    pub count: i64,
    pub last_event_at: Option<String>,
}

/// Publications of one JST day by kind, and their sum.
#[derive(Debug, Clone, PartialEq, Eq)]
pub struct PublishActionTrendRow {
    pub time: String,
    pub publish_from_draft_count: i64,
    pub initial_publish_count: i64,
    pub republish_from_closed_count: i64,
    pub publish_count: i64,
}

} // verus!

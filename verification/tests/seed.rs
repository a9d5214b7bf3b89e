use std::collections::BTreeMap;

use content_ops_analytics::json::{JsonValue, WebhookPayload};
use content_ops_analytics::normalize::{IngestError, NormalizedEvent, normalize_payload};
use content_ops_analytics::seed::activity::compute_activity_targets;
use content_ops_analytics::seed::bulk::{BulkEvent, generate_bulk_activity_events, pick_content_id, shuffle_bulk_templates};
use content_ops_analytics::seed::config::{
    DebugSeedConfig, DebugSeedPreset, SeedCommand, parse_preset, parse_seed_args, require_value, validate_config,
};
use content_ops_analytics::seed::files::{
    generate_bulk_events, group_by_partition, jst_today, shard_file_path, shard_files,
};
use content_ops_analytics::seed::rng::SeededRng;
use content_ops_analytics::seed::schedule::{
    build_realistic_bulk_day_schedule, campaign_activity_weight, weekly_activity_weight,
};
use content_ops_analytics::seed::smoke::{SmokeFixtureDates, smoke_event_ids, smoke_fixture_dates, smoke_fixtures};
use content_ops_analytics::seed::template::{BulkEventTiming, BulkTemplate, build_bulk_webhook_body};
use content_ops_analytics::seed::timing::{api_draft_to_publish_days, api_publish_lead_days, api_timing_profile, bulk_apis};
use content_ops_analytics::seed::ulid::{deterministic_content_ulid, encode_ulid};
use content_ops_analytics::time::{MAX_DAY, MIN_DAY, UtcTimestamp, jst_datetime, jst_day};

fn json_value(v: &serde_json::Value) -> JsonValue {
    match v {
        serde_json::Value::Null => JsonValue::Null,
        serde_json::Value::Bool(b) => JsonValue::Bool(*b),
        serde_json::Value::Number(n) => JsonValue::Number(n.to_string()),
        serde_json::Value::String(s) => JsonValue::Str(s.clone()),
        serde_json::Value::Array(items) => JsonValue::Array(items.iter().map(json_value).collect()),
        serde_json::Value::Object(members) => JsonValue::Object(
            members.iter().map(|(k, v)| (k.clone(), json_value(v))).collect(),
        ),
    }
}

fn text_member(object: &serde_json::Map<String, serde_json::Value>, key: &str) -> Result<Option<String>, String> {
    match object.get(key) {
        None | Some(serde_json::Value::Null) => Ok(None),
        Some(serde_json::Value::String(s)) => Ok(Some(s.clone())),
        Some(other) => Err(format!("invalid type: {other}, expected a string")),
    }
}

fn document_member(object: &serde_json::Map<String, serde_json::Value>, key: &str) -> Option<JsonValue> {
    match object.get(key) {
        None | Some(serde_json::Value::Null) => None,
        Some(value) => Some(json_value(value)),
    }
}

/// The webhook record of a body, built from its JSON value the way a typed
/// deserialization reads it.
fn webhook_payload(body: &[u8]) -> Result<WebhookPayload, String> {
    let value: serde_json::Value = serde_json::from_slice(body).map_err(|e| e.to_string())?;
    let object = value.as_object().ok_or_else(|| "invalid type: expected struct MicrocmsWebhook".to_owned())?;
    let (old, new) = match object.get("contents") {
        None | Some(serde_json::Value::Null) => (None, None),
        Some(serde_json::Value::Object(contents)) => (document_member(contents, "old"), document_member(contents, "new")),
        Some(_) => return Err("invalid type: expected struct WebhookContents".to_owned()),
    };
    Ok(WebhookPayload {
        service: text_member(object, "service")?,
        api: text_member(object, "api")?,
        id: text_member(object, "id")?,
        event_type: text_member(object, "type")?,
        old,
        new,
    })
}

fn normalize(body: &str, received_at: UtcTimestamp) -> NormalizedEvent {
    normalize_payload(body.as_bytes(), webhook_payload(body.as_bytes()), received_at).unwrap()
}

fn instant(text: &str) -> UtcTimestamp {
    let at = chrono::DateTime::parse_from_rfc3339(text).unwrap();
    UtcTimestamp { seconds: at.timestamp(), nanos: at.timestamp_subsec_nanos() }
}

fn content_index(raw: u64, contents: u32) -> u32 {
    let r = raw as f64 / u64::MAX as f64;
    let biased = r * r;
    (biased * f64::from(contents - 1)).round() as u32
}

fn bulk_config(count: u32, days: u32, contents: u32) -> DebugSeedConfig {
    DebugSeedConfig {
        output_dir: String::new(),
        preset: DebugSeedPreset::Bulk,
        count,
        days,
        contents,
        rows_per_file: 100,
        seed: 42,
    }
}

fn generate_test_bulk_events_for_days(count: u32, days: u32) -> Vec<NormalizedEvent> {
    generate_test_bulk_events_ending(count, days, jst_today().unwrap())
}

fn generate_test_bulk_events_ending(count: u32, days: u32, end_date: i64) -> Vec<NormalizedEvent> {
    let mut rng = SeededRng::new(42);
    let start_date = end_date - i64::from(days - 1);
    let schedule = build_realistic_bulk_day_schedule(&mut rng, start_date, days);
    let targets = compute_activity_targets(count, days);
    let mut events: Vec<BulkEvent> = Vec::new();
    generate_bulk_activity_events(
        &bulk_config(count, days, 20),
        &mut rng,
        &schedule,
        &targets,
        &mut events,
        &mut None,
        &mut None,
        &content_index,
    );
    events.iter().map(|e| normalize(&e.body, e.received_at)).collect()
}

fn generate_test_bulk_events(count: u32) -> Vec<NormalizedEvent> {
    generate_test_bulk_events_for_days(count, 90)
}

fn count_events(events: &[NormalizedEvent], event_kind: &str) -> usize {
    events.iter().filter(|event| event.event_kind.as_deref() == Some(event_kind)).count()
}

fn days_between(later: UtcTimestamp, earlier: UtcTimestamp) -> i64 {
    (later.seconds - earlier.seconds) / 86_400
}

#[test]
fn compute_activity_targets_match_api_activity_ratios() {
    let targets = compute_activity_targets(50_000, 365);
    assert_eq!(targets.total(), 50_000);
    assert_eq!(targets.initial_draft, 10_000);
    assert_eq!(targets.save_draft, 7_500);
    assert_eq!(targets.publish_from_draft, 1_325);
    assert_eq!(targets.initial_publish, 300);
    assert_eq!(targets.update_published, 9_425);
    assert_eq!(targets.add_draft_to_published, 10_000);
    assert_eq!(targets.discard_draft_on_published, 2_500);
    assert_eq!(targets.unpublish_to_draft, 4_000);
    assert_eq!(targets.unpublish_to_closed, 2_000);
    assert_eq!(targets.reopen_to_draft, 500);
    assert_eq!(targets.republish_from_closed, 200);
    assert_eq!(targets.delete_draft, 500);
    assert_eq!(targets.delete_published, 1_500);
    assert_eq!(targets.delete_closed, 250);
}

#[test]
fn activity_targets_give_rounding_remainder_to_closed_deletions() {
    let targets = compute_activity_targets(7, 30);
    assert_eq!(targets.total(), 7);
    assert_eq!(targets.initial_draft, 1);
    assert_eq!(targets.add_draft_to_published, 1);
    assert_eq!(targets.update_published, 1);
    assert_eq!(targets.save_draft, 1);
    assert_eq!(targets.delete_closed, 3);
    assert_eq!(compute_activity_targets(0, 1).total(), 0);
}

#[test]
fn bulk_api_set_includes_realistic_content_types() {
    assert_eq!(
        bulk_apis(),
        ["blogs", "authors", "news", "categories", "pages", "advertisements", "tags", "labels", "papers", "cards"]
    );
}

#[test]
fn api_timing_profiles_cover_bulk_api_set() {
    for api in bulk_apis() {
        let profile = api_timing_profile(api);
        assert_eq!(profile.api, api);
        assert!(profile.publish_lead_base_days > 0);
        assert!(profile.draft_to_publish_base_days > 0);
    }
}

#[test]
fn api_timing_profiles_vary_by_index_and_default() {
    assert_eq!(api_publish_lead_days("pages", 7), 8 + 2);
    assert_eq!(api_draft_to_publish_days("papers", 11), 24 + 5);
    let fallback = api_timing_profile("unknown-api");
    assert_eq!(fallback.api, "*");
    assert_eq!(fallback.publish_lead_base_days, 5);
    assert_eq!(fallback.draft_to_publish_base_days, 8);
}

#[test]
fn bulk_seed_generates_both_unpublish_variants() {
    let events = generate_test_bulk_events(10_000);

    assert!(events.iter().any(|event| event.event_kind.as_deref() == Some("UNPUBLISH_TO_DRAFT")));
    assert!(events.iter().any(|event| event.event_kind.as_deref() == Some("UNPUBLISH_TO_CLOSED")));
    assert!(events.iter().all(|event| event.event_kind.as_deref() != Some("UNPUBLISH")));
    assert!(events.iter().any(|event| event.event_kind.as_deref() == Some("ADD_DRAFT_TO_PUBLISHED")));
    assert!(events.iter().any(|event| event.event_kind.as_deref() == Some("DISCARD_DRAFT_ON_PUBLISHED")));
    assert!(events.iter().any(|event| event.event_kind.as_deref() == Some("REOPEN_TO_DRAFT")));
    assert!(events.iter().any(|event| event.event_kind.as_deref() == Some("REPUBLISH_FROM_CLOSED")));
}

#[test]
fn metric_lifecycle_draft_to_publish_days_stay_within_api_ranges() {
    let events = generate_test_bulk_events(50_000);
    let targets = compute_activity_targets(50_000, 90);
    let apis = bulk_apis();

    for api in &apis {
        let mut durations = Vec::new();
        for pair_index in 0..targets.publish_from_draft {
            if apis[pair_index as usize % apis.len()] != *api {
                continue;
            }
            let content_id = format!("metric-{api}-{pair_index}");
            let draft = events
                .iter()
                .find(|event| {
                    event.content_id.as_deref() == Some(content_id.as_str())
                        && event.event_kind.as_deref() == Some("INITIAL_DRAFT")
                })
                .expect("draft event");
            let publish = events
                .iter()
                .find(|event| {
                    event.content_id.as_deref() == Some(content_id.as_str())
                        && event.event_kind.as_deref() == Some("PUBLISH_FROM_DRAFT")
                })
                .expect("publish event");
            durations.push(days_between(publish.content_published_at.unwrap(), draft.draft_created_at.unwrap()));
        }

        let min = *durations.iter().min().unwrap();
        let max = *durations.iter().max().unwrap();
        let base = api_timing_profile(api).draft_to_publish_base_days;
        assert!(min >= base && max <= base + 5, "api={api} expected {base}..={} days, got {min}..={max}", base + 5);
    }
}

fn publish_lead_days_for_api(events: &[NormalizedEvent], api: &str) -> i64 {
    let event = events
        .iter()
        .find(|event| {
            event.api.as_deref() == Some(api)
                && matches!(
                    event.event_kind.as_deref(),
                    Some("PUBLISH_FROM_DRAFT") | Some("INITIAL_PUBLISH") | Some("REPUBLISH_FROM_CLOSED")
                )
                && event.content_created_at.is_some()
                && event.content_published_at.is_some()
        })
        .expect("publish event");
    days_between(event.content_published_at.unwrap(), event.content_created_at.unwrap())
}

fn first_metric_pair_content_id(events: &[NormalizedEvent], api: &str) -> String {
    events
        .iter()
        .find(|event| {
            event.api.as_deref() == Some(api)
                && event.event_kind.as_deref() == Some("PUBLISH_FROM_DRAFT")
                && event.content_id.as_deref().is_some_and(|content_id| content_id.starts_with("metric-"))
                && event.content_id.as_deref().is_some_and(|content_id| !content_id.contains("-direct-"))
        })
        .and_then(|event| event.content_id.clone())
        .unwrap_or_else(|| panic!("metric pair for api={api}"))
}

fn draft_to_publish_days_for_api(events: &[NormalizedEvent], api: &str) -> i64 {
    let content_id = first_metric_pair_content_id(events, api);
    let draft = events
        .iter()
        .find(|event| {
            event.content_id.as_deref() == Some(content_id.as_str())
                && event.event_kind.as_deref() == Some("INITIAL_DRAFT")
        })
        .expect("draft event");
    let publish = events
        .iter()
        .find(|event| {
            event.content_id.as_deref() == Some(content_id.as_str())
                && event.event_kind.as_deref() == Some("PUBLISH_FROM_DRAFT")
        })
        .expect("publish event");
    days_between(publish.content_published_at.unwrap(), draft.draft_created_at.unwrap())
}

#[test]
fn metric_lifecycle_events_vary_publish_and_draft_durations_by_api() {
    let events = generate_test_bulk_events(50_000);

    let blogs_lead = publish_lead_days_for_api(&events, "blogs");
    let pages_lead = publish_lead_days_for_api(&events, "pages");
    assert!(blogs_lead < pages_lead);

    let labels_draft_lead = draft_to_publish_days_for_api(&events, "labels");
    let papers_draft_lead = draft_to_publish_days_for_api(&events, "papers");
    assert!(labels_draft_lead < papers_draft_lead);
}

#[test]
fn bulk_seed_matches_new_event_kind_ratios() {
    let events = generate_test_bulk_events_for_days(50_000, 365);
    let targets = compute_activity_targets(50_000, 365);

    assert_eq!(count_events(&events, "INITIAL_DRAFT"), targets.initial_draft as usize);
    assert_eq!(count_events(&events, "SAVE_DRAFT"), targets.save_draft as usize);
    assert_eq!(count_events(&events, "PUBLISH_FROM_DRAFT"), targets.publish_from_draft as usize);
    assert_eq!(count_events(&events, "INITIAL_PUBLISH"), targets.initial_publish as usize);
    assert_eq!(count_events(&events, "UPDATE_PUBLISHED"), targets.update_published as usize);
    assert_eq!(count_events(&events, "ADD_DRAFT_TO_PUBLISHED"), targets.add_draft_to_published as usize);
    assert_eq!(count_events(&events, "DISCARD_DRAFT_ON_PUBLISHED"), targets.discard_draft_on_published as usize);
    assert_eq!(count_events(&events, "UNPUBLISH_TO_DRAFT"), targets.unpublish_to_draft as usize);
    assert_eq!(count_events(&events, "UNPUBLISH_TO_CLOSED"), targets.unpublish_to_closed as usize);
    assert_eq!(count_events(&events, "REOPEN_TO_DRAFT"), targets.reopen_to_draft as usize);
    assert_eq!(count_events(&events, "REPUBLISH_FROM_CLOSED"), targets.republish_from_closed as usize);
    assert_eq!(count_events(&events, "DELETE_DRAFT"), targets.delete_draft as usize);
    assert_eq!(count_events(&events, "DELETE_PUBLISHED"), targets.delete_published as usize);
    assert_eq!(count_events(&events, "DELETE_CLOSED"), targets.delete_closed as usize);
}

#[test]
fn bulk_seed_honors_requested_count_below_legacy_baseline() {
    let (events, min_dt, max_dt) = generate_bulk_events(&bulk_config(50, 90, 10), jst_today().unwrap(), &content_index);
    assert_eq!(events.len(), 50);
    assert!(min_dt.unwrap() <= max_dt.unwrap());
}

#[test]
fn bulk_seed_uses_sparse_calendar_days() {
    let (events, _, _) = generate_bulk_events(&bulk_config(2_000, 90, 20), jst_today().unwrap(), &content_index);
    assert_eq!(events.len(), 2_000);
    let mut days = BTreeMap::new();
    for event in &events {
        days.insert(jst_day(event.received_at), ());
    }
    let unique_days = days.len();
    assert!(unique_days <= 77, "expected some zero-event days in heatmap, got {unique_days}");
    assert!(unique_days >= 67, "expected most days to be active for large realistic seed, got {unique_days}");
}

#[test]
fn bulk_filler_does_not_emit_publish_lifecycle_event_kinds() {
    let (events, _, _) = generate_bulk_events(&bulk_config(2_000, 90, 20), jst_today().unwrap(), &content_index);
    let mut filler_lifecycle_kinds = 0usize;
    for generated in &events {
        let event = normalize(&generated.body, generated.received_at);
        let content_id = event.content_id.clone().unwrap();
        if content_id.starts_with("metric-") || content_id.starts_with("activity-draft-") {
            continue;
        }
        if matches!(event.event_kind.as_deref(), Some("INITIAL_DRAFT") | Some("PUBLISH_FROM_DRAFT")) {
            filler_lifecycle_kinds += 1;
        }
    }
    assert_eq!(filler_lifecycle_kinds, 0, "filler must not emit publish lifecycle events that skew Grafana metrics");
}

#[test]
fn realistic_bulk_day_schedule_covers_most_of_range_with_zero_days() {
    let start = chrono::NaiveDate::from_ymd_opt(2026, 1, 1).unwrap();
    let start_day = i64::from(chrono::Datelike::num_days_from_ce(&start));
    let schedule = build_realistic_bulk_day_schedule(&mut SeededRng::new(42), start_day, 365);
    assert!(schedule.days.len() <= 310);
    assert!(schedule.days.len() >= 274);
    let total_weight: u32 = schedule.days.iter().map(|day| day.weight).sum();
    assert!(total_weight > schedule.days.len() as u32);
    assert_eq!(schedule.latest_date(), start_day + 364);
}

#[test]
fn schedule_of_a_short_span_keeps_its_last_day() {
    let schedule = build_realistic_bulk_day_schedule(&mut SeededRng::new(7), 739_617, 1);
    assert_eq!(schedule.days.len(), 1);
    assert_eq!(schedule.days[0].date, 739_617);
    let schedule = build_realistic_bulk_day_schedule(&mut SeededRng::new(7), 739_617, 10);
    assert_eq!(schedule.days.len(), 10 - 2);
    assert_eq!(schedule.latest_date(), 739_626);
}

#[test]
fn schedule_leaves_a_fifth_of_the_days_without_events() {
    for (days, seed) in [(365_u32, 42_u64), (90, 1), (7, 3), (2, 9), (3660, 5)] {
        let schedule = build_realistic_bulk_day_schedule(&mut SeededRng::new(seed), 739_617, days);
        let zero_days = ((days + 2) / 5).min(days - 1);
        assert_eq!(schedule.days.len(), (days - zero_days) as usize);
        assert!(schedule.days.windows(2).all(|pair| pair[0].date < pair[1].date));
    }
}

#[test]
fn seeded_rng_is_a_linear_congruential_generator() {
    let mut rng = SeededRng::new(0);
    assert_eq!(rng.next_u64(), 1);
    assert_eq!(rng.next_u64(), 6_364_136_223_846_793_006);
    let mut rng = SeededRng::new(0);
    assert_eq!(rng.next_u32(10), 1);
    assert_eq!(rng.next_usize(1000), (6_364_136_223_846_793_006u64 % 1000) as usize);
}

#[test]
fn shuffling_keeps_every_template() {
    let mut templates = vec![
        BulkTemplate::UpdatePublished,
        BulkTemplate::DeleteDraft,
        BulkTemplate::DeleteDraft,
        BulkTemplate::ReopenToDraft,
    ];
    shuffle_bulk_templates(&mut SeededRng::new(42), &mut templates);
    assert_eq!(templates.len(), 4);
    assert_eq!(templates.iter().filter(|t| **t == BulkTemplate::DeleteDraft).count(), 2);
    assert_eq!(templates.iter().filter(|t| **t == BulkTemplate::UpdatePublished).count(), 1);
}

#[test]
fn picked_contents_are_named_by_index() {
    let mut rng = SeededRng::new(42);
    let id = pick_content_id(&mut rng, 20, &content_index);
    assert!(id.starts_with("content-"));
    let index: u32 = id["content-".len()..].parse().unwrap();
    assert!(index < 20);
    let mut rng = SeededRng::new(1);
    assert_eq!(pick_content_id(&mut rng, 5, &|_, _| 17), "content-17");
}

#[test]
fn bulk_bodies_follow_their_templates() {
    let received_at = instant("2026-06-29T12:00:00Z");
    let body = build_bulk_webhook_body(
        "blogs",
        "content-1",
        BulkTemplate::DeleteClosed,
        received_at,
        &BulkEventTiming::for_filler(BulkTemplate::DeleteClosed),
    );
    let event = normalize(&body, received_at);
    assert_eq!(event.event_kind.as_deref(), Some("DELETE_CLOSED"));
    assert_eq!(event.old_status.as_deref(), Some("CLOSED"));
    assert!(body.contains("\"updatedAt\":\"2026-06-29T12:00:00+00:00\""));
    let body = build_bulk_webhook_body(
        "news",
        "content-2",
        BulkTemplate::InitialDraft,
        received_at,
        &BulkEventTiming::for_filler(BulkTemplate::InitialDraft),
    );
    let event = normalize(&body, received_at);
    assert_eq!(event.event_kind.as_deref(), Some("INITIAL_DRAFT"));
    assert_eq!(event.draft_created_at.unwrap().seconds, received_at.seconds - 7 * 86_400);
}

#[test]
fn smoke_fixtures_align_content_ids_with_duckdb_integration_test() {
    let event_date = 739_796;
    let fixtures = smoke_fixtures(SmokeFixtureDates {
        event_date,
        updated_before_date: event_date - 1,
        created_date: event_date - 2,
        draft_created_date: event_date - 5,
    });
    let received_at = jst_datetime(event_date, 12, 0, 0);
    let events: Vec<_> = fixtures.into_iter().map(|(body, at)| normalize(&body, at)).collect();

    assert_eq!(events[3].content_id, None);
    assert_eq!(events[4].content_id, None);
    assert_eq!(events[5].content_id, None);
    assert_eq!(events[7].content_id, None);
    assert_eq!(events[0].content_id.as_deref(), Some("01J1DVG0000000000000000001"));
    assert_eq!(events[6].content_id.as_deref(), Some("01J1DVG0000000000000000002"));
    assert_eq!(events[0].event_kind.as_deref(), Some("PUBLISH_FROM_DRAFT"));
    assert_eq!(events[3].event_kind.as_deref(), Some("UNPUBLISH_TO_DRAFT"));
    assert_eq!(events[4].event_kind.as_deref(), Some("UNPUBLISH_TO_CLOSED"));
    assert_eq!(events[7].event_kind.as_deref(), Some("DELETE_PUBLISHED"));
    assert_eq!(received_at, events[0].received_at);
}

#[test]
fn smoke_days_count_back_from_today() {
    let dates = smoke_fixture_dates(739_800);
    assert_eq!(dates.event_date, 739_798);
    assert_eq!(dates.updated_before_date, 739_797);
    assert_eq!(dates.created_date, 739_796);
    assert_eq!(dates.draft_created_date, 739_793);
    assert_eq!(smoke_event_ids().len(), 8);
    assert_eq!(smoke_event_ids()[7], "018f1001-0000-7000-8000-000000000008");
}

#[test]
fn deterministic_content_ulid_encodes_crockford_base32() {
    let timestamp = instant("2026-06-29T00:00:00Z");

    let ulid = deterministic_content_ulid(timestamp, 42, "test", "blogs", 7);

    assert_eq!(ulid.len(), 26);
    assert_eq!(ulid, "01KW8ASZ00NVA8JB1AA7DAW871");
    assert!(ulid.bytes().all(|byte| matches!(
        byte,
        b'0'..=b'9' | b'A'..=b'H' | b'J'..=b'K' | b'M'..=b'N' | b'P'..=b'T' | b'V'..=b'Z'
    )));
    assert_eq!(ulid, deterministic_content_ulid(timestamp, 42, "test", "blogs", 7));
}

#[test]
fn ulid_digits_are_crockford_base32() {
    assert_eq!(encode_ulid(0), "00000000000000000000000000");
    assert_eq!(encode_ulid(31), "0000000000000000000000000Z");
    assert_eq!(encode_ulid(u128::MAX), "7ZZZZZZZZZZZZZZZZZZZZZZZZZ");
}

#[test]
fn seed_settings_are_validated() {
    let mut config = bulk_config(10, 30, 5);
    assert!(validate_config(&config).is_ok());
    config.days = 0;
    assert!(matches!(validate_config(&config), Err(IngestError::Parquet(m)) if m == "days must be between 1 and 3660"));
    config.days = 3661;
    assert!(validate_config(&config).is_err());
    config.days = 30;
    config.count = 0;
    assert!(matches!(validate_config(&config), Err(IngestError::Parquet(m)) if m == "count must be greater than 0"));
    config.count = 10;
    config.contents = 0;
    assert!(matches!(validate_config(&config), Err(IngestError::Parquet(m)) if m == "contents must be greater than 0"));
    config.preset = DebugSeedPreset::Smoke;
    assert!(validate_config(&config).is_ok());
    config.rows_per_file = 0;
    assert!(matches!(validate_config(&config), Err(IngestError::Parquet(m)) if m == "rows_per_file must be greater than 0"));
}

#[test]
fn command_line_is_read_left_to_right() {
    let args = |v: &[&str]| v.iter().map(|s| s.to_string()).collect::<Vec<_>>();
    match parse_seed_args(&args(&[])).unwrap() {
        SeedCommand::Generate(c) => {
            assert_eq!(c.preset, DebugSeedPreset::Smoke);
            assert_eq!(c.output_dir, ".debug/parquet");
            assert_eq!((c.count, c.days, c.contents, c.rows_per_file, c.seed), (10_000, 365, 200, 500, 42));
        },
        SeedCommand::Help => panic!("expected a run"),
    }
    match parse_seed_args(&args(&["--preset", "bulk", "--count", "+25", "--seed", "18446744073709551615", "--output-dir", "out"])).unwrap() {
        SeedCommand::Generate(c) => {
            assert_eq!(c.preset, DebugSeedPreset::Bulk);
            assert_eq!(c.count, 25);
            assert_eq!(c.seed, u64::MAX);
            assert_eq!(c.output_dir, "out");
        },
        SeedCommand::Help => panic!("expected a run"),
    }
    assert!(matches!(parse_seed_args(&args(&["--days", "x", "--help"])), Err(IngestError::Parquet(m)) if m == "invalid --days"));
    assert!(matches!(parse_seed_args(&args(&["-h", "--bogus"])), Ok(SeedCommand::Help)));
    assert!(matches!(parse_seed_args(&args(&["--bogus"])), Err(IngestError::Parquet(m)) if m == "unknown argument: --bogus"));
    assert!(matches!(parse_seed_args(&args(&["--count"])), Err(IngestError::Parquet(m)) if m == "missing value for --count"));
    assert!(matches!(parse_seed_args(&args(&["--count", "4294967296"])), Err(IngestError::Parquet(m)) if m == "invalid --count"));
    assert!(matches!(parse_preset("huge".to_owned()), Err(IngestError::Parquet(m)) if m == "preset must be smoke or bulk"));
    assert!(matches!(require_value(&args(&["a"]), 1, "--x"), Err(IngestError::Parquet(m)) if m == "missing value for --x"));
}

#[test]
fn partitions_are_grouped_in_text_order() {
    let dirs = vec!["b".to_owned(), "a".to_owned(), "b".to_owned(), "c".to_owned()];
    let groups = group_by_partition(&dirs);
    assert_eq!(groups.len(), 3);
    assert_eq!(groups[0].dir, "a");
    assert_eq!(groups[0].members, vec![1]);
    assert_eq!(groups[1].dir, "b");
    assert_eq!(groups[1].members, vec![0, 2]);
    assert_eq!(groups[2].members, vec![3]);
    assert_eq!(shard_file_path("p", 0), "p/events-000.parquet");
    assert_eq!(shard_file_path("p", 42), "p/events-042.parquet");
    assert_eq!(shard_file_path("p", 1234), "p/events-1234.parquet");
}


fn day_number(year: i32, month: u32, day: u32) -> i64 {
    let date = chrono::NaiveDate::from_ymd_opt(year, month, day).unwrap();
    i64::from(chrono::Datelike::num_days_from_ce(&date))
}

#[test]
fn day_weights_follow_weekdays_and_campaign_days() {
    // 2026-06-01 is a Monday.
    assert_eq!(weekly_activity_weight(day_number(2026, 6, 1)), 105);
    assert_eq!(weekly_activity_weight(day_number(2026, 6, 2)), 120);
    assert_eq!(weekly_activity_weight(day_number(2026, 6, 5)), 90);
    assert_eq!(weekly_activity_weight(day_number(2026, 6, 6)), 35);
    assert_eq!(weekly_activity_weight(day_number(2026, 6, 7)), 25);
    assert_eq!(campaign_activity_weight(day_number(2026, 6, 4)), 80);
    assert_eq!(campaign_activity_weight(day_number(2026, 6, 16)), 80);
    assert_eq!(campaign_activity_weight(day_number(2026, 7, 26)), 80);
    assert_eq!(campaign_activity_weight(day_number(2026, 6, 9)), 35);
    assert_eq!(campaign_activity_weight(day_number(2026, 6, 20)), 35);
    assert_eq!(campaign_activity_weight(day_number(2026, 6, 3)), 0);
    assert_eq!(campaign_activity_weight(day_number(2026, 6, 30)), 0);
}

// The daily cap of publish actions is a guide rather than a bound: it holds
// for the year ending 2026-06-29, though not for every year a run can end on.
#[test]
fn publish_actions_follow_ratio_and_year_distribution_for_a_fixed_year() {
    let today = day_number(2026, 6, 29);
    let events = generate_test_bulk_events_ending(50_000, 365, today);
    let start = today - 364;
    let midpoint = start + 182;
    let mut first_half = 0usize;
    let mut second_half = 0usize;
    let mut daily_counts: BTreeMap<i64, usize> = BTreeMap::new();
    for event in events {
        if !matches!(
            event.event_kind.as_deref(),
            Some("PUBLISH_FROM_DRAFT") | Some("INITIAL_PUBLISH") | Some("REPUBLISH_FROM_CLOSED")
        ) {
            continue;
        }
        let day = jst_day(event.received_at);
        *daily_counts.entry(day).or_default() += 1;
        if day <= midpoint {
            first_half += 1;
        } else {
            second_half += 1;
        }
    }
    let publish_actions = first_half + second_half;
    let average_daily = publish_actions as f64 / 365.0;
    let max_daily = daily_counts.values().copied().max().unwrap_or(0);
    let ratio = first_half as f64 / second_half as f64;
    assert_eq!(publish_actions, 1_825);
    assert!((4.9..=5.1).contains(&average_daily), "average {average_daily}");
    assert!(max_daily <= 20, "max_daily={max_daily}");
    assert!((0.80..=1.25).contains(&ratio), "first_half={first_half}, second_half={second_half}");
}

#[test]
fn partition_groups_are_split_into_batch_files_in_member_order() {
    let dirs: Vec<String> = ["p/b", "p/a", "p/b", "p/b", "p/b", "p/b", "p/a"].iter().map(|d| d.to_string()).collect();
    let groups = group_by_partition(&dirs);
    let files = shard_files(&groups, 2);
    let views: Vec<(&str, Vec<usize>)> = files.iter().map(|f| (f.path.as_str(), f.members.clone())).collect();
    assert_eq!(
        views,
        vec![
            ("p/a/events-000.parquet", vec![1, 6]),
            ("p/b/events-000.parquet", vec![0, 2]),
            ("p/b/events-001.parquet", vec![3, 4]),
            ("p/b/events-002.parquet", vec![5]),
        ]
    );
    let mut all: Vec<usize> = files.iter().flat_map(|f| f.members.iter().copied()).collect();
    all.sort();
    assert_eq!(all, (0..dirs.len()).collect::<Vec<_>>());
    assert_eq!(shard_files(&groups, 10).len(), 2);
}

#[test]
fn bulk_runs_are_determined_by_seed_and_day() {
    let today = day_number(2026, 6, 29);
    let config = bulk_config(500, 30, 10);
    let (first, first_min, first_max) = generate_bulk_events(&config, today, &content_index);
    let (second, second_min, second_max) = generate_bulk_events(&config, today, &content_index);
    assert_eq!(first.len(), 500);
    assert_eq!((first_min, first_max), (second_min, second_max));
    for (a, b) in first.iter().zip(second.iter()) {
        assert_eq!(a.body, b.body);
        assert_eq!(a.received_at, b.received_at);
        assert_eq!(a.content_id, b.content_id);
    }
    let mut other = bulk_config(500, 30, 10);
    other.seed = 43;
    let (third, _, _) = generate_bulk_events(&other, today, &content_index);
    assert!(first.iter().zip(third.iter()).any(|(a, b)| a.received_at != b.received_at));
}

#[test]
fn schedule_days_weigh_at_least_the_lowest_weekday_weight() {
    for (days, seed) in [(365_u32, 42_u64), (30, 11), (1, 2)] {
        let schedule = build_realistic_bulk_day_schedule(&mut SeededRng::new(seed), 739_617, days);
        assert!(schedule.days.iter().all(|day| day.weight >= 25));
        assert_eq!(schedule.latest_date(), 739_617 + i64::from(days) - 1);
    }
}

#[test]
fn options_after_well_formed_ones_fail_the_same_way() {
    let args = |items: &[&str]| items.iter().map(|s| s.to_string()).collect::<Vec<String>>();
    assert!(matches!(parse_seed_args(&args(&["--preset", "bulk", "--count"])),
        Err(IngestError::Parquet(m)) if m == "missing value for --count"));
    assert!(matches!(parse_seed_args(&args(&["--seed", "1", "--days", "30", "--bogus"])),
        Err(IngestError::Parquet(m)) if m == "unknown argument: --bogus"));
    match parse_seed_args(&args(&["--preset", "bulk", "--count", "12", "--output-dir", "out"])) {
        Ok(SeedCommand::Generate(config)) => {
            assert_eq!(config.preset, DebugSeedPreset::Bulk);
            assert_eq!(config.count, 12);
            assert_eq!(config.output_dir, "out");
            assert_eq!(config.days, 365);
        }
        _ => panic!("well-formed options must give a run"),
    }
}

#[test]
fn schedule_spans_may_touch_both_ends_of_the_calendar() {
    let first = build_realistic_bulk_day_schedule(&mut SeededRng::new(3), MIN_DAY, 3);
    assert!(first.days.iter().all(|day| day.date >= MIN_DAY && day.weight >= 25));
    assert_eq!(first.latest_date(), MIN_DAY + 2);
    let last = build_realistic_bulk_day_schedule(&mut SeededRng::new(3), MAX_DAY - 2, 3);
    assert_eq!(last.latest_date(), MAX_DAY);
}

#[test]
fn publish_actions_follow_new_ratio_and_year_distribution() {
    // How many publications fall on the busiest day depends on the calendar
    // of the span, so the span ends on a fixed day here.
    let today = i64::from(chrono::Datelike::num_days_from_ce(&chrono::NaiveDate::from_ymd_opt(2026, 6, 29).unwrap()));
    let events = generate_test_bulk_events_ending(50_000, 365, today);
    let start = today - 364;
    let midpoint = start + 182;
    let mut first_half = 0usize;
    let mut second_half = 0usize;
    let mut daily_counts: BTreeMap<i64, usize> = BTreeMap::new();

    for event in events {
        if !matches!(
            event.event_kind.as_deref(),
            Some("PUBLISH_FROM_DRAFT") | Some("INITIAL_PUBLISH") | Some("REPUBLISH_FROM_CLOSED")
        ) {
            continue;
        }
        let day = jst_day(event.received_at);
        *daily_counts.entry(day).or_default() += 1;
        if day <= midpoint {
            first_half += 1;
        } else {
            second_half += 1;
        }
    }

    let publish_actions = first_half + second_half;
    let average_daily = publish_actions as f64 / 365.0;
    let max_daily = daily_counts.values().copied().max().unwrap_or(0);
    let ratio = first_half as f64 / second_half as f64;
    assert_eq!(publish_actions, 1_825);
    assert!((4.9..=5.1).contains(&average_daily), "average_daily={average_daily}");
    assert!(max_daily <= 20, "max_daily={max_daily}");
    assert!((0.80..=1.25).contains(&ratio), "first_half={first_half}, second_half={second_half}");
}

#[test]
fn batch_files_hold_one_row_per_event() {
    let dirs: Vec<String> = ["b", "a", "b", "c", "a", "b", "b"].iter().map(|s| s.to_string()).collect();
    let groups = group_by_partition(&dirs);
    let files = shard_files(&groups, 2);
    let total: usize = files.iter().map(|file| file.members.len()).sum();
    assert_eq!(total, dirs.len());
    let mut seen: Vec<usize> = files.iter().flat_map(|file| file.members.iter().copied()).collect();
    seen.sort();
    assert_eq!(seen, (0..dirs.len()).collect::<Vec<usize>>());
}

#[test]
fn shuffle_keeps_templates_and_draws_once_per_position() {
    let original: Vec<BulkTemplate> = vec![
        BulkTemplate::InitialDraft, BulkTemplate::SaveDraft, BulkTemplate::InitialDraft, BulkTemplate::InitialPublish,
    ];
    let mut templates = original.clone();
    let mut rng = SeededRng::new(9);
    shuffle_bulk_templates(&mut rng, &mut templates);
    let mut expected_rng = SeededRng::new(9);
    for _ in 0..original.len() - 1 {
        expected_rng.next_u64();
    }
    assert_eq!(rng.next_u64(), expected_rng.next_u64());
    let count = |v: &[BulkTemplate], t: BulkTemplate| v.iter().filter(|x| **x == t).count();
    for t in [BulkTemplate::InitialDraft, BulkTemplate::SaveDraft, BulkTemplate::InitialPublish] {
        assert_eq!(count(&templates, t), count(&original, t));
    }
}

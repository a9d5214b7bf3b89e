use arrow_array::{Array, StringArray, TimestampMicrosecondArray};
use arrow_schema::{DataType, TimeUnit};
use base64::Engine;
use base64::engine::general_purpose::STANDARD as BASE64_STANDARD;
use content_ops_analytics::event_kind::{EventKind, derive_event_kind};
use content_ops_analytics::ingest::{
    ColumnType, Config, EventColumns, WebhookUpload, event_schema, config_from_settings, env_bool, event_columns,
    partition_dir_for_event, prepare_webhook_upload, prepare_webhook_upload_at, required_env,
};
use content_ops_analytics::event_file::{event_instants_in_range, event_texts_in_range, event_to_parquet, events_to_parquet};
use content_ops_analytics::json::{JsonValue, WebhookPayload};
use content_ops_analytics::normalize::{IngestError, NormalizedEvent, normalize_payload};
use content_ops_analytics::signature::{constant_time_eq, verify_signature};
use content_ops_analytics::status::status_csv;
use content_ops_analytics::storage::{build_s3_key, jst_partition_date, partition_dir_from_key, partition_escape, trim_slashes};
use content_ops_analytics::time::{UtcTimestamp, timestamp_micros};
use hmac::{Hmac, Mac};
use sha2::Sha256;

fn json_value(v: &serde_json::Value) -> JsonValue {
    match v {
        serde_json::Value::Null => JsonValue::Null,
        serde_json::Value::Bool(b) => JsonValue::Bool(*b),
        serde_json::Value::Number(n) => JsonValue::Number(n.to_string()),
        serde_json::Value::String(s) => JsonValue::Str(s.clone()),
        serde_json::Value::Array(items) => JsonValue::Array(items.iter().map(json_value).collect()),
        serde_json::Value::Object(members) => JsonValue::Object(
            members.iter().map(|(k, v)| (k.clone(), json_value(v))).collect(),
        ),
    }
}

fn text_member(object: &serde_json::Map<String, serde_json::Value>, key: &str) -> Result<Option<String>, String> {
    match object.get(key) {
        None | Some(serde_json::Value::Null) => Ok(None),
        Some(serde_json::Value::String(s)) => Ok(Some(s.clone())),
        Some(other) => Err(format!("invalid type: {other}, expected a string")),
    }
}

fn document_member(object: &serde_json::Map<String, serde_json::Value>, key: &str) -> Option<JsonValue> {
    match object.get(key) {
        None | Some(serde_json::Value::Null) => None,
        Some(value) => Some(json_value(value)),
    }
}

/// The webhook record of a body, built from its JSON value the way a typed
/// deserialization reads it.
fn webhook_payload(body: &[u8]) -> Result<WebhookPayload, String> {
    let value: serde_json::Value = serde_json::from_slice(body).map_err(|e| e.to_string())?;
    let object = value.as_object().ok_or_else(|| "invalid type: expected struct MicrocmsWebhook".to_owned())?;
    let (old, new) = match object.get("contents") {
        None | Some(serde_json::Value::Null) => (None, None),
        Some(serde_json::Value::Object(contents)) => (document_member(contents, "old"), document_member(contents, "new")),
        Some(_) => return Err("invalid type: expected struct WebhookContents".to_owned()),
    };
    Ok(WebhookPayload {
        service: text_member(object, "service")?,
        api: text_member(object, "api")?,
        id: text_member(object, "id")?,
        event_type: text_member(object, "type")?,
        old,
        new,
    })
}

fn normalize(body: &[u8], received_at: UtcTimestamp) -> Result<NormalizedEvent, IngestError> {
    normalize_payload(body, webhook_payload(body), received_at)
}

fn instant(text: &str) -> UtcTimestamp {
    let at = chrono::DateTime::parse_from_rfc3339(text).unwrap();
    UtcTimestamp { seconds: at.timestamp(), nanos: at.timestamp_subsec_nanos() }
}

fn rfc3339(t: UtcTimestamp) -> String {
    chrono::DateTime::from_timestamp(t.seconds, t.nanos).unwrap().to_rfc3339()
}

fn sample_body() -> &'static [u8] {
    br#"{
          "service": "example-service",
          "api": "blogs",
          "id": "content-id",
          "type": "edit",
          "contents": {
            "old": {"status": "DRAFT", "updatedAt": "2026-06-28T12:00:00Z"},
            "new": {"status": "PUBLISH", "updatedAt": "2026-06-29T12:00:00Z"}
          }
        }"#
}

fn body_with_statuses(event_type: &str, old_status: Option<&str>, new_status: Option<&str>) -> Vec<u8> {
    let old = old_status
        .map(|status| format!(r#"{{"status": {status}}}"#))
        .unwrap_or_else(|| "null".to_owned());
    let new = new_status
        .map(|status| {
            format!(
                r#"{{
                      "status": {status},
                      "publishValue": {{
                        "createdAt": "2026-06-27T12:00:00Z",
                        "publishedAt": "2026-06-29T12:00:00Z"
                      }}
                    }}"#
            )
        })
        .unwrap_or_else(|| "null".to_owned());
    format!(
        r#"{{
              "service": "example-service",
              "api": "blogs",
              "id": "content-id",
              "type": "{event_type}",
              "contents": {{
                "old": {old},
                "new": {new}
              }}
            }}"#
    )
    .into_bytes()
}

#[test]
fn normalize_normalizes_microcms_payload() {
    let received_at = instant("2026-06-29T01:02:03Z");
    let event = normalize(sample_body(), received_at).unwrap();

    assert_eq!(event.service.as_deref(), Some("example-service"));
    assert_eq!(event.api.as_deref(), Some("blogs"));
    assert_eq!(event.content_id.as_deref(), Some("content-id"));
    assert_eq!(event.event_type.as_deref(), Some("edit"));
    assert_eq!(event.old_status.as_deref(), Some("DRAFT"));
    assert_eq!(event.new_status.as_deref(), Some("PUBLISH"));
    assert_eq!(rfc3339(event.new_updated_at.unwrap()), "2026-06-29T12:00:00+00:00");
}

#[test]
fn normalize_normalizes_status_arrays_event_kind_and_publish_timestamps() {
    let received_at = instant("2026-06-29T01:02:03Z");
    let body = body_with_statuses("edit", Some(r#"["DRAFT"]"#), Some(r#"["PUBLISH"]"#));
    let event = normalize(&body, received_at).unwrap();

    assert_eq!(event.old_status.as_deref(), Some("DRAFT"));
    assert_eq!(event.new_status.as_deref(), Some("PUBLISH"));
    assert_eq!(event.event_kind.as_deref(), Some("PUBLISH_FROM_DRAFT"));
    assert_eq!(rfc3339(event.content_created_at.unwrap()), "2026-06-27T12:00:00+00:00");
    assert_eq!(rfc3339(event.content_published_at.unwrap()), "2026-06-29T12:00:00+00:00");
}

#[test]
fn normalize_normalizes_draft_created_at_from_new_draft_value() {
    let received_at = instant("2026-06-29T01:02:03Z");
    let body = br#"{
          "service": "example-service",
          "api": "blogs",
          "id": "content-id",
          "type": "new",
          "contents": {
            "old": null,
            "new": {
              "status": ["DRAFT"],
              "updatedAt": "2026-06-29T12:00:00Z",
              "publishValue": null,
              "draftValue": {
                "createdAt": "2026-06-27T12:00:00Z",
                "updatedAt": "2026-06-29T12:00:00Z"
              }
            }
          }
        }"#;
    let event = normalize(body, received_at).unwrap();

    assert_eq!(event.event_kind.as_deref(), Some("INITIAL_DRAFT"));
    assert_eq!(rfc3339(event.draft_created_at.unwrap()), "2026-06-27T12:00:00+00:00");
}

#[test]
fn normalize_derives_event_kind_for_supported_content_transitions() {
    let received_at = instant("2026-06-29T01:02:03Z");
    let cases = [
        ("new", None, Some(r#"["DRAFT"]"#), Some("INITIAL_DRAFT")),
        ("new", None, Some(r#"["PUBLISH"]"#), Some("INITIAL_PUBLISH")),
        ("edit", Some(r#"["DRAFT"]"#), Some(r#"["PUBLISH"]"#), Some("PUBLISH_FROM_DRAFT")),
        ("edit", Some(r#"["PUBLISH"]"#), Some(r#"["PUBLISH"]"#), Some("UPDATE_PUBLISHED")),
        ("edit", Some(r#"["PUBLISH"]"#), Some(r#"["DRAFT"]"#), Some("UNPUBLISH_TO_DRAFT")),
        ("delete", Some(r#"["PUBLISH"]"#), None, Some("DELETE_PUBLISHED")),
        ("edit", Some(r#"["DRAFT"]"#), Some(r#"["DRAFT"]"#), Some("SAVE_DRAFT")),
    ];

    for (event_type, old_status, new_status, expected) in cases {
        let body = body_with_statuses(event_type, old_status, new_status);
        let event = normalize(&body, received_at).unwrap();
        assert_eq!(event.event_kind.as_deref(), expected);
    }
}

#[test]
fn event_kind_table_covers_every_transition() {
    let s = |v: &[&str]| v.iter().map(|x| x.to_string()).collect::<Vec<_>>();
    let cases: Vec<(&str, Vec<String>, Vec<String>, Option<&str>)> = vec![
        ("edit", s(&["PUBLISH"]), s(&["PUBLISH", "DRAFT"]), Some("ADD_DRAFT_TO_PUBLISHED")),
        ("edit", s(&["DRAFT", "PUBLISH"]), s(&["PUBLISH"]), Some("DISCARD_DRAFT_ON_PUBLISHED")),
        ("edit", s(&["PUBLISH"]), s(&["CLOSED"]), Some("UNPUBLISH_TO_CLOSED")),
        ("edit", s(&["CLOSED"]), s(&["DRAFT"]), Some("REOPEN_TO_DRAFT")),
        ("edit", s(&["CLOSED"]), s(&["PUBLISH"]), Some("REPUBLISH_FROM_CLOSED")),
        ("delete", s(&["DRAFT"]), s(&[]), Some("DELETE_DRAFT")),
        ("delete", s(&["CLOSED"]), s(&[]), Some("DELETE_CLOSED")),
        ("edit", s(&["CLOSED", "DRAFT"]), s(&["DRAFT"]), None),
        ("edit", s(&["UNKNOWN"]), s(&["DRAFT"]), None),
        ("publish", s(&["DRAFT"]), s(&["PUBLISH"]), None),
    ];
    for (event_type, old, new, expected) in cases {
        assert_eq!(derive_event_kind(Some(event_type), &old, &new).as_deref(), expected);
    }
    assert_eq!(derive_event_kind(None, &s(&["DRAFT"]), &s(&["PUBLISH"])), None);
    assert_eq!(EventKind::RepublishFromClosed.as_str(), "REPUBLISH_FROM_CLOSED");
}

#[test]
fn status_sets_are_sorted_and_deduplicated() {
    let received_at = instant("2026-06-29T01:02:03Z");
    let body = body_with_statuses("edit", Some(r#"["PUBLISH", "DRAFT", "PUBLISH", 3]"#), Some(r#"["PUBLISH"]"#));
    let event = normalize(&body, received_at).unwrap();
    assert_eq!(event.old_status.as_deref(), Some("DRAFT,PUBLISH"));
    assert_eq!(event.event_kind.as_deref(), Some("DISCARD_DRAFT_ON_PUBLISHED"));
    assert_eq!(status_csv(&[]), None);
}

#[test]
fn normalize_rejects_bodies_that_are_not_webhooks() {
    let received_at = instant("2026-06-29T01:02:03Z");
    assert!(matches!(normalize(&[0xff, 0xfe], received_at), Err(IngestError::InvalidBody)));
    assert!(matches!(normalize(b"{not json", received_at), Err(IngestError::ParsePayload(_))));
    assert!(matches!(normalize(br#"{"service": 3}"#, received_at), Err(IngestError::ParsePayload(_))));
    assert!(matches!(normalize(br#"[1, 2]"#, received_at), Err(IngestError::ParsePayload(_))));
    let event = normalize(br#"{}"#, received_at).unwrap();
    assert_eq!(event.service, None);
    assert_eq!(event.raw_payload, "{}");
    assert_eq!(event.received_at, received_at);
}

#[test]
fn ingest_errors_report_messages_and_statuses() {
    assert_eq!(IngestError::MissingSignature.status_code(), 401);
    assert_eq!(IngestError::InvalidSignature.status_code(), 401);
    assert_eq!(IngestError::InvalidBody.status_code(), 400);
    assert_eq!(IngestError::ParsePayload("x".to_owned()).status_code(), 400);
    assert_eq!(IngestError::MissingEnv("EVENT_BUCKET").status_code(), 500);
    assert_eq!(IngestError::S3("down".to_owned()).status_code(), 500);
    assert_eq!(
        IngestError::MissingEnv("EVENT_BUCKET").message(),
        "missing required environment variable: EVENT_BUCKET"
    );
    assert_eq!(IngestError::MissingSignature.message(), "missing required header: x-microcms-signature");
    assert_eq!(IngestError::Parquet("no events".to_owned()).message(), "failed to build parquet: no events");
}

fn hmac_tag(secret: &[u8], body: &[u8]) -> Vec<u8> {
    let mut mac = Hmac::<Sha256>::new_from_slice(secret).unwrap();
    mac.update(body);
    mac.finalize().into_bytes().to_vec()
}

#[test]
fn verifies_hex_and_base64_hmac_signature() {
    let digest = hmac_tag(b"secret", sample_body());
    let signature = hex::encode(&digest);
    let base64_signature = BASE64_STANDARD.encode(&digest);

    assert!(verify_signature(sample_body(), b"secret", &signature));
    assert!(verify_signature(sample_body(), b"secret", &base64_signature));
    assert!(verify_signature(sample_body(), b"secret", &format!("sha256={signature}")));
    assert!(!verify_signature(sample_body(), b"wrong", &signature));
}

#[test]
fn signature_text_is_trimmed_and_may_be_upper_case() {
    let digest = hmac_tag(b"secret", b"body");
    let upper = hex::encode_upper(&digest);
    assert!(verify_signature(b"body", b"secret", &format!("  SHA256={upper}\n")));
    assert!(!verify_signature(b"body", b"secret", "sha256="));
    assert!(!verify_signature(b"body", b"secret", "not a signature"));
    assert!(!verify_signature(b"other body", b"secret", &hex::encode(&digest)));
}

#[test]
fn constant_time_comparison_is_equality() {
    assert!(constant_time_eq(b"abc", b"abc"));
    assert!(!constant_time_eq(b"abc", b"abd"));
    assert!(!constant_time_eq(b"abc", b"ab"));
    assert!(constant_time_eq(b"", b""));
}

#[test]
fn builds_partitioned_s3_key() {
    let received_at = instant("2026-06-29T01:02:03Z");
    assert_eq!(
        build_s3_key("/microcms_events/", "example/service", "blogs api", received_at, "event-id"),
        "microcms_events/service=example_service/api=blogs_api/dt=2026-06-29/event-id.parquet"
    );
}

#[test]
fn builds_partitioned_s3_key_with_jst_calendar_day() {
    let before_jst_midnight = instant("2026-06-29T14:59:59Z");
    let after_jst_midnight = instant("2026-06-29T15:00:00Z");

    assert_eq!(
        build_s3_key("microcms_events", "example-service", "blogs", before_jst_midnight, "event-id"),
        "microcms_events/service=example-service/api=blogs/dt=2026-06-29/event-id.parquet"
    );
    assert_eq!(
        build_s3_key("microcms_events", "example-service", "blogs", after_jst_midnight, "event-id"),
        "microcms_events/service=example-service/api=blogs/dt=2026-06-30/event-id.parquet"
    );
}

#[test]
fn partition_values_and_directories() {
    assert_eq!(partition_escape("a/b=c?d#e[f]g h"), "a_b_c_d_e_f_g_h");
    assert_eq!(trim_slashes("//x/y//"), "x/y");
    assert_eq!(partition_dir_from_key("a/b/c.parquet"), "a/b");
    assert_eq!(partition_dir_from_key("plain"), "plain");
    let event = normalize(sample_body(), instant("2026-06-29T01:02:03Z")).unwrap();
    assert_eq!(
        partition_dir_for_event(&event),
        "microcms_events/service=example-service/api=blogs/dt=2026-06-29"
    );
}

#[test]
fn rejects_empty_required_env_value() {
    let result = required_env("__WEBHOOK_INGEST_EMPTY_REQUIRED_ENV_TEST", Some("   ".to_owned()));
    assert!(matches!(result, Err(IngestError::MissingEnv("__WEBHOOK_INGEST_EMPTY_REQUIRED_ENV_TEST"))));
}

#[test]
fn ingest_settings_are_read_with_defaults() {
    let config = config_from_settings(Some("bucket".to_owned()), None, Some("s3cret".to_owned())).unwrap();
    assert_eq!(config.prefix, "microcms_events");
    let config = config_from_settings(Some("bucket".to_owned()), Some("/events/".to_owned()), Some("s".to_owned())).unwrap();
    assert_eq!(config.prefix, "events");
    assert!(matches!(
        config_from_settings(None, None, Some("s".to_owned())),
        Err(IngestError::MissingEnv("EVENT_BUCKET"))
    ));
    assert!(matches!(
        config_from_settings(Some("b".to_owned()), None, Some(" ".to_owned())),
        Err(IngestError::MissingEnv("MICROCMS_WEBHOOK_SECRET"))
    ));
    assert!(env_bool(Some("YES")));
    assert!(env_bool(Some("1")));
    assert!(!env_bool(Some("on")));
    assert!(!env_bool(None));
}

#[test]
fn webhook_requests_are_authorized_then_normalized() {
    let config = Config {
        bucket: "bucket".to_owned(),
        prefix: "microcms_events".to_owned(),
        secret: "secret".to_owned(),
    };
    let received_at = instant("2026-06-29T01:02:03Z");
    let signature = hex::encode(hmac_tag(b"secret", sample_body()));
    let missing = prepare_webhook_upload_at(&config, None, sample_body(), webhook_payload(sample_body()), received_at, "id");
    assert!(matches!(missing, Err(IngestError::MissingSignature)));
    let wrong = prepare_webhook_upload_at(&config, Some("00"), sample_body(), webhook_payload(sample_body()), received_at, "id");
    assert!(matches!(wrong, Err(IngestError::InvalidSignature)));
    let upload: WebhookUpload =
        prepare_webhook_upload_at(&config, Some(&signature), sample_body(), webhook_payload(sample_body()), received_at, "id")
            .unwrap();
    assert_eq!(upload.key, "microcms_events/service=example-service/api=blogs/dt=2026-06-29/id.parquet");
    assert_eq!(upload.event.event_kind.as_deref(), Some("PUBLISH_FROM_DRAFT"));

    let anonymous = br#"{"type": "new"}"#;
    let signature = hex::encode(hmac_tag(b"secret", anonymous));
    let upload = prepare_webhook_upload_at(&config, Some(&signature), anonymous, webhook_payload(anonymous), received_at, "id")
        .unwrap();
    assert_eq!(upload.key, "microcms_events/service=unknown/api=unknown/dt=2026-06-29/id.parquet");
}

#[test]
fn event_batches_become_columns() {
    let received_at = instant("2026-06-29T01:02:03Z");
    let event = normalize(sample_body(), received_at).unwrap();
    let columns: EventColumns = event_columns(&[event]).unwrap();
    assert_eq!(columns.received_at, vec![timestamp_micros(received_at)]);
    assert_eq!(columns.received_at[0], 1_782_694_923_000_000);
    assert_eq!(columns.api[0].as_deref(), Some("blogs"));
    assert_eq!(columns.event_kind[0].as_deref(), Some("PUBLISH_FROM_DRAFT"));
    assert!(columns.draft_created_at[0].is_none());
    assert!(matches!(event_columns(&[]), Err(IngestError::Parquet(m)) if m == "no events to write"));
}

#[test]
fn event_schema_lists_the_stored_columns_in_order() {
    let columns = event_schema();
    let names: Vec<&str> = columns.iter().map(|c| c.name).collect();
    assert_eq!(
        names,
        vec![
            "received_at", "service", "api", "content_id", "event_type", "event_kind", "old_status",
            "new_status", "old_updated_at", "new_updated_at", "draft_created_at", "content_created_at",
            "content_published_at", "raw_payload",
        ]
    );
    assert_eq!(columns[0].column_type, ColumnType::UtcTimestampMicros);
    assert!(!columns[0].nullable);
    assert_eq!(columns[1].column_type, ColumnType::Text);
    assert!(columns[1].nullable);
    assert_eq!(columns[8].column_type, ColumnType::UtcTimestampMicros);
    assert!(columns[8].nullable);
    assert_eq!(columns[13].column_type, ColumnType::Text);
    assert!(!columns[13].nullable);
}

#[test]
fn uploads_arriving_now_get_a_fresh_version_7_event_id() {
    let config = Config {
        bucket: "bucket".to_owned(),
        prefix: "microcms_events".to_owned(),
        secret: "secret".to_owned(),
    };
    let signature = hex::encode(hmac_tag(b"secret", sample_body()));
    let first = prepare_webhook_upload(&config, Some(&signature), sample_body(), webhook_payload(sample_body())).unwrap();
    let second = prepare_webhook_upload(&config, Some(&signature), sample_body(), webhook_payload(sample_body())).unwrap();
    let prefix = "microcms_events/service=example-service/api=blogs/dt=";
    for upload in [&first, &second] {
        assert!(upload.key.starts_with(prefix));
        let file = upload.key.rsplit('/').next().unwrap();
        let id = file.strip_suffix(".parquet").unwrap();
        assert_eq!(id.len(), 36);
        assert_eq!(&id[14..15], "7");
        assert_eq!(id, id.to_ascii_lowercase());
        assert!(upload.event.received_at.seconds > 1_700_000_000);
    }
    assert_ne!(first.key, second.key);
    let missing = prepare_webhook_upload(&config, None, sample_body(), webhook_payload(sample_body()));
    assert!(matches!(missing, Err(IngestError::MissingSignature)));
}

fn read_parquet(file: Vec<u8>) -> Vec<arrow_array::RecordBatch> {
    let builder = parquet::arrow::arrow_reader::ParquetRecordBatchReaderBuilder::try_new(bytes::Bytes::from(file)).unwrap();
    builder.build().unwrap().map(|batch| batch.unwrap()).collect()
}

#[test]
fn parquet_writes_single_event_parquet() {
    let received_at = instant("2026-06-29T01:02:03Z");
    let event = normalize(sample_body(), received_at).unwrap();
    let parquet = event_to_parquet(&event).unwrap();
    assert!(!parquet.is_empty());

    let batches = read_parquet(parquet);
    let batch = &batches[0];
    assert!(!batch.schema().fields().iter().any(|field| field.name() == "title"));

    let received = batch.column(0).as_any().downcast_ref::<TimestampMicrosecondArray>().unwrap();
    assert_eq!(received.value(0), timestamp_micros(event.received_at));

    let api = batch.column(2).as_any().downcast_ref::<StringArray>().unwrap();
    assert_eq!(api.value(0), "blogs");

    let event_kind = batch.column(5).as_any().downcast_ref::<StringArray>().unwrap();
    assert_eq!(event_kind.value(0), "PUBLISH_FROM_DRAFT");
    assert!(batch.schema().fields().iter().any(|field| field.name() == "draft_created_at"));
    assert_eq!(batch.num_rows(), 1);
}

#[test]
fn writes_multiple_events_to_single_parquet_file() {
    let received_at = instant("2026-06-29T01:02:03Z");
    let first = normalize(sample_body(), received_at).unwrap();
    let second = normalize(sample_body(), received_at).unwrap();
    let batches = read_parquet(events_to_parquet(&[first, second]).unwrap());
    assert_eq!(batches[0].num_rows(), 2);
    assert_eq!(batches.len(), 1);
}

#[test]
fn events_to_parquet_refuses_an_empty_batch() {
    match events_to_parquet(&[]) {
        Err(IngestError::Parquet(message)) => assert_eq!(message, "no events to write"),
        _ => panic!("an empty batch must be refused"),
    }
}

#[test]
fn parquet_file_keeps_schema_nullability_and_row_values() {
    let received_at = instant("2026-06-29T01:02:03Z");
    let event = normalize(sample_body(), received_at).unwrap();
    let batches = read_parquet(event_to_parquet(&event).unwrap());
    let schema = batches[0].schema();
    let names: Vec<&str> = schema.fields().iter().map(|f| f.name().as_str()).collect();
    let expected: Vec<&str> = event_schema().iter().map(|c| c.name).collect();
    assert_eq!(names, expected);
    assert!(!schema.field(0).is_nullable());
    assert!(!schema.field(13).is_nullable());
    assert!(schema.field(1).is_nullable());
    assert_eq!(schema.field(0).data_type(), &DataType::Timestamp(TimeUnit::Microsecond, Some("UTC".into())));
    let updated = batches[0].column(9).as_any().downcast_ref::<TimestampMicrosecondArray>().unwrap();
    assert_eq!(updated.value(0), timestamp_micros(instant("2026-06-29T12:00:00Z")));
    let raw = batches[0].column(13).as_any().downcast_ref::<StringArray>().unwrap();
    assert_eq!(raw.value(0).as_bytes(), sample_body());
    let drafted = batches[0].column(10).as_any().downcast_ref::<TimestampMicrosecondArray>().unwrap();
    assert!(drafted.is_null(0));
}

#[test]
fn normalize_hands_back_the_deserializer_message() {
    let received_at = instant("2026-06-29T01:02:03Z");
    let message = "invalid type: integer `3`, expected a string at line 1 column 14";
    match normalize_payload(br#"{"service": 3}"#, Err(message.to_owned()), received_at) {
        Err(IngestError::ParsePayload(m)) => assert_eq!(m, message),
        _ => panic!("a payload that did not deserialize must be refused with its message"),
    }
    assert!(matches!(normalize_payload(&[0xff], Err(message.to_owned()), received_at), Err(IngestError::InvalidBody)));
}

#[test]
fn status_column_splits_back_into_the_status_set() {
    let statuses = vec!["DRAFT".to_owned(), "PUBLISH".to_owned(), "CLOSED".to_owned()];
    let column = status_csv(&statuses).unwrap();
    assert_eq!(column, "DRAFT,PUBLISH,CLOSED");
    let pieces: Vec<String> = column.split(',').map(str::to_owned).collect();
    assert_eq!(pieces, statuses);
    assert_eq!(status_csv(&["DRAFT".to_owned()]).as_deref(), Some("DRAFT"));
}

#[test]
fn single_string_status_is_kept_as_is() {
    let received_at = instant("2026-06-29T01:02:03Z");
    let body = br#"{"type": "edit", "contents": {"old": {"status": "PUBLISH"}, "new": {"status": 5}}}"#;
    let event = normalize(body, received_at).unwrap();
    assert_eq!(event.old_status.as_deref(), Some("PUBLISH"));
    assert_eq!(event.new_status, None);
}

#[test]
fn event_instants_in_range_follows_chrono_limits() {
    let received_at = instant("2026-06-29T01:02:03Z");
    let mut event = normalize(sample_body(), received_at).unwrap();
    assert!(event_instants_in_range(&event));
    event.received_at = UtcTimestamp { seconds: i64::MAX, nanos: 0 };
    assert!(!event_instants_in_range(&event));
    event.received_at = UtcTimestamp { seconds: 59, nanos: 1_500_000_000 };
    assert!(event_instants_in_range(&event));
    event.received_at = UtcTimestamp { seconds: 58, nanos: 1_500_000_000 };
    assert!(!event_instants_in_range(&event));
    event.received_at = UtcTimestamp { seconds: -1, nanos: 1_500_000_000 };
    assert!(event_instants_in_range(&event));
    event.received_at = received_at;
    event.new_updated_at = Some(UtcTimestamp { seconds: 0, nanos: 2_000_000_000 });
    assert!(!event_instants_in_range(&event));
}

#[test]
fn clock_errors_are_server_errors() {
    assert_eq!(IngestError::Clock.status_code(), 500);
    assert_eq!(IngestError::Clock.message(), "system clock is out of range");
}

/// The civil-calendar date text the library states for an instant at an
/// offset, computed the same way here.
fn stated_date_text(seconds: i64, offset: i64) -> String {
    let day = (seconds + offset).div_euclid(86_400) + 719_163;
    let z = day - 719_163 + 719_468;
    let era = z.div_euclid(146_097);
    let doe = z - era * 146_097;
    let yoe = (doe - doe / 1460 + doe / 36_524 - doe / 146_096) / 365;
    let doy = doe - (365 * yoe + yoe / 4 - yoe / 100);
    let mp = (5 * doy + 2) / 153;
    let d = doy - (153 * mp + 2) / 5 + 1;
    let m = if mp < 10 { mp + 3 } else { mp - 9 };
    let y = yoe + era * 400 + if m <= 2 { 1 } else { 0 };
    let year = if (0..=9999).contains(&y) {
        format!("{y:04}")
    } else if y > 9999 {
        format!("+{y:04}")
    } else {
        format!("-{:04}", -y)
    };
    format!("{year}-{m:02}-{d:02}")
}

#[test]
fn jst_partition_date_is_the_stated_civil_date() {
    let samples = [
        0_i64, 1_782_694_923, 1_782_694_923 + 15 * 3600, -1, -86_401, 951_782_400, 4_107_542_400,
        253_402_300_799, 253_402_300_800, -62_135_596_800, -62_135_596_801, -8_334_601_228_800, 8_210_266_876_799,
    ];
    for seconds in samples {
        let t = UtcTimestamp { seconds, nanos: 0 };
        assert_eq!(jst_partition_date(t), stated_date_text(seconds, 32_400), "seconds={seconds}");
    }
}

#[test]
fn event_texts_fit_string_offsets() {
    let received_at = instant("2026-06-29T01:02:03Z");
    let event = normalize(sample_body(), received_at).unwrap();
    assert!(event_texts_in_range(std::slice::from_ref(&event)));
    assert!(event_texts_in_range(&[]));
}

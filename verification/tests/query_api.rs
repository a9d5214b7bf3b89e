use content_ops_analytics::api::access::{McpAccessDecision, allowed_origin, cors_headers, mcp_access_decision};
use content_ops_analytics::api::config::{AppConfig, AppSettings, app_config_from_settings, parse_bool, parse_csv, parse_port};
use content_ops_analytics::api::error::ApiError;
use content_ops_analytics::api::mcp::{publish_duration_unit, to_mcp_error};
use content_ops_analytics::api::setup::{SetupStep, connection_setup_steps};
use content_ops_analytics::api::sql::{
    calendar_heatmap_sql, format_partition_time, normalize_duckdb_s3_endpoint, read_parquet_sql,
    sql_string_literal, time_range_bounds_cte, top_updated_contents_sql, average_time_to_publish_sql,
};
use content_ops_analytics::api::validation::{
    DEFAULT_CALENDAR_RANGE_MS, PublishDurationUnit, validate_days, validate_days_with_default, validate_limit,
    validate_publish_duration_unit, validate_time_range, validate_time_range_at,
};

const MCP_TOKEN: &str = "test-mcp-token";
const MCP_ORIGIN: &str = "http://localhost:8000";

fn test_config(events_path: String, extension_directory: String) -> AppConfig {
    AppConfig {
        events_path,
        aws_region: "ap-northeast-1".to_owned(),
        duckdb_extension_directory: extension_directory,
        duckdb_s3_endpoint: None,
        duckdb_s3_url_style: "vhost".to_owned(),
        duckdb_s3_use_ssl: true,
        port: 8000,
        mcp_enabled: false,
        mcp_bearer_token: None,
        mcp_allowed_origins: Vec::new(),
    }
}

fn no_settings() -> AppSettings {
    AppSettings {
        events_path: None,
        aws_region: None,
        duckdb_extension_directory: None,
        duckdb_s3_endpoint: None,
        duckdb_s3_url_style: None,
        duckdb_s3_use_ssl: None,
        port: None,
        mcp_enabled: None,
        mcp_bearer_token: None,
        mcp_allowed_origins: None,
    }
}

#[test]
fn validates_time_range() {
    let from_ms = 1_000_i64;
    let to_ms = 2_000_i64;
    assert_eq!(validate_time_range(Some(from_ms), Some(to_ms)).unwrap(), (from_ms, to_ms));
    assert!(validate_time_range(Some(to_ms), Some(from_ms)).is_err());
    assert!(validate_time_range(Some(from_ms), None).is_err());
    assert!(validate_time_range(None, Some(to_ms)).is_err());

    let (default_from, default_to) = validate_time_range(None, None).unwrap();
    assert!(default_to > default_from);
    assert_eq!(default_to - default_from, DEFAULT_CALENDAR_RANGE_MS);
}

#[test]
fn time_ranges_are_capped_at_3660_days() {
    let max = 3660 * 24 * 60 * 60 * 1000_i64;
    assert_eq!(validate_time_range_at(Some(0), Some(max), 5).unwrap(), (0, max));
    assert!(matches!(
        validate_time_range_at(Some(0), Some(max + 1), 5),
        Err(ApiError::InvalidQuery("time range must not exceed 3660 days"))
    ));
    assert!(matches!(
        validate_time_range_at(Some(2), Some(1), 5),
        Err(ApiError::InvalidQuery("from must be less than or equal to to"))
    ));
    assert!(matches!(
        validate_time_range_at(None, Some(1), 5),
        Err(ApiError::InvalidQuery("from and to must both be provided"))
    ));
    assert_eq!(validate_time_range_at(None, None, 40_000_000_000).unwrap(), (8_464_000_000, 40_000_000_000));
}

#[test]
fn validates_days() {
    assert_eq!(validate_days(None).unwrap(), 30);
    assert_eq!(validate_days_with_default(None, 365).unwrap(), 365);
    assert_eq!(validate_days(Some(1)).unwrap(), 1);
    assert_eq!(validate_days(Some(3660)).unwrap(), 3660);
    assert!(validate_days(Some(0)).is_err());
    assert!(validate_days(Some(3661)).is_err());
}

#[test]
fn validates_publish_duration_unit() {
    assert_eq!(validate_publish_duration_unit(None).unwrap(), PublishDurationUnit::Days);
    assert_eq!(validate_publish_duration_unit(Some("days")).unwrap(), PublishDurationUnit::Days);
    assert_eq!(validate_publish_duration_unit(Some("hours")).unwrap(), PublishDurationUnit::Hours);
    assert!(validate_publish_duration_unit(Some("weeks")).is_err());
}

#[test]
fn validates_limit() {
    assert_eq!(validate_limit(None).unwrap(), 20);
    assert_eq!(validate_limit(Some(1)).unwrap(), 1);
    assert_eq!(validate_limit(Some(1000)).unwrap(), 1000);
    assert!(validate_limit(Some(0)).is_err());
    assert!(validate_limit(Some(1001)).is_err());
}

#[test]
fn api_errors_report_messages_and_statuses() {
    let e = ApiError::InvalidQuery("limit must be between 1 and 1000");
    assert_eq!(e.status_code(), 400);
    assert!(e.is_invalid_params());
    assert_eq!(e.message(), "invalid query parameter: limit must be between 1 and 1000");
    let e = ApiError::DuckDb("boom".to_owned());
    assert_eq!(e.status_code(), 500);
    assert!(!e.is_invalid_params());
    assert_eq!(e.message(), "duckdb query failed: boom");
    assert_eq!(ApiError::MissingEnv("EVENTS_PATH").message(), "missing required environment variable: EVENTS_PATH");
}

#[test]
fn escapes_events_path_for_read_parquet_sql() {
    assert_eq!(
        read_parquet_sql("s3://bucket/path/**/*.parquet"),
        "read_parquet('s3://bucket/path/**/*.parquet', hive_partitioning = true, union_by_name = true)"
    );
    assert_eq!(
        read_parquet_sql("s3://bucket/it's/**/*.parquet"),
        "read_parquet('s3://bucket/it''s/**/*.parquet', hive_partitioning = true, union_by_name = true)"
    );
}

#[test]
fn normalizes_duckdb_s3_endpoint() {
    assert_eq!(normalize_duckdb_s3_endpoint("http://floci:4566/"), "floci:4566");
    assert_eq!(normalize_duckdb_s3_endpoint("https://localhost:4566"), "localhost:4566");
}

#[test]
fn endpoint_normalization_strips_repeated_schemes_and_slashes() {
    assert_eq!(normalize_duckdb_s3_endpoint("  http://http://host//  "), "host");
    assert_eq!(normalize_duckdb_s3_endpoint("host"), "host");
    assert_eq!(sql_string_literal("a'b''c"), "a''b''''c");
}

#[test]
fn query_texts_bind_the_range_and_events() {
    let bounds = time_range_bounds_cte(-5, 1_782_744_000_000);
    assert!(bounds.contains("CAST(epoch_ms(-5) + INTERVAL '9 HOURS' AS DATE) AS start_date"));
    assert!(bounds.contains("CAST(epoch_ms(1782744000000) + INTERVAL '9 HOURS' AS DATE) AS end_date"));
    let sql = calendar_heatmap_sql("events_table", 0, 86_400_000);
    assert!(sql.contains("FROM events_table"));
    assert!(sql.contains(&time_range_bounds_cte(0, 86_400_000)));
    assert!(sql.contains("'T00:00:00+09:00'"));
    let sql = top_updated_contents_sql("t", 0, 1, 20);
    assert!(sql.contains("LIMIT 20"));
    let sql = average_time_to_publish_sql("t", 0, 1, PublishDurationUnit::Hours);
    assert!(sql.contains("/ 3600.0) AS avg_hours"));
    assert!(sql.contains("ORDER BY avg_hours DESC, api"));
    assert_eq!(format_partition_time("2026-06-30"), "2026-06-30T00:00:00+09:00");
}

#[test]
fn connection_setup_for_s3_events() {
    let steps = connection_setup_steps("ap-northeast-1", "s3://bucket/events/**/*.parquet", "/tmp/ext", Some("http://floci:4566/"), "path", false);
    assert_eq!(steps.len(), 7);
    assert!(matches!(&steps[0], SetupStep::Batch(s) if s == "SET extension_directory = '/tmp/ext';"));
    assert!(matches!(&steps[2], SetupStep::SetText(q, v) if *q == "SET s3_region = ?1" && v == "ap-northeast-1"));
    assert!(matches!(&steps[4], SetupStep::SetBool(_, false)));
    assert!(matches!(&steps[5], SetupStep::SetText(_, v) if v == "floci:4566"));
    assert!(matches!(&steps[6], SetupStep::Batch(s) if s.contains("USE_SSL false,\n              ENDPOINT 'floci:4566'")));
    let local = connection_setup_steps("r", "/data/**/*.parquet", "/tmp/ext", None, "vhost", true);
    assert_eq!(local.len(), 1);
}

#[test]
fn mcp_enabled_requires_token_and_allowed_origins() {
    let mut config = test_config("/tmp/missing/**/*.parquet".to_owned(), "/tmp/duckdb_extensions".to_owned());
    config.mcp_enabled = true;
    config.mcp_allowed_origins = vec![MCP_ORIGIN.to_owned()];
    assert!(matches!(config.mcp_config(), Err(ApiError::MissingEnv("MCP_BEARER_TOKEN"))));

    let mut config = test_config("/tmp/missing/**/*.parquet".to_owned(), "/tmp/duckdb_extensions".to_owned());
    config.mcp_enabled = true;
    config.mcp_bearer_token = Some(MCP_TOKEN.to_owned());
    assert!(matches!(config.mcp_config(), Err(ApiError::MissingEnv("MCP_ALLOWED_ORIGINS"))));
}

#[test]
fn mcp_config_is_absent_unless_enabled() {
    let config = test_config("p".to_owned(), "d".to_owned());
    assert!(matches!(config.mcp_config(), Ok(None)));
    let mut config = test_config("p".to_owned(), "d".to_owned());
    config.mcp_enabled = true;
    config.mcp_bearer_token = Some(MCP_TOKEN.to_owned());
    config.mcp_allowed_origins = vec![MCP_ORIGIN.to_owned()];
    let mcp = config.mcp_config().unwrap().unwrap();
    assert_eq!(mcp.bearer_token, MCP_TOKEN);
    assert_eq!(mcp.allowed_origins, vec![MCP_ORIGIN.to_owned()]);
}

#[test]
fn settings_are_read_with_defaults() {
    let mut settings = no_settings();
    assert!(matches!(app_config_from_settings(settings), Err(ApiError::MissingEnv("EVENTS_PATH"))));
    settings = no_settings();
    settings.events_path = Some("s3://bucket/**/*.parquet".to_owned());
    settings.duckdb_s3_endpoint = Some("  http://floci:4566  ".to_owned());
    settings.port = Some("9000".to_owned());
    settings.duckdb_s3_use_ssl = Some("yes".to_owned());
    settings.mcp_allowed_origins = Some(" a , ,b ".to_owned());
    let config = app_config_from_settings(settings).unwrap();
    assert_eq!(config.aws_region, "ap-northeast-1");
    assert_eq!(config.duckdb_extension_directory, "/tmp/duckdb_extensions");
    assert_eq!(config.duckdb_s3_endpoint.as_deref(), Some("http://floci:4566"));
    assert_eq!(config.duckdb_s3_url_style, "vhost");
    assert!(config.duckdb_s3_use_ssl);
    assert_eq!(config.port, 9000);
    assert!(!config.mcp_enabled);
    assert_eq!(config.mcp_allowed_origins, vec!["a".to_owned(), "b".to_owned()]);

    let mut settings = no_settings();
    settings.events_path = Some("p".to_owned());
    settings.mcp_enabled = Some("true".to_owned());
    settings.mcp_bearer_token = Some("token".to_owned());
    assert!(matches!(app_config_from_settings(settings), Err(ApiError::MissingEnv("MCP_ALLOWED_ORIGINS"))));
}

#[test]
fn settings_values_are_parsed_strictly() {
    assert_eq!(parse_csv(" a, b ,,c,"), vec!["a".to_owned(), "b".to_owned(), "c".to_owned()]);
    assert!(parse_csv(" , ").is_empty());
    assert_eq!(parse_bool("true"), Some(true));
    assert_eq!(parse_bool("True"), None);
    assert_eq!(parse_port("65535"), Some(65535));
    assert_eq!(parse_port("65536"), None);
    assert_eq!(parse_port("-1"), None);
}

#[test]
fn mcp_access_requires_allowed_origin_then_bearer_token() {
    let allowed = vec![MCP_ORIGIN.to_owned()];
    assert!(matches!(mcp_access_decision(false, None, Some("Bearer test-mcp-token"), MCP_TOKEN, &allowed), McpAccessDecision::Forbidden));
    assert!(matches!(
        mcp_access_decision(false, Some("https://example.com"), Some("Bearer test-mcp-token"), MCP_TOKEN, &allowed),
        McpAccessDecision::Forbidden
    ));
    assert!(matches!(mcp_access_decision(true, Some(MCP_ORIGIN), None, MCP_TOKEN, &allowed), McpAccessDecision::Preflight(o) if o == MCP_ORIGIN));
    assert!(matches!(mcp_access_decision(false, Some(MCP_ORIGIN), None, MCP_TOKEN, &allowed), McpAccessDecision::Unauthorized(o) if o == MCP_ORIGIN));
    assert!(matches!(
        mcp_access_decision(false, Some(MCP_ORIGIN), Some("Bearer wrong"), MCP_TOKEN, &allowed),
        McpAccessDecision::Unauthorized(_)
    ));
    assert!(matches!(
        mcp_access_decision(false, Some(MCP_ORIGIN), Some("Bearer test-mcp-token"), MCP_TOKEN, &allowed),
        McpAccessDecision::Forward(o) if o == MCP_ORIGIN
    ));
    assert_eq!(allowed_origin(Some(MCP_ORIGIN), &allowed).as_deref(), Some(MCP_ORIGIN));
    let headers = cors_headers(MCP_ORIGIN);
    assert_eq!(headers[0], ("access-control-allow-origin", MCP_ORIGIN.to_owned()));
    assert_eq!(headers[5], ("access-control-max-age", "600".to_owned()));
}

#[test]
fn mcp_tools_report_invalid_queries_as_invalid_params() {
    assert_eq!(publish_duration_unit(None).unwrap(), PublishDurationUnit::Days);
    assert_eq!(publish_duration_unit(Some("hours")).unwrap(), PublishDurationUnit::Hours);
    let error = publish_duration_unit(Some("weeks")).unwrap_err();
    assert_eq!(error.code, rmcp::model::ErrorCode::INVALID_PARAMS);
    assert_eq!(error.message, "invalid query parameter: unit must be days or hours");
    let internal = to_mcp_error(ApiError::DuckDb("boom".to_owned()));
    assert_eq!(internal.code, rmcp::model::ErrorCode::INTERNAL_ERROR);
    assert_eq!(internal.message, "duckdb query failed: boom");
}

#[test]
fn escaped_sql_text_undoubles_back_to_the_value() {
    for value in ["it's", "''", "plain", "'a'b'", ""] {
        let escaped = sql_string_literal(value);
        assert_eq!(escaped.replace("''", "'"), value);
    }
}

#[test]
fn csv_items_are_the_trimmed_non_blank_split_pieces() {
    let value = " https://a.example , ,https://b.example ";
    let expected: Vec<String> =
        value.split(',').map(str::trim).filter(|s| !s.is_empty()).map(str::to_owned).collect();
    assert_eq!(parse_csv(value), expected);
    assert_eq!(parse_csv(value), vec!["https://a.example".to_owned(), "https://b.example".to_owned()]);
}

#[test]
fn api_clock_error_is_an_internal_error() {
    assert_eq!(ApiError::Clock.status_code(), 500);
    assert_eq!(ApiError::Clock.message(), "system clock is out of range");
    assert!(!ApiError::Clock.is_invalid_params());
}

//! The statements that prepare a DuckDB connection for reading the events.

use vstd::prelude::*;
use crate::text::{copy_str, push_str};
use crate::signature::{has_prefix, starts_with_chars};
use crate::text::chars_of;
use crate::api::sql::{sql_string_literal, sql_escaped, normalize_duckdb_s3_endpoint, duckdb_endpoint_spec};

verus! {

/// One statement of connection setup: a batch of SQL, or a setting bound
/// to a text or boolean parameter.
pub enum SetupStep {
    Batch(String),
    SetText(&'static str, String),
    SetBool(&'static str, bool),
}

/// A setup statement with texts as character sequences.
pub enum SetupView {
    Batch(Seq<char>),
    SetText(Seq<char>, Seq<char>),
    SetBool(Seq<char>, bool),
}

pub open spec fn step_view(s: SetupStep) -> SetupView {
    match s {
        SetupStep::Batch(b) => SetupView::Batch(b@),
        SetupStep::SetText(q, v) => SetupView::SetText(q@, v@),
        SetupStep::SetBool(q, v) => SetupView::SetBool(q@, v),
    }
}

/// The text of a boolean in SQL.
pub open spec fn bool_text(b: bool) -> Seq<char> {
    if b { "true"@ } else { "false"@ }
}

/// The `ENDPOINT` line of the S3 secret, when an endpoint is configured.
pub open spec fn endpoint_clause(endpoint: Option<Seq<char>>) -> Seq<char> {
    match endpoint {
        Some(e) => ",\n              ENDPOINT '"@ + sql_escaped(duckdb_endpoint_spec(e)) + "'"@,
        None => Seq::empty(),
    }
}

/// The statement creating the S3 secret of the credential chain.
pub open spec fn secret_sql(region: Seq<char>, url_style: Seq<char>, use_ssl: bool, endpoint: Option<Seq<char>>) -> Seq<char> {
    "\n            CREATE OR REPLACE SECRET microcms_events_s3 (\n              TYPE S3,\n              PROVIDER CREDENTIAL_CHAIN,\n              REGION '"@
        + sql_escaped(region) + "',\n              URL_STYLE '"@ + sql_escaped(url_style)
        + "',\n              USE_SSL "@ + bool_text(use_ssl) + endpoint_clause(endpoint)
        + "\n            );\n            "@
}

/// The setup of a connection: the extension directory always; for events
/// on S3, the `httpfs` extension, the region, URL style, TLS and endpoint
/// settings and the S3 secret.
pub open spec fn setup_spec(
    aws_region: Seq<char>,
    events_path: Seq<char>,
    extension_directory: Seq<char>,
    s3_endpoint: Option<Seq<char>>,
    s3_url_style: Seq<char>,
    s3_use_ssl: bool,
) -> Seq<SetupView> {
    let first = seq![SetupView::Batch("SET extension_directory = '"@ + sql_escaped(extension_directory) + "';"@)];
    if has_prefix(events_path, "s3://"@) {
        let settings = seq![
            SetupView::Batch("\n            INSTALL httpfs;\n            LOAD httpfs;\n            "@),
            SetupView::SetText("SET s3_region = ?1"@, aws_region),
            SetupView::SetText("SET s3_url_style = ?1"@, s3_url_style),
            SetupView::SetBool("SET s3_use_ssl = ?1"@, s3_use_ssl),
        ];
        let endpoint = match s3_endpoint {
            Some(e) => seq![SetupView::SetText("SET s3_endpoint = ?1"@, duckdb_endpoint_spec(e))],
            None => Seq::empty(),
        };
        first + settings + endpoint + seq![SetupView::Batch(secret_sql(aws_region, s3_url_style, s3_use_ssl, s3_endpoint))]
    } else {
        first
    }
}

fn secret_statement(aws_region: &str, s3_url_style: &str, s3_use_ssl: bool, s3_endpoint: Option<&str>) -> (r: String)
    ensures
        r@ == secret_sql(aws_region@, s3_url_style@, s3_use_ssl,
            match s3_endpoint { Some(e) => Some(e@), None => None }),
{
    let mut r = copy_str("\n            CREATE OR REPLACE SECRET microcms_events_s3 (\n              TYPE S3,\n              PROVIDER CREDENTIAL_CHAIN,\n              REGION '");
    let region = sql_string_literal(aws_region);
    push_str(&mut r, region.as_str());
    push_str(&mut r, "',\n              URL_STYLE '");
    let style = sql_string_literal(s3_url_style);
    push_str(&mut r, style.as_str());
    push_str(&mut r, "',\n              USE_SSL ");
    push_str(&mut r, if s3_use_ssl { "true" } else { "false" });
    match s3_endpoint {
        Some(e) => {
            push_str(&mut r, ",\n              ENDPOINT '");
            let normalized = normalize_duckdb_s3_endpoint(e);
            let escaped = sql_string_literal(normalized.as_str());
            push_str(&mut r, escaped.as_str());
            push_str(&mut r, "'");
        },
        None => {},
    }
    push_str(&mut r, "\n            );\n            ");
    r
}

/// Returns the statements that prepare a connection, in order.
pub fn connection_setup_steps(
    aws_region: &str,
    events_path: &str,
    extension_directory: &str,
    s3_endpoint: Option<&str>,
    s3_url_style: &str,
    s3_use_ssl: bool,
) -> (r: Vec<SetupStep>)
    ensures
        r@.map_values(|s: SetupStep| step_view(s)) == setup_spec(aws_region@, events_path@,
            extension_directory@, match s3_endpoint { Some(e) => Some(e@), None => None }, s3_url_style@,
            s3_use_ssl),
{
    let mut steps: Vec<SetupStep> = Vec::new();
    let mut first = copy_str("SET extension_directory = '");
    let dir = sql_string_literal(extension_directory);
    push_str(&mut first, dir.as_str());
    push_str(&mut first, "';");
    steps.push(SetupStep::Batch(first));
    let path = chars_of(events_path);
    if starts_with_chars(path.as_slice(), "s3://") {
        steps.push(SetupStep::Batch(copy_str("\n            INSTALL httpfs;\n            LOAD httpfs;\n            ")));
        steps.push(SetupStep::SetText("SET s3_region = ?1", copy_str(aws_region)));
        steps.push(SetupStep::SetText("SET s3_url_style = ?1", copy_str(s3_url_style)));
        steps.push(SetupStep::SetBool("SET s3_use_ssl = ?1", s3_use_ssl));
        match s3_endpoint {
            Some(e) => {
                steps.push(SetupStep::SetText("SET s3_endpoint = ?1", normalize_duckdb_s3_endpoint(e)));
            },
            None => {},
        }
        steps.push(SetupStep::Batch(secret_statement(aws_region, s3_url_style, s3_use_ssl, s3_endpoint)));
    }
    assert(steps@.map_values(|s: SetupStep| step_view(s)) =~= setup_spec(aws_region@, events_path@,
        extension_directory@, match s3_endpoint { Some(e) => Some(e@), None => None }, s3_url_style@,
        s3_use_ssl));
    steps
}

} // verus!

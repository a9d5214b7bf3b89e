//! Settings of the metrics query API, read from environment values.

use vstd::prelude::*;
use crate::api::error::ApiError;
use crate::event_kind::texts;
use crate::status::{split_commas, lemma_split_nonempty};
use crate::signature::{trim_whitespace, trim_spec};
use crate::text::{chars_of, copy_str, string_from_chars, str_equal, parse_u64, decimal_value};

verus! {

/// Settings of the metrics query API.
#[derive(Debug, Clone)]
pub struct AppConfig {
    pub events_path: String,
    pub aws_region: String,
    pub duckdb_extension_directory: String,
    pub duckdb_s3_endpoint: Option<String>,
    pub duckdb_s3_url_style: String,
    pub duckdb_s3_use_ssl: bool,
    pub port: u16,
    pub mcp_enabled: bool,
    pub mcp_bearer_token: Option<String>,
    pub mcp_allowed_origins: Vec<String>,
}

/// Settings of the MCP endpoint, present when it is enabled.
#[derive(Debug, Clone)]
pub struct McpConfig {
    pub bearer_token: String,
    pub allowed_origins: Vec<String>,
}

/// The raw environment values the settings are read from (`None` when a
/// variable is unset).
pub struct AppSettings {
    pub events_path: Option<String>,
    pub aws_region: Option<String>,
    pub duckdb_extension_directory: Option<String>,
    pub duckdb_s3_endpoint: Option<String>,
    pub duckdb_s3_url_style: Option<String>,
    pub duckdb_s3_use_ssl: Option<String>,
    pub port: Option<String>,
    pub mcp_enabled: Option<String>,
    pub mcp_bearer_token: Option<String>,
    pub mcp_allowed_origins: Option<String>,
}

/// A value with something besides whitespace.
pub open spec fn present(v: Option<String>) -> bool {
    v matches Some(s) && trim_spec(s@).len() > 0
}

/// Returns a required value, or `MissingEnv(key)` when it is unset or
/// blank.
pub fn required_value(key: &'static str, value: Option<String>) -> (r: Result<String, ApiError>)
    ensures
        present(value) ==> (r matches Ok(v) && value == Some(v)),
        !present(value) ==> (r matches Err(ApiError::MissingEnv(k)) && k@ == key@),
{
    match value {
        None => Err(ApiError::MissingEnv(key)),
        Some(v) => {
            let cs = chars_of(v.as_str());
            let t = trim_whitespace(cs.as_slice());
            if t.len() == 0 {
                Err(ApiError::MissingEnv(key))
            } else {
                Ok(v)
            }
        },
    }
}

/// An optional value, trimmed, absent when blank.
pub open spec fn optional_spec(v: Option<String>) -> Option<Seq<char>> {
    match v {
        Some(s) => if trim_spec(s@).len() > 0 { Some(trim_spec(s@)) } else { None },
        None => None,
    }
}

/// Returns an optional value trimmed, or nothing when it is unset or blank.
pub fn optional_value(value: Option<String>) -> (r: Option<String>)
    ensures
        match r { Some(s) => Some(s@), None => None } == optional_spec(value),
{
    match value {
        None => None,
        Some(v) => {
            let cs = chars_of(v.as_str());
            let t = trim_whitespace(cs.as_slice());
            if t.len() == 0 {
                None
            } else {
                Some(string_from_chars(t.as_slice()))
            }
        },
    }
}

/// Adds the piece read so far, trimmed, to the items when it is not blank.
pub open spec fn csv_flush(done: Seq<Seq<char>>, current: Seq<char>) -> Seq<Seq<char>> {
    if trim_spec(current).len() > 0 { done.push(trim_spec(current)) } else { done }
}

/// The items completed and the piece under way after reading `s`.
pub open spec fn csv_fold(s: Seq<char>) -> (Seq<Seq<char>>, Seq<char>)
    decreases s.len(),
{
    if s.len() == 0 {
        (Seq::empty(), Seq::empty())
    } else {
        let (done, current) = csv_fold(s.drop_last());
        if s.last() == ',' {
            (csv_flush(done, current), Seq::empty())
        } else {
            (done, current.push(s.last()))
        }
    }
}

/// The items of a comma-separated list: the pieces between commas,
/// trimmed, blank ones left out.
pub open spec fn csv_items(s: Seq<char>) -> Seq<Seq<char>> {
    csv_flush(csv_fold(s).0, csv_fold(s).1)
}

/// The pieces kept of a list of comma-separated pieces: each trimmed, the
/// blank ones left out.
pub open spec fn kept_pieces(pieces: Seq<Seq<char>>) -> Seq<Seq<char>> {
    pieces.map_values(|p: Seq<char>| trim_spec(p)).filter(|t: Seq<char>| t.len() > 0)
}

proof fn lemma_kept_push(pieces: Seq<Seq<char>>, p: Seq<char>)
    ensures
        kept_pieces(pieces.push(p)) == csv_flush(kept_pieces(pieces), p),
{
    let mapped = pieces.push(p).map_values(|q: Seq<char>| trim_spec(q));
    assert(mapped.drop_last() =~= pieces.map_values(|q: Seq<char>| trim_spec(q)));
    assert(mapped.last() == trim_spec(p));
    reveal(Seq::filter);
}

/// Reading a text piece by piece keeps, of the pieces between its commas,
/// all but the last, and holds the last one under way.
proof fn lemma_csv_fold_pieces(s: Seq<char>)
    ensures
        csv_fold(s).1 == split_commas(s).last(),
        csv_fold(s).0 == kept_pieces(split_commas(s).drop_last()),
    decreases s.len(),
{
    if s.len() == 0 {
        assert(split_commas(s).drop_last() =~= Seq::<Seq<char>>::empty());
        assert(kept_pieces(Seq::<Seq<char>>::empty()) =~= Seq::<Seq<char>>::empty()) by {
            reveal(Seq::filter);
        }
    } else {
        lemma_csv_fold_pieces(s.drop_last());
        let pieces = split_commas(s.drop_last());
        lemma_split_nonempty(s.drop_last());
        if s.last() == ',' {
            assert(split_commas(s).drop_last() =~= pieces);
            assert(pieces =~= pieces.drop_last().push(pieces.last()));
            lemma_kept_push(pieces.drop_last(), pieces.last());
        } else {
            assert(split_commas(s).drop_last() =~= pieces.drop_last());
        }
    }
}

/// The items of a comma-separated list are the pieces between its commas
/// (`str::split(',')`), trimmed, blank ones left out, in order.
pub proof fn lemma_csv_items_are_split_pieces(s: Seq<char>)
    ensures
        csv_items(s) == kept_pieces(split_commas(s)),
{
    lemma_csv_fold_pieces(s);
    lemma_split_nonempty(s);
    let pieces = split_commas(s);
    assert(pieces =~= pieces.drop_last().push(pieces.last()));
    lemma_kept_push(pieces.drop_last(), pieces.last());
}

fn flush_piece(done: &mut Vec<String>, current: &Vec<char>)
    ensures
        texts(final(done)@) == csv_flush(texts(old(done)@), current@),
{
    let t = trim_whitespace(current.as_slice());
    if t.len() > 0 {
        let piece = string_from_chars(t.as_slice());
        done.push(piece);
        assert(texts(done@) =~= texts(old(done)@).push(trim_spec(current@)));
    }
}

/// Splits a comma-separated list into its trimmed, non-blank items.
pub fn parse_csv(value: &str) -> (r: Vec<String>)
    ensures
        texts(r@) == csv_items(value@),
        texts(r@) == kept_pieces(split_commas(value@)),
{
    proof { lemma_csv_items_are_split_pieces(value@); }
    let cs = chars_of(value);
    let mut done: Vec<String> = Vec::new();
    let mut current: Vec<char> = Vec::new();
    let mut i: usize = 0;
    assert(cs@.subrange(0, 0) =~= Seq::<char>::empty());
    assert(texts(done@) =~= Seq::<Seq<char>>::empty());
    while i < cs.len()
        invariant
            cs@ == value@,
            i <= cs.len(),
            (texts(done@), current@) == csv_fold(cs@.subrange(0, i as int)),
        decreases cs.len() - i,
    {
        let c = cs[i];
        assert(cs@.subrange(0, i + 1).drop_last() =~= cs@.subrange(0, i as int));
        if c == ',' {
            flush_piece(&mut done, &current);
            current = Vec::new();
            assert(current@ =~= Seq::<char>::empty());
        } else {
            current.push(c);
        }
        i = i + 1;
    }
    assert(cs@.subrange(0, cs.len() as int) =~= cs@);
    flush_piece(&mut done, &current);
    done
}

/// The value of a boolean text (`bool::from_str`): exactly `true` or
/// `false`.
pub open spec fn bool_value(s: Seq<char>) -> Option<bool> {
    if s == "true"@ {
        Some(true)
    } else if s == "false"@ {
        Some(false)
    } else {
        None
    }
}

/// Parses `true` or `false`.
pub fn parse_bool(s: &str) -> (r: Option<bool>)
    ensures
        r == bool_value(s@),
{
    if str_equal(s, "true") {
        Some(true)
    } else if str_equal(s, "false") {
        Some(false)
    } else {
        None
    }
}

/// The value of a port text (`u16::from_str`).
pub open spec fn port_value(s: Seq<char>) -> Option<u16> {
    match decimal_value(s) {
        Some(n) => if n <= u16::MAX { Some(n as u16) } else { None },
        None => None,
    }
}

/// Parses a port number.
pub fn parse_port(s: &str) -> (r: Option<u16>)
    ensures
        r == port_value(s@),
{
    match parse_u64(s) {
        Some(n) => if n <= 65535 { Some(n as u16) } else { None },
        None => None,
    }
}

/// A setting read with a default when unset.
pub open spec fn or_default(v: Option<String>, default: Seq<char>) -> Seq<char> {
    match v {
        Some(s) => s@,
        None => default,
    }
}

/// A flag setting: its boolean value, or `default` when unset or not a
/// boolean.
pub open spec fn flag_or(v: Option<String>, default: bool) -> bool {
    match v {
        Some(s) => match bool_value(s@) { Some(b) => b, None => default },
        None => default,
    }
}

fn text_or(v: Option<String>, default: &str) -> (r: String)
    ensures
        r@ == or_default(v, default@),
{
    match v {
        Some(s) => s,
        None => copy_str(default),
    }
}

fn flag_value(v: &Option<String>, default: bool) -> (r: bool)
    ensures
        r == flag_or(*v, default),
{
    match v {
        Some(s) => match parse_bool(s.as_str()) {
            Some(b) => b,
            None => default,
        },
        None => default,
    }
}

/// The configuration is the one the settings describe: the events path
/// as given; region, extension directory and URL style as given or their
/// defaults (`ap-northeast-1`, `/tmp/duckdb_extensions`, `vhost`); the
/// endpoint trimmed when not blank; TLS on unless the flag says `false`;
/// port 8000 unless a valid port is given; MCP off unless the flag says
/// `true`; the bearer token as given when MCP is on and trimmed when not
/// blank otherwise; the allowed origins from the comma-separated list.
pub open spec fn config_matches(c: AppConfig, s: AppSettings) -> bool {
    &&& s.events_path == Some(c.events_path)
    &&& c.aws_region@ == or_default(s.aws_region, "ap-northeast-1"@)
    &&& c.duckdb_extension_directory@ == or_default(s.duckdb_extension_directory, "/tmp/duckdb_extensions"@)
    &&& (match c.duckdb_s3_endpoint { Some(e) => Some(e@), None => None }) == optional_spec(s.duckdb_s3_endpoint)
    &&& c.duckdb_s3_url_style@ == or_default(s.duckdb_s3_url_style, "vhost"@)
    &&& c.duckdb_s3_use_ssl == flag_or(s.duckdb_s3_use_ssl, true)
    &&& c.port == (match s.port { Some(p) => match port_value(p@) { Some(n) => n, None => 8000u16 }, None => 8000u16 })
    &&& c.mcp_enabled == flag_or(s.mcp_enabled, false)
    &&& (if c.mcp_enabled { c.mcp_bearer_token == s.mcp_bearer_token } else {
        (match c.mcp_bearer_token { Some(t) => Some(t@), None => None }) == optional_spec(s.mcp_bearer_token)
    })
    &&& texts(c.mcp_allowed_origins@) == (match optional_spec(s.mcp_allowed_origins) {
        Some(list) => csv_items(list),
        None => Seq::empty(),
    })
}

/// Reads the configuration from environment values. The events path is
/// required; with MCP enabled, a bearer token and at least one allowed
/// origin are required too (the token is checked first).
pub fn app_config_from_settings(s: AppSettings) -> (r: Result<AppConfig, ApiError>)
    ensures
        !present(s.events_path) ==> (r matches Err(ApiError::MissingEnv(k)) && k@ == "EVENTS_PATH"@),
        present(s.events_path) && flag_or(s.mcp_enabled, false) && !present(s.mcp_bearer_token)
            ==> (r matches Err(ApiError::MissingEnv(k)) && k@ == "MCP_BEARER_TOKEN"@),
        present(s.events_path) && flag_or(s.mcp_enabled, false) && present(s.mcp_bearer_token)
            && (match optional_spec(s.mcp_allowed_origins) {
                Some(list) => csv_items(list),
                None => Seq::empty(),
            }).len() == 0
            ==> (r matches Err(ApiError::MissingEnv(k)) && k@ == "MCP_ALLOWED_ORIGINS"@),
        match r {
            Ok(c) => config_matches(c, s) && (c.mcp_enabled ==> c.mcp_allowed_origins@.len() > 0),
            Err(ApiError::MissingEnv(k)) => !present(s.events_path)
                || (flag_or(s.mcp_enabled, false) && (!present(s.mcp_bearer_token)
                    || (match optional_spec(s.mcp_allowed_origins) {
                        Some(list) => csv_items(list),
                        None => Seq::empty(),
                    }).len() == 0)),
            Err(_) => false,
        },
{
    let ghost settings = s;
    let events_path = match required_value("EVENTS_PATH", s.events_path) {
        Ok(v) => v,
        Err(e) => { return Err(e); },
    };
    let aws_region = text_or(s.aws_region, "ap-northeast-1");
    let duckdb_extension_directory = text_or(s.duckdb_extension_directory, "/tmp/duckdb_extensions");
    let duckdb_s3_endpoint = optional_value(s.duckdb_s3_endpoint);
    let duckdb_s3_url_style = text_or(s.duckdb_s3_url_style, "vhost");
    let duckdb_s3_use_ssl = flag_value(&s.duckdb_s3_use_ssl, true);
    let port: u16 = match &s.port {
        Some(p) => match parse_port(p.as_str()) {
            Some(n) => n,
            None => 8000,
        },
        None => 8000,
    };
    let mcp_enabled = flag_value(&s.mcp_enabled, false);
    let mcp_bearer_token = if mcp_enabled {
        match required_value("MCP_BEARER_TOKEN", s.mcp_bearer_token) {
            Ok(t) => Some(t),
            Err(e) => { return Err(e); },
        }
    } else {
        optional_value(s.mcp_bearer_token)
    };
    let mcp_allowed_origins = match optional_value(s.mcp_allowed_origins) {
        Some(list) => parse_csv(list.as_str()),
        None => Vec::new(),
    };
    assert(texts(Seq::<String>::empty()) =~= Seq::<Seq<char>>::empty());
    if mcp_enabled && mcp_allowed_origins.len() == 0 {
        return Err(ApiError::MissingEnv("MCP_ALLOWED_ORIGINS"));
    }
    Ok(AppConfig {
        events_path,
        aws_region,
        duckdb_extension_directory,
        duckdb_s3_endpoint,
        duckdb_s3_url_style,
        duckdb_s3_use_ssl,
        port,
        mcp_enabled,
        mcp_bearer_token,
        mcp_allowed_origins,
    })
}

fn copy_strings(v: &Vec<String>) -> (r: Vec<String>)
    ensures
        texts(r@) == texts(v@),
{
    let mut r: Vec<String> = Vec::new();
    let mut i: usize = 0;
    while i < v.len()
        invariant
            i <= v.len(),
            r@.len() == i,
            forall|j: int| 0 <= j < i ==> (#[trigger] r@[j])@ == v@[j]@,
        decreases v.len() - i,
    {
        let item = v[i].clone();
        r.push(item);
        i = i + 1;
    }
    assert(texts(r@) =~= texts(v@));
    r
}

impl AppConfig {
    /// The MCP settings: none when MCP is disabled; otherwise the bearer
    /// token, which must not be blank, and the allowed origins, of which
    /// there must be at least one.
    pub fn mcp_config(&self) -> (r: Result<Option<McpConfig>, ApiError>)
        ensures
            !self.mcp_enabled ==> (r matches Ok(None)),
            self.mcp_enabled && !present(self.mcp_bearer_token)
                ==> (r matches Err(ApiError::MissingEnv(k)) && k@ == "MCP_BEARER_TOKEN"@),
            self.mcp_enabled && present(self.mcp_bearer_token) && self.mcp_allowed_origins@.len() == 0
                ==> (r matches Err(ApiError::MissingEnv(k)) && k@ == "MCP_ALLOWED_ORIGINS"@),
            self.mcp_enabled && present(self.mcp_bearer_token) && self.mcp_allowed_origins@.len() > 0
                ==> (r matches Ok(Some(m)) && Some(m.bearer_token) == self.mcp_bearer_token
                    && texts(m.allowed_origins@) == texts(self.mcp_allowed_origins@)),
    {
        if !self.mcp_enabled {
            return Ok(None);
        }
        let token = match &self.mcp_bearer_token {
            Some(t) => {
                let cs = chars_of(t.as_str());
                let trimmed = trim_whitespace(cs.as_slice());
                if trimmed.len() == 0 {
                    return Err(ApiError::MissingEnv("MCP_BEARER_TOKEN"));
                }
                t.clone()
            },
            None => { return Err(ApiError::MissingEnv("MCP_BEARER_TOKEN")); },
        };
        if self.mcp_allowed_origins.len() == 0 {
            return Err(ApiError::MissingEnv("MCP_ALLOWED_ORIGINS"));
        }
        Ok(Some(McpConfig { bearer_token: token, allowed_origins: copy_strings(&self.mcp_allowed_origins) }))
    }
}

} // verus!

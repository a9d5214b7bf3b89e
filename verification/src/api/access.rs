//! Access control of the MCP endpoint: an allowed browser origin and the
//! configured bearer token, with CORS headers on every answer.

use vstd::prelude::*;
use crate::text::{chars_of, copy_str, str_equal};
use crate::event_kind::texts;
use crate::signature::{has_prefix, starts_with_chars, skip_chars};

verus! {

/// Returns the request's origin when it is one of the allowed origins.
pub fn allowed_origin(origin: Option<&str>, allowed_origins: &[String]) -> (r: Option<String>)
    ensures
        match origin {
            Some(o) => if texts(allowed_origins@).contains(o@) {
                r matches Some(x) && x@ == o@
            } else {
                r is None
            },
            None => r is None,
        },
{
    let o = match origin {
        Some(o) => o,
        None => { return None; },
    };
    let mut i: usize = 0;
    while i < allowed_origins.len()
        invariant
            origin == Some(o),
            i <= allowed_origins.len(),
            forall|j: int| 0 <= j < i ==> allowed_origins@[j]@ != o@,
        decreases allowed_origins.len() - i,
    {
        if str_equal(allowed_origins[i].as_str(), o) {
            assert(texts(allowed_origins@).len() == allowed_origins@.len());
            assert(texts(allowed_origins@)[i as int] == o@);
            assert(texts(allowed_origins@).contains(o@));
            let found = copy_str(o);
            return Some(found);
        }
        i = i + 1;
    }
    assert(!texts(allowed_origins@).contains(o@)) by {
        if texts(allowed_origins@).contains(o@) {
            let j = choose|j: int| 0 <= j < texts(allowed_origins@).len() && texts(allowed_origins@)[j] == o@;
            assert(allowed_origins@[j]@ == o@);
        }
    }
    None
}

/// What becomes of a request to the MCP endpoint.
pub enum McpAccessDecision {
    /// The origin is missing or not allowed: 403 without CORS headers.
    Forbidden,
    /// A CORS preflight from an allowed origin: 204 with CORS headers.
    Preflight(String),
    /// No valid bearer token: 401 with CORS headers.
    Unauthorized(String),
    /// Passed on to the MCP service; its answer gets CORS headers.
    Forward(String),
}

fn chars_equal(a: &[char], b: &[char]) -> (r: bool)
    ensures
        r == (a@ == b@),
{
    if a.len() != b.len() {
        return false;
    }
    let mut i: usize = 0;
    while i < a.len()
        invariant
            a.len() == b.len(),
            i <= a.len(),
            forall|j: int| 0 <= j < i ==> a@[j] == b@[j],
        decreases a.len() - i,
    {
        if a[i] != b[i] {
            return false;
        }
        i = i + 1;
    }
    assert(a@ =~= b@);
    true
}

/// The authorization header carries the bearer token.
pub open spec fn bearer_matches(authorization: Option<Seq<char>>, token: Seq<char>) -> bool {
    match authorization {
        Some(a) => has_prefix(a, "Bearer "@) && a.skip(7) == token,
        None => false,
    }
}

/// Decides a request to the MCP endpoint from its method, `Origin` and
/// `Authorization` headers.
pub fn mcp_access_decision(
    is_preflight: bool,
    origin: Option<&str>,
    authorization: Option<&str>,
    bearer_token: &str,
    allowed_origins: &[String],
) -> (r: McpAccessDecision)
    ensures
        match origin {
            Some(o) => if !texts(allowed_origins@).contains(o@) {
                r is Forbidden
            } else if is_preflight {
                r matches McpAccessDecision::Preflight(x) && x@ == o@
            } else if !bearer_matches(match authorization { Some(a) => Some(a@), None => None }, bearer_token@) {
                r matches McpAccessDecision::Unauthorized(x) && x@ == o@
            } else {
                r matches McpAccessDecision::Forward(x) && x@ == o@
            },
            None => r is Forbidden,
        },
{
    let origin = match allowed_origin(origin, allowed_origins) {
        Some(o) => o,
        None => { return McpAccessDecision::Forbidden; },
    };
    if is_preflight {
        return McpAccessDecision::Preflight(origin);
    }
    proof {
        reveal_strlit("Bearer ");
    }
    let authorized = match authorization {
        Some(a) => {
            let cs = chars_of(a);
            if starts_with_chars(cs.as_slice(), "Bearer ") {
                let rest = skip_chars(cs.as_slice(), 7);
                let token = chars_of(bearer_token);
                chars_equal(rest.as_slice(), token.as_slice())
            } else {
                false
            }
        },
        None => false,
    };
    if !authorized {
        McpAccessDecision::Unauthorized(origin)
    } else {
        McpAccessDecision::Forward(origin)
    }
}

/// The CORS headers every answer to an allowed origin carries, as
/// (name, value) pairs.
pub open spec fn cors_header_spec(origin: Seq<char>) -> Seq<(Seq<char>, Seq<char>)> {
    seq![
        ("access-control-allow-origin"@, origin),
        ("vary"@, "Origin"@),
        ("access-control-allow-methods"@, "GET, POST, DELETE, OPTIONS"@),
        ("access-control-allow-headers"@, "authorization, content-type, accept, mcp-protocol-version, mcp-session-id, last-event-id"@),
        ("access-control-expose-headers"@, "mcp-session-id"@),
        ("access-control-max-age"@, "600"@),
    ]
}

/// Returns the CORS headers of an answer to an allowed origin.
pub fn cors_headers(origin: &str) -> (r: Vec<(&'static str, String)>)
    ensures
        r@.map_values(|h: (&'static str, String)| (h.0@, h.1@)) == cors_header_spec(origin@),
{
    let r = vec![
        ("access-control-allow-origin", copy_str(origin)),
        ("vary", copy_str("Origin")),
        ("access-control-allow-methods", copy_str("GET, POST, DELETE, OPTIONS")),
        ("access-control-allow-headers", copy_str("authorization, content-type, accept, mcp-protocol-version, mcp-session-id, last-event-id")),
        ("access-control-expose-headers", copy_str("mcp-session-id")),
        ("access-control-max-age", copy_str("600")),
    ];
    assert(r@.map_values(|h: (&'static str, String)| (h.0@, h.1@)) =~= cors_header_spec(origin@));
    r
}

} // verus!

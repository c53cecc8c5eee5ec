//! The answer to a preflight request.
use vstd::prelude::*;

verus! {

/// The headers of the answer to a preflight request, which has status 200.
pub open spec fn preflight_table() -> Seq<(Seq<char>, Seq<char>)> {
    seq![
        ("access-control-allow-origin"@, "*"@),
        ("access-control-allow-methods"@, "GET, POST, OPTIONS"@),
        ("access-control-allow-headers"@, "Content-Type, Authorization"@),
        ("access-control-allow-credentials"@, "true"@),
        ("vary"@, "Origin"@),
    ]
}

/// The headers of the answer to a preflight request, in the order in which
/// they are set.
pub fn preflight_headers() -> (headers: Vec<(&'static str, &'static str)>)
    ensures
        headers@.map_values(|h: (&'static str, &'static str)| (h.0@, h.1@)) == preflight_table(),
{
    let mut headers: Vec<(&'static str, &'static str)> = Vec::new();
    headers.push(("access-control-allow-origin", "*"));
    headers.push(("access-control-allow-methods", "GET, POST, OPTIONS"));
    headers.push(("access-control-allow-headers", "Content-Type, Authorization"));
    headers.push(("access-control-allow-credentials", "true"));
    headers.push(("vary", "Origin"));
    assert(headers@.map_values(|h: (&'static str, &'static str)| (h.0@, h.1@))
        =~= preflight_table());
    headers
}

} // verus!

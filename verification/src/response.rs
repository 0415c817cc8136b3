use vstd::prelude::*;
use vstd::string::StringExecFns;

use crate::routing::RouteDecision;

verus! {

/// An HTTP response as the host transport will emit it: status code,
/// header list, body bytes.
pub struct HttpResponse {
    pub status: u16,
    pub headers: Vec<(String, String)>,
    pub body: Vec<u8>,
}

/// The response carries a header with exactly this name and value.
pub open spec fn has_header(r: HttpResponse, name: Seq<char>, value: Seq<char>) -> bool {
    exists|i: int|
        0 <= i < r.headers@.len() && r.headers@[i].0@ == name && r.headers@[i].1@ == value
}

impl HttpResponse {
    /// Every response carries the permissive cross-origin header (any
    /// origin allowed) and the cache-disabling directive, so an embedded
    /// browser view always fetches fresh content.
    pub open spec fn has_standard_headers(&self) -> bool {
        &&& has_header(*self, "Access-Control-Allow-Origin"@, "*"@)
        &&& has_header(*self, "Cache-Control"@, "no-cache"@)
    }
}

/// A successful response carrying the given body.
pub fn ok_response(body: Vec<u8>) -> (r: HttpResponse)
    ensures
        r.status == 200,
        r.body@ == body@,
        r.has_standard_headers(),
{
    let mut headers: Vec<(String, String)> = Vec::new();
    headers.push((String::from_str("Access-Control-Allow-Origin"), String::from_str("*")));
    headers.push((String::from_str("Cache-Control"), String::from_str("no-cache")));
    let r = HttpResponse { status: 200, headers, body };
    proof {
        assert(r.headers@[0].0@ == "Access-Control-Allow-Origin"@ && r.headers@[0].1@ == "*"@);
        assert(r.headers@[1].0@ == "Cache-Control"@ && r.headers@[1].1@ == "no-cache"@);
    }
    r
}

/// A not-found response, with an empty body.
pub fn not_found_response() -> (r: HttpResponse)
    ensures
        r.status == 404,
        r.body@.len() == 0,
        r.has_standard_headers(),
{
    let mut headers: Vec<(String, String)> = Vec::new();
    headers.push((String::from_str("Access-Control-Allow-Origin"), String::from_str("*")));
    headers.push((String::from_str("Cache-Control"), String::from_str("no-cache")));
    let r = HttpResponse { status: 404, headers, body: Vec::new() };
    proof {
        assert(r.headers@[0].0@ == "Access-Control-Allow-Origin"@ && r.headers@[0].1@ == "*"@);
        assert(r.headers@[1].0@ == "Cache-Control"@ && r.headers@[1].1@ == "no-cache"@);
    }
    r
}

/// Builds the response for one routing decision, given what the host's
/// file lookup produced for it (`None`: no readable file there, including
/// a missing index document). A rejected path is never looked up and is
/// answered not-found whatever the lookup argument says.
pub fn respond(decision: &RouteDecision, file: Option<Vec<u8>>) -> (r: HttpResponse)
    ensures
        r.has_standard_headers(),
        *decision is Rejected ==> r.status == 404,
        !(*decision is Rejected) ==> (match file {
            Some(content) => r.status == 200 && r.body@ == content@,
            None => r.status == 404,
        }),
{
    match decision {
        RouteDecision::Rejected => not_found_response(),
        _ => match file {
            Some(content) => ok_response(content),
            None => not_found_response(),
        },
    }
}

} // verus!

//! The transient HTTP request/response values and the dispatch table:
//! one exact-match route, everything else falls through to not-found.

use vstd::prelude::*;
use vstd::string::StringExecFns;

verus! {

/// The request method, as far as dispatch cares about it.
#[derive(Clone, Copy, Debug, PartialEq, Eq, Structural)]
pub enum HttpMethod {
    Get,
    Post,
    Put,
    Delete,
    Head,
    Options,
    Patch,
    Other,
}

/// An incoming request: method and path, nothing else is kept.
#[derive(Clone, Debug, PartialEq, Eq)]
pub struct HttpRequest {
    pub method: HttpMethod,
    pub path: String,
}

/// An outgoing response: status code and body bytes.
#[derive(Clone, Debug, PartialEq, Eq)]
pub struct HttpResponse {
    pub status: u16,
    pub body: Vec<u8>,
}

/// The one configured route: a GET of this path serves the dice roll.
pub open spec fn spec_is_dice_route(method: HttpMethod, path: Seq<char>) -> bool {
    method == HttpMethod::Get && path == "/rolldice"@
}

/// Dispatch decision: does this method and path match the dice route?
/// A wrong method and a wrong path fall through the same way.
pub fn is_dice_route(method: HttpMethod, path: &String) -> (r: bool)
    ensures
        r == spec_is_dice_route(method, path@),
{
    let target = String::from_str("/rolldice");
    method == HttpMethod::Get && *path == target
}

/// Body bytes of a successful roll: the decimal digit, then a newline.
pub open spec fn spec_roll_body(value: u64) -> Seq<u8> {
    seq![(value + 48) as u8, 10u8]
}

/// The success response: status 200, body `<digit>\n`.
pub fn roll_response(value: u64) -> (r: HttpResponse)
    requires
        1 <= value <= 6,
    ensures
        r.status == 200,
        r.body@ == spec_roll_body(value),
{
    let mut body: Vec<u8> = Vec::new();
    body.push((value as u8) + 48);
    body.push(10);
    proof {
        assert(body@ =~= spec_roll_body(value));
    }
    HttpResponse { status: 200, body }
}

/// The fallback response: status 404, empty body.
pub fn not_found_response() -> (r: HttpResponse)
    ensures
        r.status == 404,
        r.body@ == Seq::<u8>::empty(),
    {
    let body: Vec<u8> = Vec::new();
    HttpResponse { status: 404, body }
}

} // verus!

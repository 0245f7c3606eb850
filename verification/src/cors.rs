//! The cross-origin policy: every response says that any origin may read
//! it, with which methods, and with any request header.

use vstd::prelude::*;
use vstd::string::*;
use crate::http::{Response, ResponseView};

verus! {

/// The name of the header that names the origins that may read a response.
pub const ALLOW_ORIGIN: &'static str = "access-control-allow-origin";

/// The name of the header that names the methods a cross-origin request may
/// use.
pub const ALLOW_METHODS: &'static str = "access-control-allow-methods";

/// The name of the header that names the request headers a cross-origin
/// request may carry.
pub const ALLOW_HEADERS: &'static str = "access-control-allow-headers";

/// The value that stands for any origin, and for any request header.
pub const ANY: &'static str = "*";

/// The methods open to cross-origin requests.
pub const ALLOWED_METHODS: &'static str = "GET, POST, OPTIONS";

/// The three header lines of the policy, in the order they are attached.
pub open spec fn cors_headers() -> Seq<(Seq<char>, Seq<char>)> {
    seq![(ALLOW_ORIGIN@, ANY@), (ALLOW_METHODS@, ALLOWED_METHODS@), (ALLOW_HEADERS@, ANY@)]
}

/// `response` with the policy's header lines attached after its own.
pub open spec fn decorated(response: ResponseView) -> ResponseView {
    ResponseView { headers: response.headers + cors_headers(), ..response }
}

/// Attaches the policy's header lines to a response, and changes nothing
/// else.
pub fn with_cors(response: Response) -> (out: Response)
    ensures
        out@ == decorated(response@),
        out@.has_header(ALLOW_ORIGIN@, ANY@),
{
    let out = response.with_header(ALLOW_ORIGIN, ANY).with_header(
        ALLOW_METHODS,
        ALLOWED_METHODS,
    ).with_header(ALLOW_HEADERS, ANY);
    assert(out@.headers =~= response@.headers + cors_headers());
    proof {
        every_decorated_response_allows_any_origin(response@);
    }
    out
}

/// Whatever the response, once decorated it carries each of the policy's
/// three header lines; among them the one that allows any origin.
pub proof fn every_decorated_response_allows_any_origin(response: ResponseView)
    ensures
        decorated(response).has_header(ALLOW_ORIGIN@, ANY@),
        decorated(response).has_header(ALLOW_METHODS@, ALLOWED_METHODS@),
        decorated(response).has_header(ALLOW_HEADERS@, ANY@),
        decorated(response).status == response.status,
        decorated(response).body == response.body,
{
    let n = response.headers.len() as int;
    let d = decorated(response);
    assert(d.headers[n] == (ALLOW_ORIGIN@, ANY@));
    assert(d.headers[n + 1] == (ALLOW_METHODS@, ALLOWED_METHODS@));
    assert(d.headers[n + 2] == (ALLOW_HEADERS@, ANY@));
}

} // verus!

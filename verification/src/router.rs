//! From a request to its response: which handler answers, what the server
//! says where none does, and the cross-origin header lines on all of it.

use vstd::prelude::*;
use vstd::string::*;
use crate::cors::{decorated, every_decorated_response_allows_any_origin, with_cors, ALLOW_ORIGIN, ANY};
use crate::handlers::{
    health_at, health_check, health_response, index_response, page_view, ping_at, ping_pong,
    ping_response, serve_index, HEALTHY, PONG, SERVER_ID,
};
use crate::http::{
    Method, Response, ResponseView, STATUS_METHOD_NOT_ALLOWED, STATUS_NOT_FOUND, STATUS_OK,
};
use crate::json::json_object_text;
use crate::text::text_eq;
use crate::time::{reading_text, reading_valid, reading_view, Timestamp, TimestampView};
use crate::uptime::{uptime_secs, uptime_text, ServerStart};

verus! {

/// The path of the static page.
pub const INDEX_PATH: &'static str = "/";

/// The path of the health check.
pub const HEALTH_PATH: &'static str = "/health";

/// The path of the ping.
pub const PING_PATH: &'static str = "/ping";

/// The methods that a registered path takes, as the `allow` header of a
/// refusal lists them.
pub const ROUTE_METHODS: &'static str = "GET,HEAD";

/// Where a request goes.
#[derive(Clone, Copy, Debug, PartialEq, Eq, Structural)]
pub enum Route {
    /// To the handler of the static page.
    Index,
    /// To the handler of the health check.
    Health,
    /// To the handler of the ping.
    Ping,
    /// Nowhere: a cross-origin preflight, answered by the policy alone.
    Preflight,
    /// Nowhere: no handler is registered at the path.
    NotFound,
    /// Nowhere: a handler is registered at the path, for another method.
    MethodNotAllowed,
}

/// Whether a handler is registered at `path`.
pub open spec fn is_registered(path: Seq<char>) -> bool {
    path == INDEX_PATH@ || path == HEALTH_PATH@ || path == PING_PATH@
}

/// Where the request with this method and path goes. `OPTIONS` is a
/// preflight on any path. A registered path takes `GET`, and `HEAD` in its
/// place, and refuses any other method. Paths are matched whole.
pub open spec fn route_of(method: Method, path: Seq<char>) -> Route {
    if method == Method::Options {
        Route::Preflight
    } else if !is_registered(path) {
        Route::NotFound
    } else if method != Method::Get && method != Method::Head {
        Route::MethodNotAllowed
    } else if path == INDEX_PATH@ {
        Route::Index
    } else if path == HEALTH_PATH@ {
        Route::Health
    } else {
        Route::Ping
    }
}

/// Matches a request against the registered routes.
pub fn route(method: Method, path: &str) -> (target: Route)
    ensures
        target == route_of(method, path@),
{
    match method {
        Method::Options => Route::Preflight,
        Method::Get | Method::Head => {
            if text_eq(path, INDEX_PATH) {
                Route::Index
            } else if text_eq(path, HEALTH_PATH) {
                Route::Health
            } else if text_eq(path, PING_PATH) {
                Route::Ping
            } else {
                Route::NotFound
            }
        },
        Method::Other => {
            if text_eq(path, INDEX_PATH) || text_eq(path, HEALTH_PATH) || text_eq(path, PING_PATH) {
                Route::MethodNotAllowed
            } else {
                Route::NotFound
            }
        },
    }
}

/// Whether answering the request takes the content of the page file.
pub fn reads_page(method: Method, path: &str) -> (needed: bool)
    ensures
        needed == (route_of(method, path@) == Route::Index),
{
    route(method, path) == Route::Index
}

/// The answer to a preflight: status 200, nothing else.
pub open spec fn preflight_response() -> ResponseView {
    ResponseView::empty(STATUS_OK)
}

/// The answer where no handler is registered at the path: status 404,
/// nothing else.
pub open spec fn not_found_response() -> ResponseView {
    ResponseView::empty(STATUS_NOT_FOUND)
}

/// The answer where the path does not take the method: status 405 and the
/// methods that it does take.
pub open spec fn method_not_allowed_response() -> ResponseView {
    ResponseView::empty(STATUS_METHOD_NOT_ALLOWED).with_header("allow"@, ROUTE_METHODS@)
}

/// What the route answers, before the method and the policy have shaped
/// it. `page` counts only on the way to the static page, `start` and `now`
/// only on the way to the health check, `now` on the way to the ping.
pub open spec fn routed_response(
    target: Route,
    start: Option<TimestampView>,
    now: Option<TimestampView>,
    page: Option<Seq<char>>,
) -> ResponseView {
    match target {
        Route::Index => index_response(page),
        Route::Health => health_response(start, now),
        Route::Ping => ping_response(now),
        Route::Preflight => preflight_response(),
        Route::NotFound => not_found_response(),
        Route::MethodNotAllowed => method_not_allowed_response(),
    }
}

/// `response` as the method wants it: without its body for `HEAD`,
/// unchanged for any other method.
pub open spec fn shaped_for(method: Method, response: ResponseView) -> ResponseView {
    if method == Method::Head {
        response.without_body()
    } else {
        response
    }
}

/// The response of the server to a request that arrives when the clock
/// reads `now`: what the route answers, shaped for the method, with the
/// cross-origin header lines attached.
pub open spec fn response_of(
    method: Method,
    path: Seq<char>,
    start: Option<TimestampView>,
    now: Option<TimestampView>,
    page: Option<Seq<char>>,
) -> ResponseView {
    decorated(shaped_for(method, routed_response(route_of(method, path), start, now, page)))
}

/// Shapes a response for the method and attaches the cross-origin header
/// lines.
fn finish(method: Method, response: Response) -> (out: Response)
    ensures
        out@ == decorated(shaped_for(method, response@)),
        out@.has_header(ALLOW_ORIGIN@, ANY@),
{
    let shaped = match method {
        Method::Head => response.without_body(),
        _ => response,
    };
    with_cors(shaped)
}

/// What the server says where the route leads to no handler.
fn unrouted(target: Route) -> (response: Response)
    requires
        target == Route::Preflight || target == Route::NotFound || target
            == Route::MethodNotAllowed,
    ensures
        forall|start: Option<TimestampView>, now: Option<TimestampView>, page: Option<Seq<char>>|
            response@ == #[trigger] routed_response(target, start, now, page),
{
    match target {
        Route::Preflight => Response::new(STATUS_OK),
        Route::MethodNotAllowed => Response::new(STATUS_METHOD_NOT_ALLOWED).with_header(
            "allow",
            ROUTE_METHODS,
        ),
        _ => Response::new(STATUS_NOT_FOUND),
    }
}

/// Answers a request that arrives when the clock reads `now`. `page` is the
/// content of the page file as just read, or `None` where it is missing,
/// could not be read, or was not read because the request does not take it.
pub fn respond_at(
    method: Method,
    path: &str,
    start: &ServerStart,
    now: Option<&Timestamp>,
    page: Option<String>,
) -> (response: Response)
    ensures
        response@ == response_of(method, path@, start@, reading_view(now), page_view(page)),
        response@.has_header(ALLOW_ORIGIN@, ANY@),
{
    let target = route(method, path);
    let routed = match target {
        Route::Index => serve_index(page),
        Route::Health => health_at(start, now),
        Route::Ping => ping_at(now),
        _ => unrouted(target),
    };
    assert(routed@ == routed_response(target, start@, reading_view(now), page_view(page)));
    finish(method, routed)
}

/// Whether answering on this route takes the time of the request.
pub open spec fn reads_clock(target: Route) -> bool {
    target == Route::Health || target == Route::Ping
}

/// Whether `response` is the server's response to the request: at some
/// reading that the clock can give where the route takes the time, and at
/// any reading where it does not.
pub open spec fn is_response_to(
    response: ResponseView,
    method: Method,
    path: Seq<char>,
    start: Option<TimestampView>,
    page: Option<Seq<char>>,
) -> bool {
    if reads_clock(route_of(method, path)) {
        exists|now: Option<TimestampView>|
            reading_valid(now) && response == #[trigger] response_of(method, path, start, now, page)
    } else {
        forall|now: Option<TimestampView>|
            response == #[trigger] response_of(method, path, start, now, page)
    }
}

/// Answers a request that arrives now. The system clock is read where the
/// route leads to the health check or to the ping, and not otherwise.
pub fn respond(method: Method, path: &str, start: &ServerStart, page: Option<String>) -> (response:
    Response)
    ensures
        is_response_to(response@, method, path@, start@, page_view(page)),
        response@.has_header(ALLOW_ORIGIN@, ANY@),
{
    let target = route(method, path);
    let ghost view = page_view(page);
    let routed = match target {
        Route::Index => serve_index(page),
        Route::Health => health_check(start),
        Route::Ping => ping_pong(),
        _ => unrouted(target),
    };
    let response = finish(method, routed);
    proof {
        if target == Route::Health {
            let now = choose|now: Option<TimestampView>|
                reading_valid(now) && routed@ == #[trigger] health_response(start@, now);
            assert(response@ == response_of(method, path@, start@, now, view));
        } else if target == Route::Ping {
            let now = choose|now: Option<TimestampView>|
                reading_valid(now) && routed@ == #[trigger] ping_response(now);
            assert(response@ == response_of(method, path@, start@, now, view));
        } else {
            assert forall|now: Option<TimestampView>|
                response@ == #[trigger] response_of(method, path@, start@, now, view) by {
                assert(routed@ == routed_response(target, start@, now, view));
            }
        }
    }
    response
}

/// Every response of the server, whatever the request and whatever the
/// route answers, carries the header line that allows any origin.
pub proof fn every_response_allows_any_origin(
    method: Method,
    path: Seq<char>,
    start: Option<TimestampView>,
    now: Option<TimestampView>,
    page: Option<Seq<char>>,
)
    ensures
        response_of(method, path, start, now, page).has_header(ALLOW_ORIGIN@, ANY@),
{
    every_decorated_response_allows_any_origin(
        shaped_for(method, routed_response(route_of(method, path), start, now, page)),
    );
}

/// The three registered paths are three different texts.
proof fn registered_paths_differ()
    ensures
        INDEX_PATH@ != HEALTH_PATH@,
        INDEX_PATH@ != PING_PATH@,
        HEALTH_PATH@ != PING_PATH@,
{
    reveal_strlit("/");
    reveal_strlit("/health");
    reveal_strlit("/ping");
    assert(INDEX_PATH@.len() == 1);
    assert(HEALTH_PATH@.len() == 7);
    assert(PING_PATH@.len() == 5);
}

/// A `GET` of the ping path is answered with status 200 and a JSON object
/// of the fixed message, the clock's reading at the request and the fixed
/// server identifier, whatever the clock reads, no reading included;
/// neither the start of the server nor the page file has a part in it.
pub proof fn ping_always_answers_pong(
    start: Option<TimestampView>,
    now: Option<TimestampView>,
    page: Option<Seq<char>>,
)
    ensures
        response_of(Method::Get, PING_PATH@, start, now, page) == decorated(ping_response(now)),
        response_of(Method::Get, PING_PATH@, start, now, page).status == STATUS_OK,
        response_of(Method::Get, PING_PATH@, start, now, page).body == json_object_text(
            seq!["message"@, "timestamp"@, "server_id"@],
            seq![PONG@, reading_text(now), SERVER_ID@],
        ),
{
    registered_paths_differ();
}

/// A `GET` of the health path is answered with status 200 and a JSON object
/// of the fixed status, the clock's reading at the request and the uptime
/// at that reading, whatever the clock reads, no reading included; the page
/// file has no part in it.
pub proof fn health_always_reports_healthy(
    start: Option<TimestampView>,
    now: Option<TimestampView>,
    page: Option<Seq<char>>,
)
    ensures
        response_of(Method::Get, HEALTH_PATH@, start, now, page) == decorated(
            health_response(start, now),
        ),
        response_of(Method::Get, HEALTH_PATH@, start, now, page).status == STATUS_OK,
        response_of(Method::Get, HEALTH_PATH@, start, now, page).body == json_object_text(
            seq!["status"@, "timestamp"@, "uptime"@],
            seq![HEALTHY@, reading_text(now), uptime_text(uptime_secs(start, now))],
        ),
{
    registered_paths_differ();
}

/// A `GET` of the index path is answered with status 200 and the page as it
/// was read where there is a page, and with status 404 and an empty body
/// where there is none; neither the clock nor the start of the server has a
/// part in it.
pub proof fn index_is_served_as_read(
    start: Option<TimestampView>,
    now: Option<TimestampView>,
    page: Option<Seq<char>>,
)
    ensures
        response_of(Method::Get, INDEX_PATH@, start, now, page) == decorated(index_response(page)),
        page matches Some(content) ==> {
            &&& response_of(Method::Get, INDEX_PATH@, start, now, page).status == STATUS_OK
            &&& response_of(Method::Get, INDEX_PATH@, start, now, page).body == content
        },
        page is None ==> {
            &&& response_of(Method::Get, INDEX_PATH@, start, now, page).status
                == STATUS_NOT_FOUND
            &&& response_of(Method::Get, INDEX_PATH@, start, now, page).body == Seq::<char>::empty()
        },
{
    registered_paths_differ();
}

} // verus!

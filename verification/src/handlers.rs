//! The three handlers: the static page, the health report and the ping.

use vstd::prelude::*;
use vstd::string::*;
use crate::http::{Response, ResponseView, STATUS_NOT_FOUND, STATUS_OK};
use crate::json::{
    encode_object, json_object_text, json_response, json_response_view, member_names,
    member_values, Member,
};
use crate::time::{
    reading_text, reading_valid, reading_view, text_of_reading, Timestamp, TimestampView,
};
use crate::uptime::{format_uptime, uptime_secs, uptime_text, ServerStart};

verus! {

/// The file that holds the static page, relative to the working directory.
pub const INDEX_FILE: &'static str = "index.html";

/// The content type of the static page.
pub const HTML_CONTENT_TYPE: &'static str = "text/html; charset=utf-8";

/// The status that every health report carries.
pub const HEALTHY: &'static str = "healthy";

/// The message that every ping is answered with.
pub const PONG: &'static str = "pong";

/// The identifier of this server, the same in every ping.
pub const SERVER_ID: &'static str = "rust-axum-v1";

/// What was read of the static page, as characters.
pub open spec fn page_view(page: Option<String>) -> Option<Seq<char>> {
    match page {
        Some(content) => Some(content@),
        None => None,
    }
}

/// The response to a request for the static page: the page as HTML where it
/// could be read, and otherwise not found, with no header and no body.
pub open spec fn index_response(page: Option<Seq<char>>) -> ResponseView {
    match page {
        Some(content) => ResponseView {
            status: STATUS_OK,
            headers: seq![("content-type"@, HTML_CONTENT_TYPE@)],
            body: content,
        },
        None => ResponseView::empty(STATUS_NOT_FOUND),
    }
}

/// Answers a request for the static page. `page` is the content of the page
/// file as just read, or `None` where it is missing or could not be read.
pub fn serve_index(page: Option<String>) -> (response: Response)
    ensures
        response@ == index_response(page_view(page)),
{
    match page {
        Some(content) => {
            let response = Response::new(STATUS_OK).with_header(
                "content-type",
                HTML_CONTENT_TYPE,
            ).with_body(content);
            assert(response@.headers =~= seq![("content-type"@, HTML_CONTENT_TYPE@)]);
            response
        },
        None => Response::new(STATUS_NOT_FOUND),
    }
}

/// What a `HealthResponse` stands for.
pub struct HealthView {
    /// The status.
    pub status: Seq<char>,
    /// The time of the report, as RFC 3339 text.
    pub timestamp: Seq<char>,
    /// The uptime, as text.
    pub uptime: Seq<char>,
}

/// The health report made at the time written `timestamp`, `uptime` seconds
/// after the start: always healthy.
pub open spec fn health_report(timestamp: Seq<char>, uptime: nat) -> HealthView {
    HealthView { status: HEALTHY@, timestamp, uptime: uptime_text(uptime) }
}

/// The JSON text of a health report.
pub open spec fn health_body(report: HealthView) -> Seq<char> {
    json_object_text(
        seq!["status"@, "timestamp"@, "uptime"@],
        seq![report.status, report.timestamp, report.uptime],
    )
}

/// The response to a health check on a server started at `start`, made
/// when the clock reads `now`. Where the clock gives no time, the timestamp
/// is empty and the uptime zero; the check is answered all the same.
pub open spec fn health_response(
    start: Option<TimestampView>,
    now: Option<TimestampView>,
) -> ResponseView {
    json_response_view(health_body(health_report(reading_text(now), uptime_secs(start, now))))
}

/// A health report: made for one request, then written out.
#[derive(Debug)]
pub struct HealthResponse {
    /// The status, always "healthy".
    pub status: String,
    /// The time of the report, as RFC 3339 text.
    pub timestamp: String,
    /// The uptime, as hours, minutes and seconds.
    pub uptime: String,
}

impl View for HealthResponse {
    type V = HealthView;

    open spec fn view(&self) -> HealthView {
        HealthView { status: self.status@, timestamp: self.timestamp@, uptime: self.uptime@ }
    }
}

impl HealthResponse {
    /// The report made at the time written `timestamp`, `uptime` seconds
    /// after the start.
    pub fn new(timestamp: &str, uptime: u64) -> (report: HealthResponse)
        ensures
            report@ == health_report(timestamp@, uptime as nat),
    {
        HealthResponse {
            status: String::from_str(HEALTHY),
            timestamp: String::from_str(timestamp),
            uptime: format_uptime(uptime),
        }
    }

    /// The report as a response with a JSON body.
    pub fn into_response(self) -> (response: Response)
        ensures
            response@ == json_response_view(health_body(self@)),
    {
        let mut members: Vec<Member> = Vec::new();
        members.push(Member { name: String::from_str("status"), value: self.status });
        members.push(Member { name: String::from_str("timestamp"), value: self.timestamp });
        members.push(Member { name: String::from_str("uptime"), value: self.uptime });
        assert(member_names(members@) =~= seq!["status"@, "timestamp"@, "uptime"@]);
        assert(member_values(members@) =~= seq![self@.status, self@.timestamp, self@.uptime]);
        json_response(encode_object(&members))
    }
}

/// Answers a health check on a server started at `start`, made when the
/// clock reads `now`.
pub fn health_at(start: &ServerStart, now: Option<&Timestamp>) -> (response: Response)
    ensures
        response@ == health_response(start@, reading_view(now)),
{
    HealthResponse::new(text_of_reading(now), start.uptime_at(now)).into_response()
}

/// Whether `response` answers a health check on a server started at `start`,
/// at some reading that the clock can give.
pub open spec fn is_health_response(response: ResponseView, start: Option<TimestampView>) -> bool {
    exists|now: Option<TimestampView>|
        reading_valid(now) && response == #[trigger] health_response(start, now)
}

/// Answers a health check made now, by the system clock.
pub fn health_check(start: &ServerStart) -> (response: Response)
    ensures
        is_health_response(response@, start@),
{
    let now = Timestamp::now();
    let reading = now.as_ref();
    let response = health_at(start, reading);
    assert(reading_valid(reading_view(reading)));
    assert(response@ == health_response(start@, reading_view(reading)));
    response
}

/// What a `PingResponse` stands for.
pub struct PingView {
    /// The message.
    pub message: Seq<char>,
    /// The time of the answer, as RFC 3339 text.
    pub timestamp: Seq<char>,
    /// The identifier of the server.
    pub server_id: Seq<char>,
}

/// The answer to a ping at the time written `timestamp`: the same message
/// and the same server identifier every time.
pub open spec fn ping_report(timestamp: Seq<char>) -> PingView {
    PingView { message: PONG@, timestamp, server_id: SERVER_ID@ }
}

/// The JSON text of an answer to a ping.
pub open spec fn ping_body(report: PingView) -> Seq<char> {
    json_object_text(
        seq!["message"@, "timestamp"@, "server_id"@],
        seq![report.message, report.timestamp, report.server_id],
    )
}

/// The response to a ping made when the clock reads `now`. Where the clock
/// gives no time, the timestamp is empty; the ping is answered all the same.
pub open spec fn ping_response(now: Option<TimestampView>) -> ResponseView {
    json_response_view(ping_body(ping_report(reading_text(now))))
}

/// An answer to a ping: made for one request, then written out.
#[derive(Debug)]
pub struct PingResponse {
    /// The message, always "pong".
    pub message: String,
    /// The time of the answer, as RFC 3339 text.
    pub timestamp: String,
    /// The identifier of the server.
    pub server_id: String,
}

impl View for PingResponse {
    type V = PingView;

    open spec fn view(&self) -> PingView {
        PingView {
            message: self.message@,
            timestamp: self.timestamp@,
            server_id: self.server_id@,
        }
    }
}

impl PingResponse {
    /// The answer to a ping at the time written `timestamp`.
    pub fn new(timestamp: &str) -> (report: PingResponse)
        ensures
            report@ == ping_report(timestamp@),
            report@.message == PONG@,
            report@.server_id == SERVER_ID@,
    {
        PingResponse {
            message: String::from_str(PONG),
            timestamp: String::from_str(timestamp),
            server_id: String::from_str(SERVER_ID),
        }
    }

    /// The answer as a response with a JSON body.
    pub fn into_response(self) -> (response: Response)
        ensures
            response@ == json_response_view(ping_body(self@)),
    {
        let mut members: Vec<Member> = Vec::new();
        members.push(Member { name: String::from_str("message"), value: self.message });
        members.push(Member { name: String::from_str("timestamp"), value: self.timestamp });
        members.push(Member { name: String::from_str("server_id"), value: self.server_id });
        assert(member_names(members@) =~= seq!["message"@, "timestamp"@, "server_id"@]);
        assert(member_values(members@) =~= seq![
            self@.message,
            self@.timestamp,
            self@.server_id,
        ]);
        json_response(encode_object(&members))
    }
}

/// Answers a ping made when the clock reads `now`.
pub fn ping_at(now: Option<&Timestamp>) -> (response: Response)
    ensures
        response@ == ping_response(reading_view(now)),
{
    PingResponse::new(text_of_reading(now)).into_response()
}

/// Whether `response` answers a ping at some reading that the clock can
/// give.
pub open spec fn is_ping_response(response: ResponseView) -> bool {
    exists|now: Option<TimestampView>|
        reading_valid(now) && response == #[trigger] ping_response(now)
}

/// Answers a ping made now, by the system clock.
pub fn ping_pong() -> (response: Response)
    ensures
        is_ping_response(response@),
{
    let now = Timestamp::now();
    let reading = now.as_ref();
    let response = ping_at(reading);
    assert(reading_valid(reading_view(reading)));
    assert(response@ == ping_response(reading_view(reading)));
    response
}

} // verus!

//! The moment the server started, and the time it has been up since.

use vstd::prelude::*;
use vstd::string::*;
use crate::text::{decimal_text, push_decimal};
use crate::time::{
    reading_valid, reading_view, whole_seconds_between, Timestamp, TimestampView,
};

verus! {

/// Seconds in one minute.
pub const SECS_PER_MINUTE: u64 = 60;

/// Seconds in one hour.
pub const SECS_PER_HOUR: u64 = 3600;

/// The uptime text for `secs` seconds: hours, minutes and seconds, each in
/// decimal and followed by its letter. Hours do not roll over into days.
pub open spec fn uptime_text(secs: nat) -> Seq<char> {
    decimal_text(secs / (SECS_PER_HOUR as nat)) + seq!['h'] + decimal_text(
        (secs % (SECS_PER_HOUR as nat)) / (SECS_PER_MINUTE as nat),
    ) + seq!['m'] + decimal_text(secs % (SECS_PER_MINUTE as nat)) + seq!['s']
}

/// Writes an uptime of `secs` seconds as text.
pub fn format_uptime(secs: u64) -> (text: String)
    ensures
        text@ == uptime_text(secs as nat),
{
    proof {
        reveal_strlit("h");
        reveal_strlit("m");
        reveal_strlit("s");
    }
    let mut text = String::new();
    push_decimal(&mut text, secs / SECS_PER_HOUR);
    text.append("h");
    push_decimal(&mut text, (secs % SECS_PER_HOUR) / SECS_PER_MINUTE);
    text.append("m");
    push_decimal(&mut text, secs % SECS_PER_MINUTE);
    text.append("s");
    assert(text@ =~= uptime_text(secs as nat));
    text
}

/// Whole seconds that a server started at `start` has been up at `now`;
/// zero where `now` is not after `start`, and zero where the clock gave no
/// time for either of them.
pub open spec fn uptime_secs(start: Option<TimestampView>, now: Option<TimestampView>) -> nat {
    match (start, now) {
        (Some(start), Some(now)) => whole_seconds_between(start.since_epoch(), now.since_epoch()),
        _ => 0,
    }
}

/// The moment the server started, as the clock gave it then. It is set once
/// and never changes.
pub struct ServerStart {
    at: Option<Timestamp>,
}

impl View for ServerStart {
    type V = Option<TimestampView>;

    closed spec fn view(&self) -> Option<TimestampView> {
        match self.at {
            Some(moment) => Some(moment@),
            None => None,
        }
    }
}

impl ServerStart {
    /// A server start at the given moment.
    pub fn at(moment: Timestamp) -> (start: ServerStart)
        ensures
            start@ == Some(moment@),
    {
        ServerStart { at: Some(moment) }
    }

    /// A server start of which the clock gave no time.
    pub fn unknown() -> (start: ServerStart)
        ensures
            start@ is None,
    {
        ServerStart { at: None }
    }

    /// A server start at the current reading of the system clock.
    pub fn capture() -> (start: ServerStart)
        ensures
            reading_valid(start@),
    {
        ServerStart { at: Timestamp::now() }
    }

    /// The moment of the start, where the clock gave one.
    pub fn moment(&self) -> (moment: Option<&Timestamp>)
        ensures
            reading_view(moment) == self@,
    {
        self.at.as_ref()
    }

    /// Whole seconds that the server has been up at the reading `now`; zero
    /// where `now` is not after the start, and zero where the clock gave no
    /// time for either of them.
    pub fn uptime_at(&self, now: Option<&Timestamp>) -> (secs: u64)
        ensures
            secs == uptime_secs(self@, reading_view(now)),
    {
        match (&self.at, now) {
            (Some(start), Some(now)) => now.seconds_since(start),
            _ => 0,
        }
    }
}

/// Uptime never decreases: of two moments, the later one sees at least the
/// uptime that the earlier one sees.
pub proof fn uptime_never_decreases(
    start: Option<TimestampView>,
    first: TimestampView,
    second: TimestampView,
)
    requires
        first.since_epoch() <= second.since_epoch(),
    ensures
        uptime_secs(start, Some(first)) <= uptime_secs(start, Some(second)),
{
}

/// Uptime at the moment of the start itself, and at any moment before it,
/// is zero.
pub proof fn uptime_is_zero_until_start(start: TimestampView, now: TimestampView)
    requires
        now.since_epoch() <= start.since_epoch(),
    ensures
        uptime_secs(Some(start), Some(now)) == 0,
{
}

} // verus!

//! Points in time, counted from the Unix epoch, their RFC 3339 text, and
//! readings of the system clock.

use vstd::prelude::*;
use vstd::string::*;

verus! {

/// Nanoseconds in one second.
pub const NANOS_PER_SEC: u32 = 1_000_000_000;

/// The RFC 3339 text of the UTC time that lies `secs` seconds and `nanos`
/// nanoseconds after the Unix epoch, as chrono writes it; `None` where
/// chrono has no such time.
pub uninterp spec fn rfc3339_text(secs: i64, nanos: u32) -> Option<Seq<char>>;

/// Calls `chrono::DateTime::from_timestamp` and, on the time it gives,
/// `chrono::DateTime::to_rfc3339`. Not proved: that the outcome is the one
/// that `rfc3339_text` names, which is to say that it depends on the two
/// numbers alone.
#[verifier::external_body]
fn render_rfc3339(secs: i64, nanos: u32) -> (text: Option<String>)
    ensures
        match text {
            Some(t) => rfc3339_text(secs, nanos) == Some(t@),
            None => rfc3339_text(secs, nanos) is None,
        },
{
    match chrono::DateTime::from_timestamp(secs, nanos) {
        Some(time) => Some(time.to_rfc3339()),
        None => None,
    }
}

/// Calls `std::time::SystemTime::now` and measures the reading from
/// `std::time::UNIX_EPOCH` with `SystemTime::duration_since`: whole seconds
/// and the nanoseconds beyond them, or `None` where the clock stands before
/// the epoch. Nothing is claimed of the reading.
#[verifier::external_body]
fn read_clock() -> (now: Option<(u64, u32)>) {
    match std::time::SystemTime::now().duration_since(std::time::UNIX_EPOCH) {
        Ok(since) => Some((since.as_secs(), since.subsec_nanos())),
        Err(_) => None,
    }
}

/// Whether `secs` and `nanos` make a point in time that has an RFC 3339
/// text.
pub open spec fn representable(secs: u64, nanos: u32) -> bool {
    &&& secs <= i64::MAX
    &&& nanos < NANOS_PER_SEC
    &&& rfc3339_text(secs as i64, nanos) is Some
}

/// Nanoseconds between the Unix epoch and the point `secs`, `nanos`.
pub open spec fn nanos_since_epoch(secs: nat, nanos: nat) -> nat {
    secs * (NANOS_PER_SEC as nat) + nanos
}

/// Whole seconds that pass from `earlier` to `later`, both in nanoseconds
/// since the epoch; zero where `later` is not after `earlier`.
pub open spec fn whole_seconds_between(earlier: nat, later: nat) -> nat {
    if later >= earlier {
        ((later - earlier) / (NANOS_PER_SEC as int)) as nat
    } else {
        0
    }
}

/// What a `Timestamp` stands for.
pub struct TimestampView {
    /// Whole seconds since the Unix epoch.
    pub secs: nat,
    /// Nanoseconds since the last whole second.
    pub nanos: nat,
    /// The RFC 3339 text of the point in time.
    pub text: Seq<char>,
}

impl TimestampView {
    /// Nanoseconds since the Unix epoch.
    pub open spec fn since_epoch(self) -> nat {
        nanos_since_epoch(self.secs, self.nanos)
    }

    /// Whether this is a representable point in time with its own text.
    pub open spec fn valid(self) -> bool {
        &&& self.secs <= u64::MAX
        &&& self.nanos <= u32::MAX
        &&& representable(self.secs as u64, self.nanos as u32)
        &&& rfc3339_text(self.secs as i64, self.nanos as u32) == Some(self.text)
    }
}

/// What a reading of the clock stands for: a point in time, or nothing
/// where the clock had no time to give.
pub open spec fn reading_view(reading: Option<&Timestamp>) -> Option<TimestampView> {
    match reading {
        Some(time) => Some(time@),
        None => None,
    }
}

/// Whether a reading of the clock is one that the clock can give: nothing,
/// or a representable point in time with its own text.
pub open spec fn reading_valid(reading: Option<TimestampView>) -> bool {
    reading matches Some(time) ==> time.valid()
}

/// The text that a reading of the clock is written as: the RFC 3339 text of
/// the time, and the empty text where there is no time.
pub open spec fn reading_text(reading: Option<TimestampView>) -> Seq<char> {
    match reading {
        Some(time) => time.text,
        None => Seq::empty(),
    }
}

/// A point in time at or after the Unix epoch, together with its RFC 3339
/// text.
pub struct Timestamp {
    secs: u64,
    nanos: u32,
    text: String,
}

impl View for Timestamp {
    type V = TimestampView;

    closed spec fn view(&self) -> TimestampView {
        TimestampView { secs: self.secs as nat, nanos: self.nanos as nat, text: self.text@ }
    }
}

impl Timestamp {
    #[verifier::type_invariant]
    spec fn well_formed(self) -> bool {
        &&& representable(self.secs, self.nanos)
        &&& rfc3339_text(self.secs as i64, self.nanos) == Some(self.text@)
    }

    /// The point in time `secs` seconds and `nanos` nanoseconds after the
    /// Unix epoch, where it is representable.
    pub fn new(secs: u64, nanos: u32) -> (time: Option<Timestamp>)
        ensures
            time is Some <==> representable(secs, nanos),
            time matches Some(t) ==> t@.secs == secs && t@.nanos == nanos && t@.valid(),
    {
        if secs > i64::MAX as u64 || nanos >= NANOS_PER_SEC {
            return None;
        }
        match render_rfc3339(secs as i64, nanos) {
            Some(text) => Some(Timestamp { secs, nanos, text }),
            None => None,
        }
    }

    /// The current time of the system clock; `None` where the clock stands
    /// before the Unix epoch or at a time that is not representable.
    pub fn now() -> (time: Option<Timestamp>)
        ensures
            time matches Some(t) ==> t@.valid(),
    {
        match read_clock() {
            Some((secs, nanos)) => Timestamp::new(secs, nanos),
            None => None,
        }
    }

    /// Whole seconds since the Unix epoch.
    pub fn secs(&self) -> (secs: u64)
        ensures
            secs == self@.secs,
            self@.valid(),
    {
        proof {
            use_type_invariant(self);
        }
        self.secs
    }

    /// Nanoseconds since the last whole second.
    pub fn nanos(&self) -> (nanos: u32)
        ensures
            nanos == self@.nanos,
            nanos < NANOS_PER_SEC,
            self@.valid(),
    {
        proof {
            use_type_invariant(self);
        }
        self.nanos
    }

    /// The RFC 3339 text of this point in time.
    pub fn rfc3339(&self) -> (text: &str)
        ensures
            text@ == self@.text,
            self@.valid(),
    {
        proof {
            use_type_invariant(self);
        }
        self.text.as_str()
    }

    /// Whole seconds that passed from `earlier` to this point; zero where
    /// this point is not after `earlier`.
    pub fn seconds_since(&self, earlier: &Timestamp) -> (secs: u64)
        ensures
            secs == whole_seconds_between(earlier@.since_epoch(), self@.since_epoch()),
    {
        proof {
            use_type_invariant(self);
            use_type_invariant(earlier);
        }
        if self.secs > earlier.secs {
            let whole = self.secs - earlier.secs;
            if self.nanos >= earlier.nanos {
                whole
            } else {
                whole - 1
            }
        } else {
            0
        }
    }
}

/// Writes a reading of the clock as text: the RFC 3339 text of the time, and
/// the empty text where there is no time.
pub fn text_of_reading<'a>(reading: Option<&'a Timestamp>) -> (text: &'a str)
    ensures
        text@ == reading_text(reading_view(reading)),
{
    match reading {
        Some(time) => time.rfc3339(),
        None => {
            proof {
                reveal_strlit("");
            }
            assert(""@ =~= Seq::<char>::empty());
            ""
        },
    }
}

} // verus!

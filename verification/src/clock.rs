//! The timestamp that every signed message carries: a date and time of day to
//! the second, in UTC, and the nanoseconds within that second.
//!
//! The calendar is chrono's. An instant is held as plain values, seconds since
//! the Unix epoch and nanoseconds, and its date text is known by a name.

use crate::text::{decimal_text, push_char, push_decimal};
use vstd::prelude::*;
use vstd::string::*;

verus! {

/// The date and time of day, to the second and in UTC, of the instant `secs`
/// seconds after the Unix epoch, as chrono writes it for the format
/// `%Y-%m-%d %H:%M:%S`; `None` where chrono has no date for the instant.
/// `nanos` counts, since a value of a billion or more stands for a leap
/// second.
pub uninterp spec fn utc_seconds_text(secs: int, nanos: int) -> Option<Seq<char>>;

/// Reads the system clock by `chrono::Utc::now` and hands back the instant's
/// `timestamp` and `timestamp_subsec_nanos`. The contract claims that chrono
/// has a date for what it returned: `now` builds its value from these two
/// numbers by `DateTime::from_timestamp`, with which they round-trip. Where
/// the system clock stands before the Unix epoch, `now` panics.
#[verifier::external_body]
fn read_utc_clock() -> (r: (i64, u32))
    ensures
        utc_seconds_text(r.0 as int, r.1 as int) is Some,
{
    let now = chrono::Utc::now();
    (now.timestamp(), now.timestamp_subsec_nanos())
}

/// Makes the instant by `chrono::DateTime::from_timestamp` and renders it by
/// `DateTime::format` with `%Y-%m-%d %H:%M:%S`. The contract claims that the
/// outcome is a function of the two numbers, known as `utc_seconds_text`.
#[verifier::external_body]
fn format_utc_seconds(secs: i64, nanos: u32) -> (r: Option<String>)
    ensures
        match r {
            Some(text) => utc_seconds_text(secs as int, nanos as int) == Some(text@),
            None => utc_seconds_text(secs as int, nanos as int) is None,
        },
{
    match chrono::DateTime::from_timestamp(secs, nanos) {
        Some(instant) => Some(instant.format("%Y-%m-%d %H:%M:%S").to_string()),
        None => None,
    }
}

/// A signing timestamp: the date and time to the second, and the nanoseconds.
#[derive(Clone, Debug)]
pub struct Timestamp {
    pub date_time: String,
    pub nanos: u32,
}

/// The wire form of a timestamp: the date text, a semicolon, and the
/// nanoseconds in decimal without padding.
pub open spec fn timestamp_text(date_time: Seq<char>, nanos: nat) -> Seq<char> {
    date_time + seq![';'] + decimal_text(nanos)
}

impl Timestamp {
    /// Whether this timestamp is that of some instant of the UTC calendar.
    pub open spec fn is_instant(self) -> bool {
        exists|secs: int| #[trigger]
            utc_seconds_text(secs, self.nanos as int) == Some(self.date_time@)
    }

    /// The wire form of this timestamp.
    pub open spec fn wire_text(self) -> Seq<char> {
        timestamp_text(self.date_time@, self.nanos as nat)
    }

    /// The timestamp of the instant `secs` seconds and `nanos` nanoseconds
    /// after the Unix epoch; `None` where the calendar does not reach it.
    pub fn from_unix(secs: i64, nanos: u32) -> (r: Option<Timestamp>)
        ensures
            match r {
                Some(t) => utc_seconds_text(secs as int, nanos as int) == Some(t.date_time@)
                    && t.nanos == nanos,
                None => utc_seconds_text(secs as int, nanos as int) is None,
            },
    {
        match format_utc_seconds(secs, nanos) {
            Some(date_time) => Some(Timestamp { date_time, nanos }),
            None => None,
        }
    }

    /// The timestamp of the present instant.
    pub fn now() -> (r: Timestamp)
        ensures
            r.is_instant(),
    {
        let (secs, nanos) = read_utc_clock();
        let date_time = format_utc_seconds(secs, nanos).unwrap();
        Timestamp { date_time, nanos }
    }

    /// Renders the timestamp as it goes on the wire.
    pub fn to_wire(&self) -> (r: String)
        ensures
            r@ == self.wire_text(),
    {
        let mut out = String::new();
        out.append(self.date_time.as_str());
        push_char(&mut out, ';');
        push_decimal(&mut out, self.nanos as u64);
        out
    }
}

} // verus!

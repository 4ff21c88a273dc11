//! Points in time as plain numbers, and the two calls that need a calendar.

use std::fmt::Write;
use vstd::prelude::*;

verus! {

/// A point in time: whole seconds since 1970-01-01T00:00:00Z, and the
/// nanoseconds since that second began.
#[derive(Debug, Clone, Copy, PartialEq, Eq, Structural)]
pub struct Timestamp {
    pub secs: i64,
    pub nanos: u32,
}

/// The text that `chrono` gives for a UTC point in time under a `strftime`
/// pattern; `None` where `chrono` has no date for the point or rejects the
/// pattern.
pub uninterp spec fn utc_text(secs: i64, nanos: u32, pattern: Seq<char>) -> Option<Seq<char>>;

/// Reads the system clock through `chrono::Utc::now`. Nothing is claimed of
/// the value: it changes from call to call. `chrono` gives up where the
/// system clock stands before 1970.
#[verifier::external_body]
pub(crate) fn utc_now() -> (now: Timestamp) {
    let now = chrono::Utc::now();
    Timestamp { secs: now.timestamp(), nanos: now.timestamp_subsec_nanos() }
}

/// Formats a point in time with `chrono::DateTime::format`, after
/// `chrono::DateTime::from_timestamp` has turned the two numbers into a UTC
/// date. The result is the named text for these arguments, and `None`
/// exactly where that text is `None`: where `from_timestamp` has no date, and
/// where writing the formatted date fails, which it does on a pattern that
/// `chrono` cannot read.
#[verifier::external_body]
pub(crate) fn format_utc(at: Timestamp, pattern: &str) -> (text: Option<String>)
    ensures
        match text {
            Some(t) => utc_text(at.secs, at.nanos, pattern@) == Some(t@),
            None => utc_text(at.secs, at.nanos, pattern@) is None,
        },
{
    match chrono::DateTime::from_timestamp(at.secs, at.nanos) {
        Some(date) => {
            let mut out = String::new();
            match write!(out, "{}", date.format(pattern)) {
                Ok(()) => Some(out),
                Err(_) => None,
            }
        },
        None => None,
    }
}

} // verus!

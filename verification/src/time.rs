//! Points in time, how they are written, and how long ago they are.

use crate::text::opt_view;
use vstd::prelude::*;

verus! {

/// A point in time: seconds since the epoch, and nanoseconds of the running second.
#[derive(Debug, Clone, Copy, PartialEq, Eq, Structural)]
pub struct Moment {
    pub secs: i64,
    pub nanos: u32,
}

/// What `chrono` writes for a time in UTC, by a pattern.
pub uninterp spec fn written_time(secs: i64, pattern: Seq<char>) -> Option<Seq<char>>;

/// The patterns in use.
pub open spec fn known_pattern(p: Seq<char>) -> bool {
    p == "%m-%d"@ || p == "%Y-%m-%d"@ || p == "%Y-%m-%d %H:%M"@
}

/// `chrono::DateTime::format`, for the time that `chrono::DateTime::from_timestamp` makes
/// of the seconds. Nothing where the seconds lie outside the years that `chrono` knows.
/// The same seconds and the same pattern give the same text.
#[verifier::external_body]
pub(crate) fn time_text(secs: i64, pattern: &str) -> (r: Option<String>)
    requires
        known_pattern(pattern@),
    ensures
        opt_view(r) == written_time(secs, pattern@),
{
    match chrono::DateTime::from_timestamp(secs, 0) {
        Some(t) => Some(t.format(pattern).to_string()),
        None => None,
    }
}

/// `chrono::Utc::now`: the time on the clock of the machine. Nothing is claimed of it.
#[verifier::external_body]
pub(crate) fn clock() -> (m: Moment) {
    let now = chrono::Utc::now();
    Moment { secs: now.timestamp(), nanos: now.timestamp_subsec_nanos() }
}

/// The time in nanoseconds since the epoch.
pub open spec fn nanoseconds(m: Moment) -> int {
    m.secs * 1_000_000_000 + m.nanos
}

/// The whole seconds from one time to a later one, 0 where it is not later.
pub open spec fn elapsed(from: Moment, to: Moment) -> int {
    if nanoseconds(to) > nanoseconds(from) {
        (nanoseconds(to) - nanoseconds(from)) / 1_000_000_000
    } else {
        0
    }
}

/// The whole seconds from one time to a later one, 0 where it is not later.
pub fn seconds_between(from: Moment, to: Moment) -> (r: i128)
    ensures
        r == elapsed(from, to),
{
    let a: i128 = from.secs as i128 * 1_000_000_000 + from.nanos as i128;
    let b: i128 = to.secs as i128 * 1_000_000_000 + to.nanos as i128;
    if b > a {
        (b - a) / 1_000_000_000
    } else {
        0
    }
}

} // verus!

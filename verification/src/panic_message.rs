//! The message that is left of a thread that broke down.

use crate::text::{cat, cat4, decimal, decimal_text};
use vstd::prelude::*;

verus! {

/// Where a thread broke down.
#[derive(Debug)]
pub struct PanicLocation {
    pub file: String,
    pub line: u32,
    pub column: u32,
}

/// A place in a file.
pub open spec fn place_text(l: Option<PanicLocation>) -> Seq<char> {
    match l {
        Some(l) => l.file@ + ":"@ + decimal(l.line as nat) + (":"@ + decimal(l.column as nat)),
        None => "unknown location"@,
    }
}

/// What the thread said.
pub open spec fn payload_text(p: Option<&str>) -> Seq<char> {
    match p {
        Some(p) => p@,
        None => "unknown panic payload"@,
    }
}

/// The calls that led there, on lines of their own.
pub open spec fn trace_text(t: Option<&str>) -> Seq<char> {
    match t {
        Some(t) => "\n"@ + t@,
        None => ""@,
    }
}

/// The message: what the thread said, where, and the calls that led there.
pub open spec fn message_text(
    payload: Option<&str>,
    location: Option<PanicLocation>,
    backtrace: Option<&str>,
) -> Seq<char> {
    "'"@ + payload_text(payload) + "'\n  at "@ + (place_text(location) + trace_text(backtrace))
}

/// The message: what the thread said, where, and the calls that led there.
pub fn format_panic_message(
    payload: Option<&str>,
    location: Option<PanicLocation>,
    backtrace: Option<&str>,
) -> (r: String)
    ensures
        r@ == message_text(payload, location, backtrace),
{
    let said = match payload {
        Some(p) => p,
        None => "unknown panic payload",
    };
    let place = match &location {
        Some(l) => {
            let column = cat(":", decimal_text(l.column as u64).as_str());
            cat4(l.file.as_str(), ":", decimal_text(l.line as u64).as_str(), column.as_str())
        },
        None => "unknown location".to_owned(),
    };
    let trace = match backtrace {
        Some(t) => cat("\n", t),
        None => "".to_owned(),
    };
    let tail = cat(place.as_str(), trace.as_str());
    cat4("'", said, "'\n  at ", tail.as_str())
}

} // verus!

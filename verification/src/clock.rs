//! The clock capability behind timestamp template rules.
//!
//! Rendering is injected as a value: an instant is read once, carried as
//! plain numbers, and rendered through chrono behind a trusted wrapper, so
//! that everything downstream of the clock read is deterministic in the
//! instant.

use vstd::prelude::*;
use std::fmt::Write;

verus! {

/// One instant of local time: seconds and nanoseconds since the Unix epoch,
/// together with the local offset from UTC in seconds.
#[derive(Clone, Copy, Debug, PartialEq, Eq, Structural)]
pub struct LocalInstant {
    pub secs: i64,
    pub nanos: u32,
    pub offset_secs: i32,
}

/// What chrono renders for the instant `(secs, nanos)`, viewed at the UTC
/// offset `offset_secs`, through the strftime-style specification `fmt`;
/// `None` where the instant, the offset or the specification cannot be
/// rendered. The rendering depends on these arguments alone.
pub uninterp spec fn rendered_time(
    secs: int,
    nanos: int,
    offset_secs: int,
    fmt: Seq<char>,
) -> Option<Seq<char>>;

/// The instant `t` rendered through the format specification `fmt`.
pub open spec fn spec_render(t: LocalInstant, fmt: Seq<char>) -> Option<Seq<char>> {
    rendered_time(t.secs as int, t.nanos as int, t.offset_secs as int, fmt)
}

/// Relies on chrono: `DateTime::from_timestamp` and `FixedOffset::east_opt`
/// rebuild the instant (each is `None` on an out-of-range argument),
/// `DateTime::with_timezone` views it at the offset, and `DateTime::format`
/// renders it; writing through `write!` turns a malformed specification into
/// an error instead of a panic. The outcome is a function of the arguments
/// alone.
#[verifier::external_body]
pub(crate) fn render_instant(t: &LocalInstant, fmt: &str) -> (r: Option<String>)
    ensures
        r is Some <==> rendered_time(t.secs as int, t.nanos as int, t.offset_secs as int, fmt@)
            is Some,
        r matches Some(s) ==> rendered_time(
            t.secs as int,
            t.nanos as int,
            t.offset_secs as int,
            fmt@,
        ) == Some(s@),
{
    let dt = chrono::DateTime::from_timestamp(t.secs, t.nanos)?;
    let off = chrono::FixedOffset::east_opt(t.offset_secs)?;
    let shifted = dt.with_timezone(&off);
    let mut out = String::new();
    write!(out, "{}", shifted.format(fmt)).ok()?;
    Some(out)
}

/// Relies on chrono's `Local::now`, read apart into plain numbers through
/// `DateTime::timestamp`, `DateTime::timestamp_subsec_nanos` (at most
/// 1_999_999_999, reached only on a leap second) and
/// `FixedOffset::local_minus_utc`. The result depends on the wall clock:
/// nothing more is assumed of it.
#[verifier::external_body]
pub(crate) fn now_local() -> (t: LocalInstant)
    ensures
        t.nanos < 2_000_000_000,
{
    let now = chrono::Local::now();
    LocalInstant {
        secs: now.timestamp(),
        nanos: now.timestamp_subsec_nanos(),
        offset_secs: now.offset().local_minus_utc(),
    }
}

} // verus!

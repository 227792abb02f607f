//! Points in time.

use time::format_description::well_known::Rfc3339;
use time::OffsetDateTime;
use vstd::prelude::*;

verus! {

/// A point in time, as nanoseconds since the Unix epoch.
#[derive(Clone, Copy, Debug, PartialEq, Eq, Structural)]
pub struct Timestamp {
    pub unix_nanos: i128,
}

/// The current time.
///
/// Calls `time::OffsetDateTime::now_utc` and takes its Unix timestamp in nanoseconds. Nothing is
/// promised of what the clock says.
#[verifier::external_body]
fn now_utc() -> (r: Timestamp) {
    Timestamp { unix_nanos: OffsetDateTime::now_utc().unix_timestamp_nanos() }
}

/// Whether the clock may say that it is `now`.
pub closed spec fn clock_says(now: Timestamp) -> bool {
    call_ensures(now_utc, (), now)
}

/// The current time, as the clock says it.
pub(crate) fn read_clock() -> (r: Timestamp)
    ensures
        clock_says(r),
{
    let clock = now_utc;
    clock()
}

/// The Unix timestamp of an RFC 3339 date and time, or the text of the error with which it is
/// refused.
pub uninterp spec fn rfc3339_timestamp(text: Seq<char>) -> Result<i64, Seq<char>>;

/// Reads an RFC 3339 date and time as a Unix timestamp in seconds.
///
/// Calls `time::OffsetDateTime::parse` with the well-known RFC 3339 format. Trusted: what it
/// reads, or the error's text, depends on the text alone.
#[verifier::external_body]
pub(crate) fn parse_rfc3339(text: &str) -> (r: Result<i64, String>)
    ensures
        match r {
            Ok(seconds) => rfc3339_timestamp(text@) == Ok::<i64, Seq<char>>(seconds),
            Err(err) => rfc3339_timestamp(text@) == Err::<i64, Seq<char>>(err@),
        },
{
    OffsetDateTime::parse(text, &Rfc3339).map(|at| at.unix_timestamp()).map_err(
        |err| err.to_string(),
    )
}

/// What the clock says is what it answers when it is asked for the current time.
proof fn law_the_clock_says_what_it_answers(now: Timestamp)
    ensures
        clock_says(now) <==> call_ensures(now_utc, (), now),
{
}

} // verus!

//! Dates as HTTP headers write them.

use time::format_description::well_known::Rfc2822;
use time::OffsetDateTime;
use vstd::prelude::*;

verus! {

/// The RFC 2822 text of the UTC time `unix_seconds` seconds after the Unix epoch, as
/// the `time` crate writes it, or `None` when it cannot.
pub uninterp spec fn rfc2822_text(unix_seconds: i64) -> Option<Seq<char>>;

/// Formats a time, in seconds since the Unix epoch, as an RFC 2822 date in UTC.
///
/// Calls `time::OffsetDateTime::from_unix_timestamp` and formats the result with
/// `time::format_description::well_known::Rfc2822`; either may fail, for a time out
/// of the range they handle.
#[verifier::external_body]
pub fn format_date(unix_seconds: i64) -> (res: Option<String>)
    ensures
        res is Some <==> rfc2822_text(unix_seconds) is Some,
        res is Some ==> res->Some_0@ == rfc2822_text(unix_seconds)->Some_0,
{
    match OffsetDateTime::from_unix_timestamp(unix_seconds) {
        Ok(date) => date.format(&Rfc2822).ok(),
        Err(_) => None,
    }
}

} // verus!

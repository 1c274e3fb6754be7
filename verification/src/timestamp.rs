//! Instants read from text in the RFC 3339 format.

use vstd::prelude::*;

verus! {

/// Why a text gives no instant.
#[derive(Clone, Copy, Debug, PartialEq, Eq, Structural)]
pub enum TimestampError {
    /// The text is not a date and time in the RFC 3339 format.
    Malformed,
    /// The text is a date and time, but one that a signed 64-bit count of
    /// nanoseconds since the Unix epoch cannot hold.
    OutOfRange,
}

#[verifier::external_type_specification]
#[verifier::external_body]
pub struct ExParseError(chrono::ParseError);

/// What `chrono` makes of a text in the RFC 3339 format: nothing if it
/// refuses the text; else the instant in nanoseconds since the Unix epoch,
/// or nothing in its place if the instant is beyond that count.
pub uninterp spec fn rfc3339_instant(text: Seq<char>) -> Option<Option<i64>>;

/// Calls `DateTime::parse_from_rfc3339` on `text` and, where that gives a
/// date and time, `DateTime::timestamp_nanos_opt` on it. The contract
/// gives the outcome a name and ties the error to the refusal.
#[verifier::external_body]
fn parse_rfc3339(text: &str) -> (parsed: Result<Option<i64>, chrono::ParseError>)
    ensures
        match parsed {
            Ok(instant) => rfc3339_instant(text@) == Some(instant),
            Err(_) => rfc3339_instant(text@).is_none(),
        },
{
    match chrono::DateTime::parse_from_rfc3339(text) {
        Ok(moment) => Ok(moment.timestamp_nanos_opt()),
        Err(refusal) => Err(refusal),
    }
}

/// The instant that an accepted text stands for, if the count of
/// nanoseconds can hold it.
pub open spec fn in_range(found: Option<i64>) -> Result<i64, TimestampError> {
    match found {
        Some(instant) => Ok(instant),
        None => Err(TimestampError::OutOfRange),
    }
}

/// The instant a text stands for.
pub open spec fn instant_of(text: Seq<char>) -> Result<i64, TimestampError> {
    match rfc3339_instant(text) {
        Some(found) => in_range(found),
        None => Err(TimestampError::Malformed),
    }
}

/// Whether a text ends in the letter `Z`.
pub open spec fn ends_in_z(text: Seq<char>) -> bool {
    text.len() > 0 && text.last() == 'Z'
}

/// A time as the measurement store writes it, made into RFC 3339: the
/// store leaves out the zone, which is UTC, so a `Z` is put behind a text
/// that does not end in one.
pub open spec fn row_time_text(text: Seq<char>) -> Seq<char> {
    if ends_in_z(text) {
        text
    } else {
        text.push('Z')
    }
}

/// The instant that a time asked for stands for: that of the text as it
/// is, if it is RFC 3339; else that of the text with a `Z` behind it.
pub open spec fn request_instant(text: Seq<char>) -> Result<i64, TimestampError> {
    match rfc3339_instant(text) {
        Some(found) => in_range(found),
        None => instant_of(text.push('Z')),
    }
}

/// The instant of an accepted text, or the error that it is beyond the
/// count of nanoseconds.
pub fn instant_in_range(found: Option<i64>) -> (instant: Result<i64, TimestampError>)
    ensures
        instant == in_range(found),
{
    match found {
        Some(instant) => Ok(instant),
        None => Err(TimestampError::OutOfRange),
    }
}

/// The instant, in nanoseconds since the Unix epoch, that `text` stands
/// for in the RFC 3339 format.
pub fn parse_instant(text: &str) -> (instant: Result<i64, TimestampError>)
    ensures
        instant == instant_of(text@),
{
    match parse_rfc3339(text) {
        Ok(found) => instant_in_range(found),
        Err(_) => Err(TimestampError::Malformed),
    }
}

/// `text` with a `Z` behind it.
pub fn with_utc_suffix(text: &str) -> (suffixed: String)
    ensures
        suffixed@ == text@.push('Z'),
{
    let mut suffixed = String::from_str(text);
    suffixed.append("Z");
    proof {
        reveal_strlit("Z");
        assert("Z"@ =~= seq!['Z']);
        assert(text@ + seq!['Z'] =~= text@.push('Z'));
    }
    suffixed
}

/// Whether `text` ends in the letter `Z`.
pub fn has_utc_suffix(text: &str) -> (found: bool)
    ensures
        found == ends_in_z(text@),
{
    let length = text.unicode_len();
    length > 0 && text.get_char(length - 1) == 'Z'
}

/// The instant of a time as the measurement store writes it, with or
/// without a `Z` at its end.
pub fn parse_row_time(text: &str) -> (instant: Result<i64, TimestampError>)
    ensures
        instant == instant_of(row_time_text(text@)),
{
    if has_utc_suffix(text) {
        parse_instant(text)
    } else {
        let suffixed = with_utc_suffix(text);
        parse_instant(suffixed.as_str())
    }
}

/// The instant of a time asked for by a user: the text is tried as it is
/// and, if it is not RFC 3339, once more with a `Z` behind it.
pub fn parse_request_time(text: &str) -> (instant: Result<i64, TimestampError>)
    ensures
        instant == request_instant(text@),
{
    match parse_rfc3339(text) {
        Ok(found) => instant_in_range(found),
        Err(_) => {
            let suffixed = with_utc_suffix(text);
            parse_instant(suffixed.as_str())
        },
    }
}

} // verus!

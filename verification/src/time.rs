//! Timestamp decoding. The calendar arithmetic itself is `chrono`'s; each
//! distinct format the bulletins use gets one trusted wrapper whose result is
//! named, and everything around the call - range checks, tick scaling, the
//! timezone-abbreviation table - is verified.
use vstd::prelude::*;

verus! {

use crate::domain::ParseError;
use crate::text::eq_str;
use vstd::string::StringExecFns;

/// Epoch seconds that an ISO-8601 timestamp with an explicit offset denotes,
/// or nothing where the string is not such a timestamp.
pub uninterp spec fn rfc3339_epoch(s: Seq<char>) -> Option<i64>;

/// Relies on `chrono::DateTime::parse_from_rfc3339` and
/// `chrono::DateTime::timestamp`: the outcome depends on the string alone.
#[verifier::external_body]
fn parse_rfc3339_epoch(s: &str) -> (r: Option<i64>)
    ensures
        r == rfc3339_epoch(s@),
{
    match chrono::DateTime::parse_from_rfc3339(s) {
        Ok(dt) => Some(dt.timestamp()),
        Err(_) => None,
    }
}

/// Epoch seconds denoted by the compact `YYMMDD'T'HHMM'Z'` timestamp of a
/// warning's valid range, or nothing where the string does not parse.
pub uninterp spec fn compact_epoch(s: Seq<char>) -> Option<i64>;

/// Relies on `chrono::NaiveDateTime::parse_from_str` with the format
/// `%y%m%dT%H%MZ`, `NaiveDateTime::and_utc` and `DateTime::timestamp`: the
/// outcome depends on the string alone.
#[verifier::external_body]
fn parse_compact_epoch(s: &str) -> (r: Option<i64>)
    ensures
        r == compact_epoch(s@),
{
    match chrono::NaiveDateTime::parse_from_str(s, "%y%m%dT%H%MZ") {
        Ok(dt) => Some(dt.and_utc().timestamp()),
        Err(_) => None,
    }
}

/// Epoch seconds denoted by a storm report's `MM/DD/YYYYHHMM AM/PM+ZZZZ`
/// date-time-offset string, or nothing where the string does not parse.
pub uninterp spec fn report_epoch(s: Seq<char>) -> Option<i64>;

/// Relies on `chrono::DateTime::parse_from_str` with the format
/// `%m/%d/%Y%I%M %p%z` and `DateTime::timestamp`: the outcome depends on the
/// string alone.
#[verifier::external_body]
fn parse_report_epoch(s: &str) -> (r: Option<i64>)
    ensures
        r == report_epoch(s@),
{
    match chrono::DateTime::parse_from_str(s, "%m/%d/%Y%I%M %p%z") {
        Ok(dt) => Some(dt.timestamp()),
        Err(_) => None,
    }
}

/// Epoch seconds denoted by a storm report header line such as
/// `1008 PM +0600 WED MAR 06 2019`, or nothing where the string does not
/// parse.
pub uninterp spec fn header_line_epoch(s: Seq<char>) -> Option<i64>;

/// Relies on `chrono::DateTime::parse_from_str` with the format
/// `%I%M %p %z %a %b %d %Y` and `DateTime::timestamp`: the outcome depends
/// on the string alone.
#[verifier::external_body]
fn parse_header_line_epoch(s: &str) -> (r: Option<i64>)
    ensures
        r == header_line_epoch(s@),
{
    match chrono::DateTime::parse_from_str(s, "%I%M %p %z %a %b %d %Y") {
        Ok(dt) => Some(dt.timestamp()),
        Err(_) => None,
    }
}

/// Microsecond ticks of an epoch-second count, defined exactly where the
/// count is non-negative and the product fits a `u64`.
pub open spec fn micros_of(sec: int) -> Option<u64> {
    if 0 <= sec && sec * 1000000 <= u64::MAX {
        Some((sec * 1000000) as u64)
    } else {
        None
    }
}

/// Millisecond ticks of an epoch-second count, defined exactly where the
/// count is non-negative and the product fits a `u64`.
pub open spec fn millis_of(sec: int) -> Option<u64> {
    if 0 <= sec && sec * 1000 <= u64::MAX {
        Some((sec * 1000) as u64)
    } else {
        None
    }
}

/// Microsecond ticks of an epoch-second count, or nothing out of range.
pub fn secs_to_micros(sec: i64) -> (r: Option<u64>)
    ensures
        r == micros_of(sec as int),
{
    if 0 <= sec && sec <= 18_446_744_073_709i64 {
        Some((sec as u64) * 1_000_000)
    } else {
        proof {
            if sec > 18_446_744_073_709i64 {
                assert(sec * 1000000 > u64::MAX);
            }
        }
        None
    }
}

/// Millisecond ticks of an epoch-second count, or nothing out of range.
pub fn secs_to_millis(sec: i64) -> (r: Option<u64>)
    ensures
        r == millis_of(sec as int),
{
    if 0 <= sec && sec <= 18_446_744_073_709_551i64 {
        Some((sec as u64) * 1_000)
    } else {
        proof {
            if sec > 18_446_744_073_709_551i64 {
                assert(sec * 1000 > u64::MAX);
            }
        }
        None
    }
}

/// What `ts_to_ticks` yields: microsecond ticks of an ISO-8601 timestamp,
/// where it parses and the ticks fit.
pub open spec fn iso_ticks(s: Seq<char>) -> Option<u64> {
    match rfc3339_epoch(s) {
        Some(sec) => micros_of(sec as int),
        None => None,
    }
}

/// Decodes an ISO-8601 timestamp with explicit offset into microsecond ticks
/// since the epoch.
pub fn ts_to_ticks(input: &str) -> (r: Result<u64, ParseError>)
    ensures
        match r {
            Ok(ticks) => iso_ticks(input@) == Some(ticks),
            Err(e) => e matches ParseError::FieldDecode { field } && field@ == input@
                && iso_ticks(input@) is None,
        },
{
    match parse_rfc3339_epoch(input) {
        Some(sec) => match secs_to_micros(sec) {
            Some(ticks) => Ok(ticks),
            None => Err(ParseError::FieldDecode { field: String::from_str(input) }),
        },
        None => Err(ParseError::FieldDecode { field: String::from_str(input) }),
    }
}

/// Epoch seconds of an ISO-8601 timestamp, as `rfc3339_epoch` names them;
/// an error where the string does not parse.
pub fn rfc3339_time_epoch(input: &str) -> (r: Result<i64, ParseError>)
    ensures
        match r {
            Ok(sec) => rfc3339_epoch(input@) == Some(sec),
            Err(e) => e matches ParseError::FieldDecode { field } && field@ == input@
                && rfc3339_epoch(input@) is None,
        },
{
    match parse_rfc3339_epoch(input) {
        Some(sec) => Ok(sec),
        None => Err(ParseError::FieldDecode { field: String::from_str(input) }),
    }
}

/// Epoch seconds of a compact valid-range timestamp, as `compact_epoch`
/// names them; an error where the string does not parse.
pub fn compact_time_epoch(input: &str) -> (r: Result<i64, ParseError>)
    ensures
        match r {
            Ok(sec) => compact_epoch(input@) == Some(sec),
            Err(e) => e matches ParseError::FieldDecode { field } && field@ == input@
                && compact_epoch(input@) is None,
        },
{
    match parse_compact_epoch(input) {
        Some(sec) => Ok(sec),
        None => Err(ParseError::FieldDecode { field: String::from_str(input) }),
    }
}

/// Epoch seconds of a storm report date-time string, as `report_epoch` names
/// them; an error where the string does not parse.
pub fn report_time_epoch(input: &str) -> (r: Result<i64, ParseError>)
    ensures
        match r {
            Ok(sec) => report_epoch(input@) == Some(sec),
            Err(e) => e matches ParseError::FieldDecode { field } && field@ == input@
                && report_epoch(input@) is None,
        },
{
    match parse_report_epoch(input) {
        Some(sec) => Ok(sec),
        None => Err(ParseError::FieldDecode { field: String::from_str(input) }),
    }
}

/// Epoch seconds of a storm report header line, as `header_line_epoch` names
/// them; an error where the string does not parse.
pub fn header_time_epoch(input: &str) -> (r: Result<i64, ParseError>)
    ensures
        match r {
            Ok(sec) => header_line_epoch(input@) == Some(sec),
            Err(e) => e matches ParseError::FieldDecode { field } && field@ == input@
                && header_line_epoch(input@) is None,
        },
{
    match parse_header_line_epoch(input) {
        Some(sec) => Ok(sec),
        None => Err(ParseError::FieldDecode { field: String::from_str(input) }),
    }
}

/// The fixed table resolving a North American timezone abbreviation to its
/// UTC offset in `+HHMM` form.
pub open spec fn tz_offset_spec(s: Seq<char>) -> Option<Seq<char>> {
    if s == "UTC"@ || s == "GMT"@ {
        Some("+0000"@)
    } else if s == "AST"@ {
        Some("-0400"@)
    } else if s == "ADT"@ {
        Some("-0300"@)
    } else if s == "EST"@ {
        Some("-0500"@)
    } else if s == "EDT"@ {
        Some("-0400"@)
    } else if s == "CST"@ {
        Some("-0600"@)
    } else if s == "CDT"@ {
        Some("-0500"@)
    } else if s == "MST"@ {
        Some("-0700"@)
    } else if s == "MDT"@ {
        Some("-0600"@)
    } else if s == "PST"@ {
        Some("-0800"@)
    } else if s == "PDT"@ {
        Some("-0700"@)
    } else if s == "AKST"@ {
        Some("-0900"@)
    } else if s == "AKDT"@ {
        Some("-0800"@)
    } else if s == "HST"@ {
        Some("-1000"@)
    } else if s == "SST"@ {
        Some("-1100"@)
    } else if s == "GST"@ || s == "CHST"@ {
        Some("+1000"@)
    } else {
        None
    }
}

/// Resolves a timezone abbreviation through the fixed offset table.
pub fn tz_to_offset(input: &str) -> (r: Result<String, ParseError>)
    ensures
        match r {
            Ok(off) => tz_offset_spec(input@) == Some(off@),
            Err(e) => e matches ParseError::FieldDecode { field } && field@ == input@
                && tz_offset_spec(input@) is None,
        },
{
    if eq_str(input, "UTC") || eq_str(input, "GMT") {
        Ok(String::from_str("+0000"))
    } else if eq_str(input, "AST") {
        Ok(String::from_str("-0400"))
    } else if eq_str(input, "ADT") {
        Ok(String::from_str("-0300"))
    } else if eq_str(input, "EST") {
        Ok(String::from_str("-0500"))
    } else if eq_str(input, "EDT") {
        Ok(String::from_str("-0400"))
    } else if eq_str(input, "CST") {
        Ok(String::from_str("-0600"))
    } else if eq_str(input, "CDT") {
        Ok(String::from_str("-0500"))
    } else if eq_str(input, "MST") {
        Ok(String::from_str("-0700"))
    } else if eq_str(input, "MDT") {
        Ok(String::from_str("-0600"))
    } else if eq_str(input, "PST") {
        Ok(String::from_str("-0800"))
    } else if eq_str(input, "PDT") {
        Ok(String::from_str("-0700"))
    } else if eq_str(input, "AKST") {
        Ok(String::from_str("-0900"))
    } else if eq_str(input, "AKDT") {
        Ok(String::from_str("-0800"))
    } else if eq_str(input, "HST") {
        Ok(String::from_str("-1000"))
    } else if eq_str(input, "SST") {
        Ok(String::from_str("-1100"))
    } else if eq_str(input, "GST") || eq_str(input, "CHST") {
        Ok(String::from_str("+1000"))
    } else {
        Err(ParseError::FieldDecode { field: String::from_str(input) })
    }
}

} // verus!

//! Shared decoding primitives and the dispatch engine that routes a bulletin
//! to its extractor by product code.
use vstd::prelude::*;

verus! {

use crate::domain::Coordinates;
use crate::domain::Event;
use crate::domain::ParseError;
use crate::domain::Product;
use crate::text::all_digits;
use crate::text::digits_val;
use crate::text::parse_u32_digits;
use crate::text::replace_seq;
use crate::text::replace_str;
use crate::text::trim_seq;
use crate::text::trim_str;
use crate::time::compact_epoch;
use crate::time::micros_of;
use crate::time::secs_to_micros;
use vstd::string::StrSliceExecFns;
use vstd::string::StringExecFns;

/// A compact coordinate numeral: one to nine decimal digits.
pub open spec fn valid_numeral(s: Seq<char>) -> bool {
    1 <= s.len() <= 9 && all_digits(s)
}

/// Signed hundredths of a degree denoted by a coordinate numeral of value
/// `d`. Longitude numerals carry the absolute value of a western longitude,
/// so they are negated, and a value below 5000 first has the dropped leading
/// `1` of a longitude of one hundred degrees or more restored.
pub open spec fn latlon_centi(d: nat, invert: bool) -> int {
    if invert {
        if d < 5000 {
            -((d + 10000) as int)
        } else {
            -(d as int)
        }
    } else {
        d as int
    }
}

/// Law: a latitude numeral of value `d` decodes to `d` hundredths of a
/// degree, that is to `d / 100` degrees.
pub proof fn lemma_latitude_decode(d: nat)
    ensures
        latlon_centi(d, false) == d,
{
}

/// Law: a longitude numeral of value `d` below 5000 decodes to
/// `-(d + 10000)` hundredths of a degree, and one of 5000 or more to `-d`
/// hundredths.
pub proof fn lemma_longitude_decode(d: nat)
    ensures
        d < 5000 ==> latlon_centi(d, true) == -((d + 10000) as int),
        d >= 5000 ==> latlon_centi(d, true) == -(d as int),
{
}

/// Decodes a compact coordinate numeral into signed hundredths of a degree.
pub fn str_to_latlon(input: &str, invert: bool) -> (r: Result<i32, ParseError>)
    ensures
        match r {
            Ok(v) => valid_numeral(input@) && v == latlon_centi(digits_val(input@), invert),
            Err(e) => !valid_numeral(input@) && (e matches ParseError::FieldDecode { field }
                && field@ == input@),
        },
{
    match parse_u32_digits(input) {
        Some(d) => {
            proof {
                crate::text::lemma_digits_val_bound(input@);
                assert(crate::text::pow10(9) == 1000000000) by {
                    reveal_with_fuel(crate::text::pow10, 10);
                }
                crate::text::lemma_pow10_mono(input@.len(), 9);
            }
            if invert {
                let adjusted: u32 = if d < 5000 {
                    d + 10000
                } else {
                    d
                };
                Ok(-(adjusted as i32))
            } else {
                Ok(d as i32)
            }
        },
        None => Err(ParseError::FieldDecode { field: String::from_str(input) }),
    }
}

/// The diagnostic error for a bulletin none of whose mandatory patterns
/// matched the text.
pub fn get_parse_error(text: &str) -> (r: ParseError)
    ensures
        r matches ParseError::PatternMatch { text: t } && t@ == "unable to parse product: "@
            + text@,
{
    let mut msg = String::from_str("unable to parse product: ");
    msg.append(text);
    ParseError::PatternMatch { text: msg }
}

/// Returns the captured text, or the pattern-match error for the bulletin
/// whose expected field was absent.
pub fn cap(m: Option<String>, text: &str) -> (r: Result<String, ParseError>)
    ensures
        match r {
            Ok(s) => m == Some(s),
            Err(e) => m is None && (e matches ParseError::PatternMatch { text: t } && t@
                == "unable to parse product: "@ + text@),
        },
{
    match m {
        Some(s) => Ok(s),
        None => Err(get_parse_error(text)),
    }
}

/// What `short_time_to_ticks` yields: microsecond ticks of a compact
/// `YYMMDD'T'HHMM'Z'` timestamp, where it parses and the ticks fit.
pub open spec fn short_ticks(s: Seq<char>) -> Option<u64> {
    match compact_epoch(s) {
        Some(sec) => micros_of(sec as int),
        None => None,
    }
}

/// Decodes a compact `YYMMDD'T'HHMM'Z'` timestamp into microsecond ticks
/// since the epoch.
pub fn short_time_to_ticks(input: &str) -> (r: Result<u64, ParseError>)
    ensures
        match r {
            Ok(ticks) => short_ticks(input@) == Some(ticks),
            Err(e) => short_ticks(input@) is None && e matches ParseError::FieldDecode { .. },
        },
{
    let sec = match crate::time::compact_time_epoch(input) {
        Ok(sec) => sec,
        Err(e) => {
            return Err(e);
        },
    };
    match secs_to_micros(sec) {
        Some(ticks) => Ok(ticks),
        None => Err(ParseError::FieldDecode { field: String::from_str(input) }),
    }
}

/// Value of a numeral that must fit sixteen bits, such as a storm motion
/// heading or speed.
pub open spec fn u16_of(s: Seq<char>) -> Option<u16> {
    if valid_numeral(s) && digits_val(s) <= u16::MAX {
        Some(digits_val(s) as u16)
    } else {
        None
    }
}

/// Decodes a numeral that must fit sixteen bits.
pub fn parse_u16(s: &str) -> (r: Option<u16>)
    ensures
        r == u16_of(s@),
{
    match parse_u32_digits(s) {
        Some(v) => if v <= 65535 {
            Some(v as u16)
        } else {
            None
        },
        None => None,
    }
}

/// A warning narrative or area list with line breaks removed and runs of two
/// spaces collapsed to one.
pub open spec fn collapse_spec(s: Seq<char>) -> Seq<char> {
    replace_seq(replace_seq(s, "\n"@, Seq::<char>::empty()), "  "@, " "@)
}

/// The same, trimmed at both ends.
pub open spec fn collapse_trim_spec(s: Seq<char>) -> Seq<char> {
    trim_seq(collapse_spec(s))
}

/// An area list with line breaks removed and the ends trimmed, indentation
/// kept.
pub open spec fn strip_newlines_trim_spec(s: Seq<char>) -> Seq<char> {
    trim_seq(replace_seq(s, "\n"@, Seq::<char>::empty()))
}

/// Removes line breaks and collapses runs of two spaces to one.
pub fn collapse_ws(s: &str) -> (r: String)
    ensures
        r@ == collapse_spec(s@),
{
    proof {
        reveal_strlit("\n");
        reveal_strlit("  ");
        reveal_strlit(" ");
        reveal_strlit("");
        assert(""@ =~= Seq::<char>::empty());
    }
    let a = replace_str(s, "\n", "");
    replace_str(a.as_str(), "  ", " ")
}

/// Removes line breaks, collapses runs of two spaces, and trims the ends.
pub fn collapse_ws_trim(s: &str) -> (r: String)
    ensures
        r@ == collapse_trim_spec(s@),
{
    let a = collapse_ws(s);
    trim_str(a.as_str())
}

/// Removes line breaks and trims the ends, keeping indentation.
pub fn strip_newlines_trim(s: &str) -> (r: String)
    ensures
        r@ == strip_newlines_trim_spec(s@),
{
    proof {
        reveal_strlit("\n");
        reveal_strlit("");
        assert(""@ =~= Seq::<char>::empty());
    }
    let a = replace_str(s, "\n", "");
    trim_str(a.as_str())
}

/// The four vertices of a fixed-shape warning polygon, column-sliced at
/// offsets 0, 5, 10, ... within the captured polygon string, each numeral
/// decoded as `latlon_centi`; nothing where the string is too short or a
/// column is not a numeral.
pub open spec fn four_node_poly_spec(s: Seq<char>) -> Option<Seq<Coordinates>> {
    if s.len() >= 39 && valid_numeral(s.subrange(0, 4)) && valid_numeral(s.subrange(5, 9))
        && valid_numeral(s.subrange(10, 14)) && valid_numeral(s.subrange(15, 19)) && valid_numeral(
        s.subrange(20, 24),
    ) && valid_numeral(s.subrange(25, 29)) && valid_numeral(s.subrange(30, 34)) && valid_numeral(
        s.subrange(35, 39),
    ) {
        Some(
            seq![
                Coordinates {
                    lat: latlon_centi(digits_val(s.subrange(0, 4)), false) as i32,
                    lon: latlon_centi(digits_val(s.subrange(5, 9)), true) as i32,
                },
                Coordinates {
                    lat: latlon_centi(digits_val(s.subrange(10, 14)), false) as i32,
                    lon: latlon_centi(digits_val(s.subrange(15, 19)), true) as i32,
                },
                Coordinates {
                    lat: latlon_centi(digits_val(s.subrange(20, 24)), false) as i32,
                    lon: latlon_centi(digits_val(s.subrange(25, 29)), true) as i32,
                },
                Coordinates {
                    lat: latlon_centi(digits_val(s.subrange(30, 34)), false) as i32,
                    lon: latlon_centi(digits_val(s.subrange(35, 39)), true) as i32,
                },
            ],
        )
    } else {
        None
    }
}

/// Decodes the fixed four-vertex polygon string of a warning bulletin.
pub fn decode_four_node_poly(s: &str, bulletin_id: &String) -> (r: Result<
    Vec<Coordinates>,
    ParseError,
>)
    ensures
        match r {
            Ok(v) => four_node_poly_spec(s@) == Some(v@) && v@.len() == 4 && forall|i: int|
                0 <= i < v@.len() ==> (#[trigger] v@[i]).lon <= 0,
            Err(e) => four_node_poly_spec(s@) is None && (e
                matches ParseError::RecoveredFault { bulletin_id: b } && b@ == bulletin_id@),
        },
{
    let n = s.unicode_len();
    if n < 39 {
        return Err(ParseError::RecoveredFault { bulletin_id: bulletin_id.clone() });
    }
    let fault = ParseError::RecoveredFault { bulletin_id: bulletin_id.clone() };
    let lat0 = match str_to_latlon(s.substring_char(0, 4), false) {
        Ok(v) => v,
        Err(_) => {
            return Err(fault);
        },
    };
    let lon0 = match str_to_latlon(s.substring_char(5, 9), true) {
        Ok(v) => v,
        Err(_) => {
            return Err(fault);
        },
    };
    let lat1 = match str_to_latlon(s.substring_char(10, 14), false) {
        Ok(v) => v,
        Err(_) => {
            return Err(fault);
        },
    };
    let lon1 = match str_to_latlon(s.substring_char(15, 19), true) {
        Ok(v) => v,
        Err(_) => {
            return Err(fault);
        },
    };
    let lat2 = match str_to_latlon(s.substring_char(20, 24), false) {
        Ok(v) => v,
        Err(_) => {
            return Err(fault);
        },
    };
    let lon2 = match str_to_latlon(s.substring_char(25, 29), true) {
        Ok(v) => v,
        Err(_) => {
            return Err(fault);
        },
    };
    let lat3 = match str_to_latlon(s.substring_char(30, 34), false) {
        Ok(v) => v,
        Err(_) => {
            return Err(fault);
        },
    };
    let lon3 = match str_to_latlon(s.substring_char(35, 39), true) {
        Ok(v) => v,
        Err(_) => {
            return Err(fault);
        },
    };
    let mut v: Vec<Coordinates> = Vec::new();
    v.push(Coordinates { lat: lat0, lon: lon0 });
    v.push(Coordinates { lat: lat1, lon: lon1 });
    v.push(Coordinates { lat: lat2, lon: lon2 });
    v.push(Coordinates { lat: lat3, lon: lon3 });
    proof {
        assert(four_node_poly_spec(s@) =~= Some(v@));
    }
    Ok(v)
}

/// The product codes the dispatcher has an extractor for.
pub open spec fn known_code(c: Seq<char>) -> bool {
    c == "AFD"@ || c == "LSR"@ || c == "SEL"@ || c == "SVR"@ || c == "SVS"@ || c == "SWO"@ || c
        == "TOR"@ || c == "FFW"@
}

/// Which extractor's outcome the dispatcher owes for each product code; an
/// unknown code is a configuration gap, reported as its own error.
pub open spec fn dispatch_post(product: &Product, r: Result<Option<Event>, ParseError>) -> bool {
    let c = product.product_code@;
    if c == "AFD"@ {
        crate::afd_parser::parse_post(product, r)
    } else if c == "LSR"@ {
        crate::lsr_parser::parse_post(product, r)
    } else if c == "SEL"@ {
        crate::sel_parser::parse_post(product, r)
    } else if c == "SVR"@ {
        crate::svr_parser::parse_post(product, r)
    } else if c == "SVS"@ {
        crate::svs_parser::parse_post(product, r)
    } else if c == "SWO"@ {
        crate::swo_parser::parse_post(product, r)
    } else if c == "TOR"@ {
        crate::tor_parser::parse_post(product, r)
    } else if c == "FFW"@ {
        crate::ffw_parser::parse_post(product, r)
    } else {
        r matches Err(ParseError::UnknownProduct { code }) && code@ == c
    }
}

/// Routes a bulletin to the extractor for its product code; an unknown code
/// is reported as its own error and never a panic. The extractors themselves
/// return every internal fault as a typed error, so one bad bulletin can
/// never take the caller down.
pub fn parse(product: &Product) -> (r: Result<Option<Event>, ParseError>)
    ensures
        dispatch_post(product, r),
{
    let regexes = crate::patterns::Regexes::new();
    let code = product.product_code.as_str();
    if crate::text::eq_str(code, "AFD") {
        crate::afd_parser::parse(product)
    } else if crate::text::eq_str(code, "LSR") {
        crate::lsr_parser::parse(product)
    } else if crate::text::eq_str(code, "SEL") {
        crate::sel_parser::parse(product, regexes)
    } else if crate::text::eq_str(code, "SVR") {
        crate::svr_parser::parse(product, regexes)
    } else if crate::text::eq_str(code, "SVS") {
        crate::svs_parser::parse(product)
    } else if crate::text::eq_str(code, "SWO") {
        crate::swo_parser::parse(product, regexes)
    } else if crate::text::eq_str(code, "TOR") {
        crate::tor_parser::parse(product, regexes)
    } else if crate::text::eq_str(code, "FFW") {
        crate::ffw_parser::parse(product, regexes)
    } else {
        Err(ParseError::UnknownProduct { code: product.product_code.clone() })
    }
}

} // verus!

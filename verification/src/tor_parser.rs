//! Extractor for the tornado warning: like the severe-thunderstorm warning
//! but with a fixed four-vertex polygon, three substring flags, and
//! millisecond event ticks.
use vstd::prelude::*;

verus! {

use crate::domain::Event;
use crate::domain::EventType;
use crate::domain::Location;
use crate::domain::ParseError;
use crate::domain::Product;
use crate::domain::Coordinates;
use crate::domain::Warning;
use crate::domain::wf_event;
use crate::parser::cap;
use crate::parser::decode_four_node_poly;
use crate::parser::four_node_poly_spec;
use crate::parser::latlon_centi;
use crate::parser::parse_u16;
use crate::parser::str_to_latlon;
use crate::parser::strip_newlines_trim;
use crate::parser::strip_newlines_trim_spec;
use crate::parser::u16_of;
use crate::parser::valid_numeral;
use crate::patterns::Regexes;
use crate::patterns::description_pattern;
use crate::patterns::four_node_poly_pattern;
use crate::patterns::movement_pattern;
use crate::patterns::regex_group;
use crate::patterns::regex_group_spec;
use crate::patterns::regexes_wf;
use crate::patterns::source_pattern;
use crate::patterns::valid_pattern;
use crate::patterns::warning_for_pattern;
use crate::svr_parser::pds_needle;
use crate::text::contains_seq;
use crate::text::digits_val;
use crate::text::lower_seq;
use crate::text::contains_lower;
use crate::time::compact_epoch;
use crate::time::millis_of;
use crate::time::rfc3339_epoch;
use crate::time::secs_to_millis;
use vstd::string::StringExecFns;

/// The phrase that flags a tornado emergency.
pub open spec fn emergency_needle() -> Seq<char> {
    "tornado emergency"@
}

/// The phrase that flags an observed (rather than radar-indicated) tornado.
pub open spec fn observed_needle() -> Seq<char> {
    "tornado...observed"@
}

/// Millisecond ticks of an ISO-8601 timestamp, where it parses and fits.
pub open spec fn iso_ticks_ms(s: Seq<char>) -> Option<u64> {
    match rfc3339_epoch(s) {
        Some(sec) => millis_of(sec as int),
        None => None,
    }
}

/// Millisecond ticks of a compact valid-range timestamp, where it parses and
/// fits.
pub open spec fn short_ticks_ms(s: Seq<char>) -> Option<u64> {
    match compact_epoch(s) {
        Some(sec) => millis_of(sec as int),
        None => None,
    }
}

/// Decodes an ISO-8601 timestamp into millisecond ticks since the epoch.
fn ts_to_ticks_ms(input: &str) -> (r: Result<u64, ParseError>)
    ensures
        match r {
            Ok(ticks) => iso_ticks_ms(input@) == Some(ticks),
            Err(e) => iso_ticks_ms(input@) is None && e matches ParseError::FieldDecode { .. },
        },
{
    let sec = match crate::time::rfc3339_time_epoch(input) {
        Ok(sec) => sec,
        Err(e) => {
            return Err(e);
        },
    };
    match secs_to_millis(sec) {
        Some(ticks) => Ok(ticks),
        None => Err(ParseError::FieldDecode { field: String::from_str(input) }),
    }
}

/// Decodes a compact `YYMMDD'T'HHMM'Z'` timestamp into millisecond ticks.
fn short_time_to_ticks_ms(input: &str) -> (r: Result<u64, ParseError>)
    ensures
        match r {
            Ok(ticks) => short_ticks_ms(input@) == Some(ticks),
            Err(e) => short_ticks_ms(input@) is None && e matches ParseError::FieldDecode { .. },
        },
{
    let sec = match crate::time::compact_time_epoch(input) {
        Ok(sec) => sec,
        Err(e) => {
            return Err(e);
        },
    };
    match secs_to_millis(sec) {
        Some(ticks) => Ok(ticks),
        None => Err(ParseError::FieldDecode { field: String::from_str(input) }),
    }
}

/// Every field of a produced tornado-warning event, pinned to the captures
/// and decodings it comes from. The dangerous-situation and emergency flags
/// come from the narrative, the observed flag from the whole body, all three
/// case-insensitively.
pub open spec fn tor_event_ok(product: &Product, e: Event) -> bool {
    let text = product.product_text@;
    let m_time = regex_group_spec(movement_pattern(), "time"@, text);
    let m_deg = regex_group_spec(movement_pattern(), "deg"@, text);
    let m_kt = regex_group_spec(movement_pattern(), "kt"@, text);
    let m_lat = regex_group_spec(movement_pattern(), "lat"@, text);
    let m_lon = regex_group_spec(movement_pattern(), "lon"@, text);
    let desc = regex_group_spec(description_pattern(), "desc"@, text);
    let poly = regex_group_spec(four_node_poly_pattern(), "poly"@, text);
    let src = regex_group_spec(source_pattern(), "src"@, text);
    let begin = regex_group_spec(valid_pattern(), "begin"@, text);
    let endt = regex_group_spec(valid_pattern(), "end"@, text);
    let issued = regex_group_spec(warning_for_pattern(), "for"@, text);
    &&& Some(e.event_ts) == iso_ticks_ms(product.issuance_time@)
    &&& e.event_type == EventType::NwsTor
    &&& e.valid_ts == short_ticks_ms(begin->0)
    &&& e.expires_ts == short_ticks_ms(endt->0)
    &&& e.title@ == product.issuing_office@ + " issues tornado warning"@
    &&& e.text matches Some(t) && t@ == desc->0
    &&& e.location matches Some(loc) && {
        &&& loc.wfo matches Some(w) && w@ == product.issuing_office@
        &&& loc.point matches Some(pt) && pt.lat == latlon_centi(digits_val(m_lat->0), false)
            && pt.lon == latlon_centi(digits_val(m_lon->0), true)
        &&& loc.poly matches Some(p) && Some(p@) == four_node_poly_spec(poly->0)
    }
    &&& e.warning matches Some(w) && {
        &&& w.is_pds == contains_seq(lower_seq(desc->0), lower_seq(pds_needle()))
        &&& w.is_tor_emergency == Some(
            contains_seq(lower_seq(desc->0), lower_seq(emergency_needle())),
        )
        &&& w.was_observed == Some(contains_seq(lower_seq(text), lower_seq(observed_needle())))
        &&& Some(w.motion_deg->0) == u16_of(m_deg->0) && w.motion_deg is Some
        &&& Some(w.motion_kt->0) == u16_of(m_kt->0) && w.motion_kt is Some
        &&& w.source matches Some(s) && s@ == src->0
        &&& w.issued_for@ == strip_newlines_trim_spec(issued->0)
        &&& w.time@ == m_time->0
    }
    &&& e.ext_uri is None
    &&& e.ingest_ts == 0
    &&& e.report is None
    &&& e.watch is None
    &&& e.outlook is None
    &&& wf_event(e)
}

/// Exactly what the tornado-warning extractor does: every pattern is
/// mandatory, the storm point and polygon numerals must decode, the valid
/// range and issuance time must decode with the expiry no earlier than the
/// start, and the motion numbers must fit sixteen bits.
pub open spec fn parse_post(product: &Product, r: Result<Option<Event>, ParseError>) -> bool {
    let text = product.product_text@;
    let m_time = regex_group_spec(movement_pattern(), "time"@, text);
    let m_deg = regex_group_spec(movement_pattern(), "deg"@, text);
    let m_kt = regex_group_spec(movement_pattern(), "kt"@, text);
    let m_lat = regex_group_spec(movement_pattern(), "lat"@, text);
    let m_lon = regex_group_spec(movement_pattern(), "lon"@, text);
    let desc = regex_group_spec(description_pattern(), "desc"@, text);
    let poly = regex_group_spec(four_node_poly_pattern(), "poly"@, text);
    let src = regex_group_spec(source_pattern(), "src"@, text);
    let begin = regex_group_spec(valid_pattern(), "begin"@, text);
    let endt = regex_group_spec(valid_pattern(), "end"@, text);
    let issued = regex_group_spec(warning_for_pattern(), "for"@, text);
    if m_time is None || m_deg is None || m_kt is None || m_lat is None || m_lon is None || desc
        is None || poly is None || src is None {
        r matches Err(ParseError::PatternMatch { text: t }) && t@ == "unable to parse product: "@
            + text
    } else if !valid_numeral(m_lat->0) || !valid_numeral(m_lon->0) {
        r matches Err(ParseError::RecoveredFault { bulletin_id }) && bulletin_id@ == product.id@
    } else if begin is None || endt is None || issued is None {
        r matches Err(ParseError::PatternMatch { text: t }) && t@ == "unable to parse product: "@
            + text
    } else if four_node_poly_spec(poly->0) is None {
        r matches Err(ParseError::RecoveredFault { bulletin_id }) && bulletin_id@ == product.id@
    } else if short_ticks_ms(begin->0) is None || iso_ticks_ms(product.issuance_time@) is None
        || short_ticks_ms(endt->0) is None {
        r matches Err(ParseError::FieldDecode { .. })
    } else if short_ticks_ms(endt->0)->0 < short_ticks_ms(begin->0)->0 {
        r matches Err(ParseError::FieldDecode { .. })
    } else if u16_of(m_deg->0) is None || u16_of(m_kt->0) is None {
        r matches Err(ParseError::FieldDecode { .. })
    } else {
        r matches Ok(Some(e)) && tor_event_ok(product, e)
    }
}

/// Converts a tornado-warning bulletin into its event record.
#[verifier::rlimit(50)]
pub fn parse(product: &Product, regexes: Regexes) -> (r: Result<Option<Event>, ParseError>)
    requires
        regexes_wf(&regexes),
    ensures
        parse_post(product, r),
{
    let text = product.product_text.as_str();
    let m_time = match cap(regex_group(regexes.movement.as_str(), "time", text), text) {
        Ok(s) => s,
        Err(e) => {
            return Err(e);
        },
    };
    let m_deg = match cap(regex_group(regexes.movement.as_str(), "deg", text), text) {
        Ok(s) => s,
        Err(e) => {
            return Err(e);
        },
    };
    let m_kt = match cap(regex_group(regexes.movement.as_str(), "kt", text), text) {
        Ok(s) => s,
        Err(e) => {
            return Err(e);
        },
    };
    let m_lat = match cap(regex_group(regexes.movement.as_str(), "lat", text), text) {
        Ok(s) => s,
        Err(e) => {
            return Err(e);
        },
    };
    let m_lon = match cap(regex_group(regexes.movement.as_str(), "lon", text), text) {
        Ok(s) => s,
        Err(e) => {
            return Err(e);
        },
    };
    let desc = match cap(regex_group(regexes.description.as_str(), "desc", text), text) {
        Ok(s) => s,
        Err(e) => {
            return Err(e);
        },
    };
    let poly = match cap(regex_group(regexes.four_node_poly.as_str(), "poly", text), text) {
        Ok(s) => s,
        Err(e) => {
            return Err(e);
        },
    };
    let src = match cap(regex_group(regexes.source.as_str(), "src", text), text) {
        Ok(s) => s,
        Err(e) => {
            return Err(e);
        },
    };
    let lat = match str_to_latlon(m_lat.as_str(), false) {
        Ok(v) => v,
        Err(_) => {
            return Err(ParseError::RecoveredFault { bulletin_id: product.id.clone() });
        },
    };
    let lon = match str_to_latlon(m_lon.as_str(), true) {
        Ok(v) => v,
        Err(_) => {
            return Err(ParseError::RecoveredFault { bulletin_id: product.id.clone() });
        },
    };
    let begin = match cap(regex_group(regexes.valid.as_str(), "begin", text), text) {
        Ok(s) => s,
        Err(e) => {
            return Err(e);
        },
    };
    let endt = match cap(regex_group(regexes.valid.as_str(), "end", text), text) {
        Ok(s) => s,
        Err(e) => {
            return Err(e);
        },
    };
    let issued = match cap(regex_group(regexes.warning_for.as_str(), "for", text), text) {
        Ok(s) => s,
        Err(e) => {
            return Err(e);
        },
    };
    let issued_for = strip_newlines_trim(issued.as_str());
    let vertices = match decode_four_node_poly(poly.as_str(), &product.id) {
        Ok(v) => v,
        Err(e) => {
            return Err(e);
        },
    };
    let valid_ts = match short_time_to_ticks_ms(begin.as_str()) {
        Ok(t) => t,
        Err(e) => {
            return Err(e);
        },
    };
    let event_ts = match ts_to_ticks_ms(product.issuance_time.as_str()) {
        Ok(t) => t,
        Err(e) => {
            return Err(e);
        },
    };
    let expires_ts = match short_time_to_ticks_ms(endt.as_str()) {
        Ok(t) => t,
        Err(e) => {
            return Err(e);
        },
    };
    if expires_ts < valid_ts {
        return Err(ParseError::FieldDecode { field: String::from_str("valid range") });
    }
    let motion_deg = match parse_u16(m_deg.as_str()) {
        Some(v) => v,
        None => {
            return Err(ParseError::FieldDecode { field: m_deg });
        },
    };
    let motion_kt = match parse_u16(m_kt.as_str()) {
        Some(v) => v,
        None => {
            return Err(ParseError::FieldDecode { field: m_kt });
        },
    };
    let mut title = product.issuing_office.clone();
    title.append(" issues tornado warning");
    let is_pds = contains_lower(desc.as_str(), "particularly dangerous situation");
    let is_tor_emergency = contains_lower(desc.as_str(), "tornado emergency");
    let was_observed = contains_lower(text, "tornado...observed");
    let location = Location {
        wfo: Some(product.issuing_office.clone()),
        point: Some(Coordinates { lat, lon }),
        poly: Some(vertices),
    };
    let warning = Warning {
        is_pds,
        was_observed: Some(was_observed),
        is_tor_emergency: Some(is_tor_emergency),
        motion_deg: Some(motion_deg),
        motion_kt: Some(motion_kt),
        source: Some(src),
        issued_for,
        time: m_time,
    };
    let mut event = Event::new(event_ts, EventType::NwsTor, title);
    event.valid_ts = Some(valid_ts);
    event.expires_ts = Some(expires_ts);
    event.location = Some(location);
    event.warning = Some(warning);
    event.text = Some(desc);
    proof {
        assert(wf_event(event));
        assert(tor_event_ok(product, event));
    }
    Ok(Some(event))
}

} // verus!

//! Extractor for the flash flood warning: no storm motion, a variable-length
//! polygon of latitude-longitude pairs, narrative, valid range and affected
//! areas.
use vstd::prelude::*;

verus! {

use crate::domain::Event;
use crate::domain::EventType;
use crate::domain::Location;
use crate::domain::ParseError;
use crate::domain::Product;
use crate::domain::Coordinates;
use crate::domain::Warning;
use crate::domain::wf_event;
use crate::parser::cap;
use crate::parser::collapse_spec;
use crate::parser::collapse_trim_spec;
use crate::parser::collapse_ws;
use crate::parser::collapse_ws_trim;
use crate::parser::latlon_centi;
use crate::parser::short_ticks;
use crate::parser::short_time_to_ticks;
use crate::parser::str_to_latlon;
use crate::parser::valid_numeral;
use crate::patterns::Regexes;
use crate::patterns::description_pattern;
use crate::patterns::poly_pattern;
use crate::patterns::regex_find_split;
use crate::patterns::regex_group;
use crate::patterns::regex_group_spec;
use crate::patterns::regex_split_spec;
use crate::patterns::regexes_wf;
use crate::patterns::valid_pattern;
use crate::patterns::warning_for_pattern;
use crate::svr_parser::pds_needle;
use crate::text::contains_seq;
use crate::text::digits_val;
use crate::text::lower_seq;
use crate::text::contains_lower;
use crate::text::split_char;
use crate::text::split_char_str;
use crate::time::iso_ticks;
use crate::time::ts_to_ticks;
use vstd::string::StringExecFns;

/// Every pair-shaped match of the polygon pattern, scanning left to right.
pub open spec fn poly_matches(text: Seq<char>) -> Seq<Seq<char>>
    decreases text.len(),
{
    match regex_split_spec(poly_pattern(), text) {
        None => Seq::<Seq<char>>::empty(),
        Some(p) => if p.0.len() > 0 && p.1.len() < text.len() {
            seq![p.0] + poly_matches(p.1)
        } else {
            seq![p.0]
        },
    }
}

/// The vertex a matched pair denotes: the first numeral is the latitude, the
/// second the longitude, decoded as `latlon_centi`.
pub open spec fn vertex_of(pair: Seq<char>) -> Option<Coordinates> {
    let toks = split_char(pair, ' ');
    if toks.len() >= 2 && valid_numeral(toks[0]) && valid_numeral(toks[1]) {
        Some(
            Coordinates {
                lat: latlon_centi(digits_val(toks[0]), false) as i32,
                lon: latlon_centi(digits_val(toks[1]), true) as i32,
            },
        )
    } else {
        None
    }
}

/// Every matched pair denotes a vertex.
pub open spec fn vertices_ok(pairs: Seq<Seq<char>>) -> bool {
    forall|i: int| 0 <= i < pairs.len() ==> (#[trigger] vertex_of(pairs[i])) is Some
}

/// The polygon the matched pairs denote.
pub open spec fn vertices_of(pairs: Seq<Seq<char>>) -> Seq<Coordinates> {
    Seq::new(pairs.len(), |i: int| vertex_of(pairs[i])->0)
}

/// Collects every pair-shaped polygon match of the text, in order.
fn collect_pairs(pattern: &str, text: &str) -> (r: Vec<String>)
    requires
        pattern@ == poly_pattern(),
    ensures
        r.deep_view() == poly_matches(text@),
    decreases text@.len(),
{
    match regex_find_split(pattern, text) {
        None => {
            let empty: Vec<String> = Vec::new();
            proof {
                assert(empty.deep_view() =~= poly_matches(text@));
            }
            empty
        },
        Some((m, rest)) => {
            let m_len = crate::text::char_len(m.as_str());
            let rest_len = crate::text::char_len(rest.as_str());
            let text_len = crate::text::char_len(text);
            if m_len > 0 && rest_len < text_len {
                let mut r = collect_pairs(pattern, rest.as_str());
                r.insert(0, m);
                proof {
                    assert(r.deep_view() =~= poly_matches(text@));
                }
                r
            } else {
                let mut one: Vec<String> = Vec::new();
                one.push(m);
                proof {
                    assert(one.deep_view() =~= poly_matches(text@));
                }
                one
            }
        },
    }
}

/// Decodes every matched pair into a vertex.
fn decode_vertices(pairs: &Vec<String>, bulletin_id: &String) -> (r: Result<
    Vec<Coordinates>,
    ParseError,
>)
    ensures
        match r {
            Ok(v) => vertices_ok(pairs.deep_view()) && v@ == vertices_of(pairs.deep_view())
                && v@.len() == pairs.deep_view().len() && forall|i: int|
                0 <= i < v@.len() ==> (#[trigger] v@[i]).lon <= 0,
            Err(e) => !vertices_ok(pairs.deep_view()) && (e
                matches ParseError::RecoveredFault { bulletin_id: b } && b@ == bulletin_id@),
        },
{
    let ghost dv = pairs.deep_view();
    let mut out: Vec<Coordinates> = Vec::new();
    let mut k: usize = 0;
    while k < pairs.len()
        invariant
            0 <= k <= pairs.len(),
            dv == pairs.deep_view(),
            dv.len() == pairs.len(),
            out@.len() == k,
            forall|j: int| 0 <= j < k ==> (#[trigger] vertex_of(dv[j])) is Some,
            forall|j: int| 0 <= j < k ==> out@[j] == vertex_of(dv[j])->0,
            forall|j: int| 0 <= j < k ==> (#[trigger] out@[j]).lon <= 0,
        decreases pairs.len() - k,
    {
        assert(pairs@[k as int]@ == dv[k as int]);
        let toks = split_char_str(pairs[k].as_str(), ' ');
        if toks.len() < 2 {
            proof {
                assert(vertex_of(dv[k as int]) is None);
            }
            return Err(ParseError::RecoveredFault { bulletin_id: bulletin_id.clone() });
        }
        assert(toks@[0]@ == split_char(dv[k as int], ' ')[0]);
        assert(toks@[1]@ == split_char(dv[k as int], ' ')[1]);
        let lat = match str_to_latlon(toks[0].as_str(), false) {
            Ok(v) => v,
            Err(_) => {
                proof {
                    assert(vertex_of(dv[k as int]) is None);
                }
                return Err(ParseError::RecoveredFault { bulletin_id: bulletin_id.clone() });
            },
        };
        let lon = match str_to_latlon(toks[1].as_str(), true) {
            Ok(v) => v,
            Err(_) => {
                proof {
                    assert(vertex_of(dv[k as int]) is None);
                }
                return Err(ParseError::RecoveredFault { bulletin_id: bulletin_id.clone() });
            },
        };
        out.push(Coordinates { lat, lon });
        k += 1;
    }
    proof {
        assert(out@ =~= vertices_of(dv));
    }
    Ok(out)
}

/// Every field of a produced flash-flood event, pinned to the captures and
/// decodings it comes from.
pub open spec fn ffw_event_ok(product: &Product, e: Event) -> bool {
    let text = product.product_text@;
    let desc = regex_group_spec(description_pattern(), "desc"@, text);
    let begin = regex_group_spec(valid_pattern(), "begin"@, text);
    let endt = regex_group_spec(valid_pattern(), "end"@, text);
    let issued = regex_group_spec(warning_for_pattern(), "for"@, text);
    let narrative = collapse_spec(desc->0);
    &&& Some(e.event_ts) == iso_ticks(product.issuance_time@)
    &&& e.event_type == EventType::NwsFfw
    &&& e.valid_ts == short_ticks(begin->0)
    &&& e.expires_ts == short_ticks(endt->0)
    &&& e.title@ == product.issuing_office@ + " issues Flash Flood Warning"@
    &&& e.text matches Some(t) && t@ == narrative
    &&& e.location matches Some(loc) && {
        &&& loc.wfo matches Some(w) && w@ == product.issuing_office@
        &&& loc.point is None
        &&& loc.poly matches Some(p) && p@ == vertices_of(poly_matches(text))
    }
    &&& e.warning matches Some(w) && {
        &&& w.is_pds == contains_seq(lower_seq(narrative), lower_seq(pds_needle()))
        &&& w.was_observed is None
        &&& w.is_tor_emergency is None
        &&& w.motion_deg is None
        &&& w.motion_kt is None
        &&& w.source is None
        &&& w.issued_for@ == collapse_trim_spec(issued->0)
        &&& w.time@ == Seq::<char>::empty()
    }
    &&& e.ext_uri is None
    &&& e.ingest_ts == 0
    &&& e.report is None
    &&& e.watch is None
    &&& e.outlook is None
    &&& wf_event(e)
}

/// Exactly what the flash-flood extractor does: narrative, valid range and
/// area list are mandatory, every polygon pair must decode, the polygon must
/// have at least three vertices, and the valid range and issuance time must
/// decode with the expiry no earlier than the start.
pub open spec fn parse_post(product: &Product, r: Result<Option<Event>, ParseError>) -> bool {
    let text = product.product_text@;
    let desc = regex_group_spec(description_pattern(), "desc"@, text);
    let begin = regex_group_spec(valid_pattern(), "begin"@, text);
    let endt = regex_group_spec(valid_pattern(), "end"@, text);
    let issued = regex_group_spec(warning_for_pattern(), "for"@, text);
    if desc is None || begin is None || endt is None || issued is None {
        r matches Err(ParseError::PatternMatch { text: t }) && t@ == "unable to parse product: "@
            + text
    } else if !vertices_ok(poly_matches(text)) {
        r matches Err(ParseError::RecoveredFault { bulletin_id }) && bulletin_id@ == product.id@
    } else if poly_matches(text).len() < 3 {
        r matches Err(ParseError::FieldDecode { .. })
    } else if short_ticks(begin->0) is None || iso_ticks(product.issuance_time@) is None
        || short_ticks(endt->0) is None {
        r matches Err(ParseError::FieldDecode { .. })
    } else if short_ticks(endt->0)->0 < short_ticks(begin->0)->0 {
        r matches Err(ParseError::FieldDecode { .. })
    } else {
        r matches Ok(Some(e)) && ffw_event_ok(product, e)
    }
}

/// Converts a flash-flood-warning bulletin into its event record.
#[verifier::rlimit(50)]
pub fn parse(product: &Product, regexes: Regexes) -> (r: Result<Option<Event>, ParseError>)
    requires
        regexes_wf(&regexes),
    ensures
        parse_post(product, r),
{
    let text = product.product_text.as_str();
    let desc = match cap(regex_group(regexes.description.as_str(), "desc", text), text) {
        Ok(s) => s,
        Err(e) => {
            return Err(e);
        },
    };
    let begin = match cap(regex_group(regexes.valid.as_str(), "begin", text), text) {
        Ok(s) => s,
        Err(e) => {
            return Err(e);
        },
    };
    let endt = match cap(regex_group(regexes.valid.as_str(), "end", text), text) {
        Ok(s) => s,
        Err(e) => {
            return Err(e);
        },
    };
    let issued = match cap(regex_group(regexes.warning_for.as_str(), "for", text), text) {
        Ok(s) => s,
        Err(e) => {
            return Err(e);
        },
    };
    let issued_for = collapse_ws_trim(issued.as_str());
    let narrative = collapse_ws(desc.as_str());
    let pairs = collect_pairs(regexes.poly.as_str(), text);
    let vertices = match decode_vertices(&pairs, &product.id) {
        Ok(v) => v,
        Err(e) => {
            return Err(e);
        },
    };
    if vertices.len() < 3 {
        return Err(ParseError::FieldDecode { field: String::from_str("polygon") });
    }
    let valid_ts = match short_time_to_ticks(begin.as_str()) {
        Ok(t) => t,
        Err(e) => {
            return Err(e);
        },
    };
    let event_ts = match ts_to_ticks(product.issuance_time.as_str()) {
        Ok(t) => t,
        Err(e) => {
            return Err(e);
        },
    };
    let expires_ts = match short_time_to_ticks(endt.as_str()) {
        Ok(t) => t,
        Err(e) => {
            return Err(e);
        },
    };
    if expires_ts < valid_ts {
        return Err(ParseError::FieldDecode { field: String::from_str("valid range") });
    }
    let mut title = product.issuing_office.clone();
    title.append(" issues Flash Flood Warning");
    let is_pds = contains_lower(narrative.as_str(), "particularly dangerous situation");
    let location = Location {
        wfo: Some(product.issuing_office.clone()),
        point: None,
        poly: Some(vertices),
    };
    let warning = Warning {
        is_pds,
        was_observed: None,
        is_tor_emergency: None,
        motion_deg: None,
        motion_kt: None,
        source: None,
        issued_for,
        time: String::new(),
    };
    let mut event = Event::new(event_ts, EventType::NwsFfw, title);
    event.valid_ts = Some(valid_ts);
    event.expires_ts = Some(expires_ts);
    event.location = Some(location);
    event.warning = Some(warning);
    event.text = Some(narrative);
    proof {
        assert(wf_event(event));
        assert(ffw_event_ok(product, event));
    }
    Ok(Some(event))
}

} // verus!

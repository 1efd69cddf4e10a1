//! Extractor for the mesoscale discussion / outlook: the discussion number,
//! the affected-area block and the attention list, with an optional
//! probability-of-watch-issuance figure.
use vstd::prelude::*;

verus! {

use crate::domain::Event;
use crate::domain::EventType;
use crate::domain::Outlook;
use crate::domain::ParseError;
use crate::domain::Product;
use crate::domain::wf_event;
use crate::parser::cap;
use crate::parser::collapse_trim_spec;
use crate::parser::collapse_ws_trim;
use crate::parser::parse_u16;
use crate::parser::u16_of;
use crate::patterns::Regexes;
use crate::patterns::affected_pattern;
use crate::patterns::md_number_pattern;
use crate::patterns::probability_pattern;
use crate::patterns::regex_group;
use crate::patterns::regex_group_spec;
use crate::patterns::regexes_wf;
use crate::patterns::wfos_pattern;
use crate::text::trim_seq;
use crate::text::trim_str;
use crate::time::iso_ticks;
use crate::time::ts_to_ticks;
use vstd::string::StringExecFns;

/// Every field of a produced outlook event, pinned to the captures it comes
/// from.
pub open spec fn swo_event_ok(product: &Product, e: Event) -> bool {
    let text = product.product_text@;
    let id = regex_group_spec(md_number_pattern(), "num"@, text);
    let areas = regex_group_spec(affected_pattern(), "areas"@, text);
    let wfos = regex_group_spec(wfos_pattern(), "wfos"@, text);
    let prob = regex_group_spec(probability_pattern(), "prob"@, text);
    &&& Some(e.event_ts) == iso_ticks(product.issuance_time@)
    &&& e.event_type == EventType::NwsSwo
    &&& e.title@ == product.issuing_office@ + " issues Mesoscale Discussion "@ + id->0
    &&& e.outlook matches Some(o) && {
        &&& Some(Some(o.id)) == Some(u16_of(id->0))
        &&& o.probability == (match prob {
            Some(p) => u16_of(p),
            None => None,
        })
        &&& o.wfos@ == trim_seq(wfos->0)
        &&& o.areas@ == collapse_trim_spec(areas->0)
    }
    &&& e.expires_ts is None
    &&& e.valid_ts is None
    &&& e.ext_uri is None
    &&& e.ingest_ts == 0
    &&& e.location is None
    &&& e.watch is None
    &&& e.report is None
    &&& e.text is None
    &&& e.warning is None
    &&& wf_event(e)
}

/// Exactly what the outlook extractor does: the discussion number, the
/// affected-area block and the attention list are mandatory; the number and
/// any probability figure must fit sixteen bits.
pub open spec fn parse_post(product: &Product, r: Result<Option<Event>, ParseError>) -> bool {
    let text = product.product_text@;
    let id = regex_group_spec(md_number_pattern(), "num"@, text);
    let areas = regex_group_spec(affected_pattern(), "areas"@, text);
    let wfos = regex_group_spec(wfos_pattern(), "wfos"@, text);
    let prob = regex_group_spec(probability_pattern(), "prob"@, text);
    if id is None || areas is None || wfos is None {
        r matches Err(ParseError::PatternMatch { text: t }) && t@ == "unable to parse product: "@
            + text
    } else if iso_ticks(product.issuance_time@) is None {
        r matches Err(ParseError::FieldDecode { .. })
    } else if u16_of(id->0) is None {
        r matches Err(ParseError::FieldDecode { .. })
    } else if prob matches Some(p) && u16_of(p) is None {
        r matches Err(ParseError::FieldDecode { .. })
    } else {
        r matches Ok(Some(e)) && swo_event_ok(product, e)
    }
}

/// Converts a mesoscale-discussion bulletin into its event record.
pub fn parse(product: &Product, regexes: Regexes) -> (r: Result<Option<Event>, ParseError>)
    requires
        regexes_wf(&regexes),
    ensures
        parse_post(product, r),
{
    let text = product.product_text.as_str();
    let id_str = match cap(regex_group(regexes.md_number.as_str(), "num", text), text) {
        Ok(s) => s,
        Err(e) => {
            return Err(e);
        },
    };
    let areas_str = match cap(regex_group(regexes.affected.as_str(), "areas", text), text) {
        Ok(s) => s,
        Err(e) => {
            return Err(e);
        },
    };
    let wfos_str = match cap(regex_group(regexes.wfos.as_str(), "wfos", text), text) {
        Ok(s) => s,
        Err(e) => {
            return Err(e);
        },
    };
    let event_ts = match ts_to_ticks(product.issuance_time.as_str()) {
        Ok(t) => t,
        Err(e) => {
            return Err(e);
        },
    };
    let id = match parse_u16(id_str.as_str()) {
        Some(v) => v,
        None => {
            return Err(ParseError::FieldDecode { field: id_str });
        },
    };
    let probability: Option<u16> = match regex_group(regexes.probability.as_str(), "prob", text) {
        Some(p) => match parse_u16(p.as_str()) {
            Some(v) => Some(v),
            None => {
                return Err(ParseError::FieldDecode { field: p });
            },
        },
        None => None,
    };
    let mut title = product.issuing_office.clone();
    title.append(" issues Mesoscale Discussion ");
    title.append(id_str.as_str());
    let outlook = Outlook {
        id,
        probability,
        wfos: trim_str(wfos_str.as_str()),
        areas: collapse_ws_trim(areas_str.as_str()),
    };
    let mut event = Event::new(event_ts, EventType::NwsSwo, title);
    event.outlook = Some(outlook);
    Ok(Some(event))
}

} // verus!

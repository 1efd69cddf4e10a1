//! Extractor for the area forecast discussion: no structural parsing of the
//! free-text body; the issuing office and issuance time alone drive the
//! event.
use vstd::prelude::*;

verus! {

use crate::domain::Event;
use crate::domain::EventType;
use crate::domain::ParseError;
use crate::domain::Product;
use crate::domain::wf_event;
use crate::time::iso_ticks;
use crate::time::ts_to_ticks;
use vstd::string::StringExecFns;

/// Exactly what the forecast-discussion extractor produces: an event for
/// every bulletin whose issuance time decodes, carrying only the timestamp,
/// the title convention and the bulletin's external link.
pub open spec fn parse_post(product: &Product, r: Result<Option<Event>, ParseError>) -> bool {
    match iso_ticks(product.issuance_time@) {
        Some(ts) => r matches Ok(Some(e)) && {
            &&& e.event_ts == ts
            &&& e.event_type == EventType::NwsAfd
            &&& e.title@ == "Area Forecast Discussion ("@ + product.issuing_office@ + ")"@
            &&& e.ext_uri matches Some(u) && u@ == product._id@
            &&& e.expires_ts is None
            &&& e.valid_ts is None
            &&& e.ingest_ts == 0
            &&& e.location is None
            &&& e.outlook is None
            &&& e.report is None
            &&& e.text is None
            &&& e.warning is None
            &&& e.watch is None
            &&& wf_event(e)
        },
        None => r matches Err(ParseError::FieldDecode { .. }),
    }
}

/// Converts a forecast-discussion bulletin into its event record.
pub fn parse(product: &Product) -> (r: Result<Option<Event>, ParseError>)
    ensures
        parse_post(product, r),
{
    let event_ts = match ts_to_ticks(product.issuance_time.as_str()) {
        Ok(ts) => ts,
        Err(e) => {
            return Err(e);
        },
    };
    let mut title = String::from_str("Area Forecast Discussion (");
    title.append(product.issuing_office.as_str());
    title.append(")");
    let mut event = Event::new(event_ts, EventType::NwsAfd, title);
    event.ext_uri = Some(product._id.clone());
    Ok(Some(event))
}

} // verus!

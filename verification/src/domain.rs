//! Domain model: the bulletin record handed to the engine, the event record
//! it produces, the nested value types, and the error taxonomy.
//!
//! Coordinates and magnitudes are carried as integers in hundredths of a
//! unit (a latitude of 39.77 degrees is the value 3977), so that every
//! decoded quantity is exact.
use vstd::prelude::*;

verus! {

/// A raw bulletin fetched in full, as handed to the parsing engine.
#[derive(Debug, Clone)]
pub struct Product {
    pub _id: String,
    pub id: String,
    pub wmo_collective_id: String,
    pub issuing_office: String,
    pub issuance_time: String,
    pub product_code: String,
    pub product_name: String,
    pub product_text: String,
}

/// One entry of a product listing: everything but the body.
#[derive(Debug, Clone)]
pub struct ListProduct {
    pub _id: String,
    pub id: String,
    pub wmo_collective_id: String,
    pub issuing_office: String,
    pub issuance_time: String,
    pub product_code: String,
    pub product_name: String,
}

/// The vocabulary object of a product listing document.
#[derive(Debug, Clone)]
pub struct Context {
    pub _vocab: String,
}

/// A product listing: newest bulletins first.
#[derive(Debug, Clone)]
pub struct ProductsResult {
    pub _context: Context,
    pub products: Vec<ListProduct>,
}

/// One tag per bulletin type the dispatcher recognizes.
#[derive(Debug, Clone, Copy, PartialEq, Eq, Structural)]
pub enum EventType {
    NwsAfd,
    NwsFfw,
    NwsLsr,
    NwsSel,
    NwsSvr,
    NwsSvs,
    NwsSwo,
    NwsTor,
}

/// Units a storm-report magnitude is given in.
#[derive(Debug, Clone, Copy, PartialEq, Eq, Structural)]
pub enum Units {
    Mph,
    Inches,
}

/// Ground-truth hazard kind of a storm report. Unknown hazard strings never
/// fail a parse; they degrade to `Other`.
#[derive(Debug, Clone, PartialEq, Eq)]
pub enum HazardType {
    Tornado,
    Hail,
    Flood,
    FreezingRain,
    Other { kind: String },
}

/// A point in signed hundredths of a degree; north and east positive.
#[derive(Debug, Clone, Copy, PartialEq, Eq, Structural)]
pub struct Coordinates {
    pub lat: i32,
    pub lon: i32,
}

/// Where an event applies: issuing office, a point, a polygon, or any mix.
#[derive(Debug, Clone, PartialEq)]
pub struct Location {
    pub wfo: Option<String>,
    pub point: Option<Coordinates>,
    pub poly: Option<Vec<Coordinates>>,
}

/// Structured attributes of a severe-weather warning. Booleans and optional
/// fields default to unknown, never guessed.
#[derive(Debug, Clone, PartialEq)]
pub struct Warning {
    pub is_pds: bool,
    pub was_observed: Option<bool>,
    pub is_tor_emergency: Option<bool>,
    pub motion_deg: Option<u16>,
    pub motion_kt: Option<u16>,
    pub source: Option<String>,
    pub issued_for: String,
    pub time: String,
}

/// A ground-truth storm report. The magnitude is in hundredths of the unit.
#[derive(Debug, Clone, PartialEq)]
pub struct Report {
    pub hazard: HazardType,
    pub magnitude: Option<u32>,
    pub units: Option<Units>,
    pub was_measured: Option<bool>,
    pub reporter: String,
    pub report_ts: Option<u64>,
}

/// A severe-thunderstorm or tornado watch.
#[derive(Debug, Clone, PartialEq)]
pub struct Watch {
    pub id: u16,
    pub probability: Option<u16>,
    pub wfos: String,
    pub areas: String,
}

/// A mesoscale discussion or outlook.
#[derive(Debug, Clone, PartialEq)]
pub struct Outlook {
    pub id: u16,
    pub probability: Option<u16>,
    pub wfos: String,
    pub areas: String,
}

/// The normalized event record an extractor produces. Timestamps are ticks
/// since the epoch: microseconds for every product except the tornado
/// warning, which keeps millisecond ticks.
#[derive(Debug, Clone, PartialEq)]
pub struct Event {
    pub event_ts: u64,
    pub event_type: EventType,
    pub expires_ts: Option<u64>,
    pub ext_uri: Option<String>,
    pub ingest_ts: u64,
    pub location: Option<Location>,
    pub outlook: Option<Outlook>,
    pub report: Option<Report>,
    pub text: Option<String>,
    pub title: String,
    pub valid_ts: Option<u64>,
    pub warning: Option<Warning>,
    pub watch: Option<Watch>,
}

impl Event {
    /// A bare event carrying only its timestamp, type and title.
    pub fn new(event_ts: u64, event_type: EventType, title: String) -> (e: Event)
        ensures
            e.event_ts == event_ts,
            e.event_type == event_type,
            e.title == title,
            e.expires_ts is None,
            e.ext_uri is None,
            e.ingest_ts == 0,
            e.location is None,
            e.outlook is None,
            e.report is None,
            e.text is None,
            e.valid_ts is None,
            e.warning is None,
            e.watch is None,
    {
        Event {
            event_ts,
            event_type,
            expires_ts: None,
            ext_uri: None,
            ingest_ts: 0,
            location: None,
            outlook: None,
            report: None,
            text: None,
            title,
            valid_ts: None,
            warning: None,
            watch: None,
        }
    }
}

/// Why a parse failed. A stale storm report is not an error: it is the
/// `Ok(None)` outcome of its extractor.
#[derive(Debug, Clone, PartialEq)]
pub enum ParseError {
    /// The body does not have the minimum expected shape.
    StructureError { reason: String },
    /// A mandatory pattern failed to match; carries the raw text.
    PatternMatch { text: String },
    /// A captured field failed numeric or time decoding.
    FieldDecode { field: String },
    /// The dispatcher has no extractor for this product code.
    UnknownProduct { code: String },
    /// An internal fault was reported at the dispatch boundary.
    RecoveredFault { bulletin_id: String },
}

/// A decoded location is well formed: a polygon has at least three vertices
/// and every decoded longitude lies in the western hemisphere.
pub open spec fn wf_location(loc: Location) -> bool {
    &&& match loc.poly {
        Some(p) => p@.len() >= 3 && forall|i: int| 0 <= i < p@.len() ==> (#[trigger] p@[i]).lon <= 0,
        None => true,
    }
    &&& match loc.point {
        Some(pt) => pt.lon <= 0,
        None => true,
    }
}

/// A produced event is well formed: its expiry never precedes its validity
/// start, and its location is well formed.
pub open spec fn wf_event(e: Event) -> bool {
    &&& match (e.valid_ts, e.expires_ts) {
        (Some(v), Some(x)) => x >= v,
        _ => true,
    }
    &&& match e.location {
        Some(loc) => wf_location(loc),
        None => true,
    }
}

} // verus!

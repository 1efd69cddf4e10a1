//! Extractor for the local storm report: a line-oriented, column-aligned
//! multi-record bulletin of which only the first (most recent) record is
//! parsed, guarded by a freshness filter.
use vstd::prelude::*;

verus! {

use crate::domain::Event;
use crate::domain::EventType;
use crate::domain::HazardType;
use crate::domain::Location;
use crate::domain::Coordinates;
use crate::domain::ParseError;
use crate::domain::Product;
use crate::domain::Report;
use crate::domain::Units;
use crate::domain::wf_event;
use crate::text::all_digits;
use crate::text::char_len;
use crate::text::contains_seq;
use crate::text::contains_sub;
use crate::text::digits_val;
use crate::text::find_char;
use crate::text::find_first;
use crate::text::is_space;
use crate::text::lines_of;
use crate::text::parse_u32_digits;
use crate::text::replace_seq;
use crate::text::replace_str;
use crate::text::split_char;
use crate::text::split_char_str;
use crate::text::split_lines;
use crate::text::trim_seq;
use crate::text::trim_str;
use crate::time::iso_ticks;
use crate::time::micros_of;
use crate::time::report_epoch;
use crate::time::header_line_epoch;
use crate::time::secs_to_micros;
use crate::time::tz_offset_spec;
use crate::time::tz_to_offset;
use crate::time::ts_to_ticks;
use vstd::string::StrSliceExecFns;
use vstd::string::StringExecFns;

/// A report older than this many microseconds at issuance is stale.
pub const AGE_THRESHOLD_MICROS: u64 = 3_600_000_000;

/// The marker line introducing the remarks column of the record table.
pub open spec fn remarks_marker() -> Seq<char> {
    "..REMARKS.."@
}

/// The end-of-records marker.
pub open spec fn end_marker() -> Seq<char> {
    "&&"@
}

/// Index of the last line containing the marker, or -1 where none does.
pub open spec fn last_marker_index(ls: Seq<Seq<char>>, marker: Seq<char>) -> int
    decreases ls.len(),
{
    if ls.len() == 0 {
        -1
    } else if contains_seq(ls.last(), marker) {
        ls.len() - 1
    } else {
        last_marker_index(ls.drop_last(), marker)
    }
}

/// The last-marker index lies inside the line list and points at a line
/// containing the marker.
pub proof fn lemma_last_marker(ls: Seq<Seq<char>>, marker: Seq<char>)
    ensures
        -1 <= last_marker_index(ls, marker) < ls.len(),
        last_marker_index(ls, marker) >= 0 ==> contains_seq(
            ls[last_marker_index(ls, marker)],
            marker,
        ),
    decreases ls.len(),
{
    if ls.len() > 0 && !contains_seq(ls.last(), marker) {
        lemma_last_marker(ls.drop_last(), marker);
        let i = last_marker_index(ls.drop_last(), marker);
        if i >= 0 {
            assert(ls.drop_last()[i] == ls[i]);
        }
    }
}

/// The structural check a storm-report body must pass, with the reason it
/// fails: enough lines, not a summary bulletin, both section markers
/// present, and both fixed-width detail lines present and wide enough.
pub open spec fn skeleton_err(text: Seq<char>) -> Option<Seq<char>> {
    let ls = lines_of(text);
    let ri = last_marker_index(ls, remarks_marker());
    let ei = last_marker_index(ls, end_marker());
    if ls.len() < 16 {
        Some("invalid LSR body: too few lines"@)
    } else if contains_seq(ls[5], "SUMMARY"@) {
        Some("summary LSR should be skipped"@)
    } else if ri < 0 {
        Some("invalid LSR body: missing REMARKS"@)
    } else if ei < 0 {
        Some("invalid LSR body: missing &&"@)
    } else if ri + 3 >= ls.len() || ls[ri + 2].len() < 53 || ls[ri + 3].len() < 53 {
        Some("invalid LSR body: missing details"@)
    } else {
        None
    }
}

/// An intermediary structure for a storm report to make parsing easier.
pub struct Skeleton {
    pub lines: Vec<String>,
    pub top_line: String,
    pub bottom_line: String,
    pub remarks_index: usize,
    pub end_index: usize,
}

/// Splits the body into lines and validates its structure, yielding the
/// line list, the two fixed-width detail lines and both marker positions.
pub fn get_skeleton(text: &str) -> (r: Result<Skeleton, ParseError>)
    ensures
        match r {
            Ok(sk) => {
                &&& skeleton_err(text@) is None
                &&& sk.lines.deep_view() == lines_of(text@)
                &&& sk.remarks_index == last_marker_index(lines_of(text@), remarks_marker())
                &&& sk.end_index == last_marker_index(lines_of(text@), end_marker())
                &&& sk.top_line@ == lines_of(text@)[sk.remarks_index + 2]
                &&& sk.bottom_line@ == lines_of(text@)[sk.remarks_index + 3]
            },
            Err(e) => e matches ParseError::StructureError { reason } && skeleton_err(text@)
                == Some(reason@),
        },
{
    let lines = split_lines(text);
    let ghost ls = lines_of(text@);
    let n = lines.len();
    if n < 16 {
        return Err(ParseError::StructureError {
            reason: String::from_str("invalid LSR body: too few lines"),
        });
    }
    assert(lines@[5]@ == ls[5]);
    if contains_sub(lines[5].as_str(), "SUMMARY") {
        return Err(ParseError::StructureError {
            reason: String::from_str("summary LSR should be skipped"),
        });
    }
    let mut remarks_index: Option<usize> = None;
    let mut end_index: Option<usize> = None;
    let mut i: usize = 0;
    while i < n
        invariant
            0 <= i <= n,
            n == lines.len(),
            lines.deep_view() == ls,
            match remarks_index {
                Some(k) => k < i && last_marker_index(ls.take(i as int), remarks_marker())
                    == k as int,
                None => last_marker_index(ls.take(i as int), remarks_marker()) == -1,
            },
            match end_index {
                Some(k) => k < i && last_marker_index(ls.take(i as int), end_marker()) == k as int,
                None => last_marker_index(ls.take(i as int), end_marker()) == -1,
            },
        decreases n - i,
    {
        proof {
            assert(ls.take(i + 1).drop_last() =~= ls.take(i as int));
            assert(ls.take(i + 1).last() == ls[i as int]);
            assert(lines@[i as int]@ == ls[i as int]);
        }
        if contains_sub(lines[i].as_str(), "..REMARKS..") {
            remarks_index = Some(i);
        }
        if contains_sub(lines[i].as_str(), "&&") {
            end_index = Some(i);
        }
        i += 1;
    }
    proof {
        assert(ls.take(n as int) =~= ls);
    }
    let ri = match remarks_index {
        Some(k) => k,
        None => {
            return Err(ParseError::StructureError {
                reason: String::from_str("invalid LSR body: missing REMARKS"),
            });
        },
    };
    let ei = match end_index {
        Some(k) => k,
        None => {
            return Err(ParseError::StructureError {
                reason: String::from_str("invalid LSR body: missing &&"),
            });
        },
    };
    if n - ri <= 3 {
        return Err(ParseError::StructureError {
            reason: String::from_str("invalid LSR body: missing details"),
        });
    }
    assert(lines@[ri + 2]@ == ls[ri + 2]);
    assert(lines@[ri + 3]@ == ls[ri + 3]);
    let top_line = lines[ri + 2].clone();
    let bottom_line = lines[ri + 3].clone();
    if char_len(top_line.as_str()) < 53 || char_len(bottom_line.as_str()) < 53 {
        return Err(ParseError::StructureError {
            reason: String::from_str("invalid LSR body: missing details"),
        });
    }
    Ok(Skeleton { lines, top_line, bottom_line, remarks_index: ri, end_index: ei })
}

/// Which hazard a report's keyword column denotes; anything unknown is the
/// fallback hazard carrying the raw string.
pub open spec fn hazard_matches(s: Seq<char>, h: HazardType) -> bool {
    if s == "TORNADO"@ {
        h == HazardType::Tornado
    } else if s == "HAIL"@ {
        h == HazardType::Hail
    } else if s == "FLOOD"@ {
        h == HazardType::Flood
    } else if s == "FREEZING RAIN"@ {
        h == HazardType::FreezingRain
    } else {
        h matches HazardType::Other { kind } && kind@ == s
    }
}

/// The display label of a hazard, used in event titles.
pub open spec fn hazard_label_spec(h: HazardType) -> Seq<char> {
    match h {
        HazardType::Tornado => "Tornado"@,
        HazardType::Hail => "Hail"@,
        HazardType::Flood => "Flood"@,
        HazardType::FreezingRain => "FreezingRain"@,
        HazardType::Other { kind } => kind@,
    }
}

/// Maps the hazard keyword column to its hazard kind.
pub fn get_lsr_hazard_type(input: &str) -> (h: HazardType)
    ensures
        hazard_matches(input@, h),
{
    if crate::text::eq_str(input, "TORNADO") {
        HazardType::Tornado
    } else if crate::text::eq_str(input, "HAIL") {
        HazardType::Hail
    } else if crate::text::eq_str(input, "FLOOD") {
        HazardType::Flood
    } else if crate::text::eq_str(input, "FREEZING RAIN") {
        HazardType::FreezingRain
    } else {
        HazardType::Other { kind: String::from_str(input) }
    }
}

/// The display label of a hazard.
pub fn hazard_label(h: &HazardType) -> (r: String)
    ensures
        r@ == hazard_label_spec(*h),
{
    match h {
        HazardType::Tornado => String::from_str("Tornado"),
        HazardType::Hail => String::from_str("Hail"),
        HazardType::Flood => String::from_str("Flood"),
        HazardType::FreezingRain => String::from_str("FreezingRain"),
        HazardType::Other { kind } => kind.clone(),
    }
}

/// Value in hundredths denoted by a decimal numeral with up to seven integer
/// digits and one or two fraction digits (`26.80` is 2680, `7` is 700).
pub open spec fn decimal_centi(s: Seq<char>) -> Option<nat> {
    let parts = split_char(s, '.');
    if parts.len() == 1 && 1 <= parts[0].len() <= 7 && all_digits(parts[0]) {
        Some(digits_val(parts[0]) * 100)
    } else if parts.len() == 2 && 1 <= parts[0].len() <= 7 && all_digits(parts[0]) && 1 <= parts[1].len()
        <= 2 && all_digits(parts[1]) {
        Some(
            digits_val(parts[0]) * 100 + digits_val(parts[1]) * (if parts[1].len() == 1 {
                10nat
            } else {
                1nat
            }),
        )
    } else {
        None
    }
}

/// Decodes a decimal numeral into hundredths. The value never exceeds
/// 999 999 999, so it and its negation fit an `i32`.
pub fn parse_decimal_centi(s: &str) -> (r: Option<u32>)
    ensures
        match r {
            Some(v) => decimal_centi(s@) == Some(v as nat) && v <= 999_999_999,
            None => decimal_centi(s@) is None,
        },
{
    let parts = split_char_str(s, '.');
    let ghost sparts = split_char(s@, '.');
    proof {
        crate::text::lemma_pow10_mono(7, 7);
    }
    if parts.len() == 1 {
        assert(parts@[0]@ == sparts[0]);
        if char_len(parts[0].as_str()) > 7 {
            return None;
        }
        match parse_u32_digits(parts[0].as_str()) {
            Some(d) => {
                proof {
                    crate::text::lemma_digits_val_bound(sparts[0]);
                    crate::text::lemma_pow10_mono(sparts[0].len(), 7);
                    assert(crate::text::pow10(7) == 10000000) by {
                        reveal_with_fuel(crate::text::pow10, 8);
                    }
                }
                Some(d * 100)
            },
            None => None,
        }
    } else if parts.len() == 2 {
        assert(parts@[0]@ == sparts[0]);
        assert(parts@[1]@ == sparts[1]);
        if char_len(parts[0].as_str()) > 7 || char_len(parts[1].as_str()) > 2 {
            return None;
        }
        let ip = match parse_u32_digits(parts[0].as_str()) {
            Some(d) => d,
            None => {
                return None;
            },
        };
        let fp = match parse_u32_digits(parts[1].as_str()) {
            Some(d) => d,
            None => {
                return None;
            },
        };
        proof {
            crate::text::lemma_digits_val_bound(sparts[0]);
            crate::text::lemma_pow10_mono(sparts[0].len(), 7);
            crate::text::lemma_digits_val_bound(sparts[1]);
            crate::text::lemma_pow10_mono(sparts[1].len(), 2);
            assert(crate::text::pow10(7) == 10000000) by {
                reveal_with_fuel(crate::text::pow10, 8);
            }
            assert(crate::text::pow10(2) == 100) by {
                reveal_with_fuel(crate::text::pow10, 3);
            }
        }
        let scale: u32 = if char_len(parts[1].as_str()) == 1 {
            10
        } else {
            1
        };
        Some(ip * 100 + fp * scale)
    } else {
        None
    }
}

/// The location column of the top detail line: everything from column 53 on,
/// with the west marker removed and the ends trimmed.
pub open spec fn raw_point_of(top: Seq<char>) -> Seq<char> {
    trim_seq(replace_seq(top.skip(53), "W"@, Seq::<char>::empty()))
}

/// Latitude of the first record in hundredths of a degree: the first five
/// characters of the location column.
pub open spec fn lsr_lat(top: Seq<char>) -> Option<nat> {
    decimal_centi(raw_point_of(top).take(5))
}

/// Longitude of the first record in signed hundredths of a degree: the
/// location column from its eighth character, trimmed, decoded, given back
/// its dropped leading `1` when below fifty degrees, and negated - storm
/// report longitudes are always west.
pub open spec fn lsr_lon(top: Seq<char>) -> Option<int> {
    let rp = raw_point_of(top);
    if rp.len() < 7 {
        None
    } else {
        match decimal_centi(trim_seq(rp.skip(7))) {
            Some(v) => Some(
                if v < 5000 {
                    -((v + 10000) as int)
                } else {
                    -(v as int)
                },
            ),
            None => None,
        }
    }
}

/// The raw date-time-offset string of the first record: date columns of the
/// bottom line, time columns of the top line, and the resolved offset.
pub open spec fn lsr_raw_ts(top: Seq<char>, bottom: Seq<char>, off: Seq<char>) -> Seq<char> {
    bottom.take(10) + top.take(7) + off
}

/// Microsecond ticks of a report date-time string, where it parses and fits.
pub open spec fn report_ticks(s: Seq<char>) -> Option<u64> {
    match report_epoch(s) {
        Some(sec) => micros_of(sec as int),
        None => None,
    }
}

/// Microsecond ticks of a report header line, where it parses and fits.
pub open spec fn header_ticks(s: Seq<char>) -> Option<u64> {
    match header_line_epoch(s) {
        Some(sec) => micros_of(sec as int),
        None => None,
    }
}

/// Decodes a report's combined `MM/DD/YYYYHHMM AM/PM+ZZZZ` string into
/// microsecond ticks since the epoch.
pub fn get_report_ticks(input: &str) -> (r: Result<u64, ParseError>)
    ensures
        match r {
            Ok(ticks) => report_ticks(input@) == Some(ticks),
            Err(e) => report_ticks(input@) is None && e matches ParseError::FieldDecode { .. },
        },
{
    let sec = match crate::time::report_time_epoch(input) {
        Ok(sec) => sec,
        Err(e) => {
            return Err(e);
        },
    };
    match secs_to_micros(sec) {
        Some(ticks) => Ok(ticks),
        None => Err(ParseError::FieldDecode { field: String::from_str(input) }),
    }
}

/// Decodes a report header line such as `1008 PM +0600 WED MAR 06 2019`
/// into microsecond ticks since the epoch.
pub fn lsr_time_to_ticks(input: &str) -> (r: Result<u64, ParseError>)
    ensures
        match r {
            Ok(ticks) => header_ticks(input@) == Some(ticks),
            Err(e) => header_ticks(input@) is None && e matches ParseError::FieldDecode { .. },
        },
{
    let sec = match crate::time::header_time_epoch(input) {
        Ok(sec) => sec,
        Err(e) => {
            return Err(e);
        },
    };
    match secs_to_micros(sec) {
        Some(ticks) => Ok(ticks),
        None => Err(ParseError::FieldDecode { field: String::from_str(input) }),
    }
}

/// The magnitude column of the bottom detail line, trimmed.
pub open spec fn raw_mag_of(bottom: Seq<char>) -> Seq<char> {
    trim_seq(bottom.subrange(12, 29))
}

/// Units of a non-empty magnitude column.
pub open spec fn mag_units(raw: Seq<char>) -> Option<Units> {
    if raw.len() == 0 {
        None
    } else if contains_seq(raw, "MPH"@) {
        Some(Units::Mph)
    } else if contains_seq(raw, "INCH"@) {
        Some(Units::Inches)
    } else {
        None
    }
}

/// Whether the first record's magnitude was measured rather than estimated.
pub open spec fn mag_measured(raw: Seq<char>) -> Option<bool> {
    if raw.len() == 0 {
        None
    } else {
        Some(raw[0] == 'M')
    }
}

/// The numeral between the measured-or-estimated flag and the first space.
pub open spec fn mag_num_str(raw: Seq<char>) -> Seq<char> {
    match find_first(raw, ' ') {
        Some(sp) => raw.subrange(1, sp),
        None => Seq::<char>::empty(),
    }
}

/// A non-empty magnitude column faults when it has no space to delimit the
/// numeral, or carries a unit whose numeral does not decode.
pub open spec fn mag_fault(raw: Seq<char>) -> bool {
    raw.len() > 0 && match find_first(raw, ' ') {
        None => true,
        Some(sp) => mag_units(raw) is Some && decimal_centi(raw.subrange(1, sp)) is None,
    }
}

/// Magnitude of the first record in hundredths of its unit.
pub open spec fn mag_value(raw: Seq<char>) -> Option<u32> {
    if mag_units(raw) is Some && !mag_fault(raw) && raw.len() > 0 {
        match find_first(raw, ' ') {
            Some(sp) => match decimal_centi(raw.subrange(1, sp)) {
                Some(v) => Some(v as u32),
                None => None,
            },
            None => None,
        }
    } else {
        None
    }
}

/// The middle fragment of a storm-report title: the magnitude numeral and
/// unit, or nothing where the column is empty or carries no known unit.
pub open spec fn mag_title_mid(raw: Seq<char>) -> Seq<char> {
    match mag_units(raw) {
        Some(Units::Mph) => " "@ + mag_num_str(raw) + " MPH"@,
        Some(Units::Inches) => " "@ + mag_num_str(raw) + " INCH"@,
        None => Seq::<char>::empty(),
    }
}

/// The lines of the narrative remark, concatenated.
pub open spec fn concat_lines(ls: Seq<Seq<char>>, a: int, b: int) -> Seq<char>
    decreases b - a,
    when a >= 0
{
    if a < b && b <= ls.len() {
        ls[a] + concat_lines(ls, a + 1, b)
    } else {
        Seq::<char>::empty()
    }
}

/// The twelve-space remark continuation indent.
pub open spec fn twelve_spaces() -> Seq<char> {
    "            "@
}

/// The narrative remark of the first record: the lines from five past the
/// remarks marker up to the end marker, concatenated, with continuation
/// indents stripped and the whole trimmed.
pub open spec fn lsr_narrative(ls: Seq<Seq<char>>, ri: int, ei: int) -> Seq<char> {
    trim_seq(replace_seq(concat_lines(ls, ri + 5, ei), twelve_spaces(), Seq::<char>::empty()))
}

/// The reporter column of the bottom detail line, trimmed.
pub open spec fn reporter_of(bottom: Seq<char>) -> Seq<char> {
    trim_seq(bottom.skip(53))
}

/// The hazard keyword column of the top detail line, trimmed.
pub open spec fn raw_hazard_of(top: Seq<char>) -> Seq<char> {
    trim_seq(top.subrange(12, 29))
}

/// Every field of a produced storm-report event, pinned to the columns and
/// decodings it comes from.
pub open spec fn lsr_event_ok(
    product: &Product,
    event_ts: u64,
    report_ts: u64,
    e: Event,
) -> bool {
    let text = product.product_text@;
    let ls = lines_of(text);
    let ri = last_marker_index(ls, remarks_marker());
    let ei = last_marker_index(ls, end_marker());
    let top = ls[ri + 2];
    let bottom = ls[ri + 3];
    let raw_mag = raw_mag_of(bottom);
    &&& e.event_ts == event_ts
    &&& e.event_type == EventType::NwsLsr
    &&& e.report matches Some(rep) && {
        &&& hazard_matches(raw_hazard_of(top), rep.hazard)
        &&& rep.magnitude == mag_value(raw_mag)
        &&& rep.units == mag_units(raw_mag)
        &&& rep.was_measured == mag_measured(raw_mag)
        &&& rep.reporter@ == reporter_of(bottom)
        &&& rep.report_ts == Some(report_ts)
        &&& e.title@ == product.issuing_office@ + " reports"@ + mag_title_mid(raw_mag) + " "@
            + hazard_label_spec(rep.hazard)
    }
    &&& e.location matches Some(loc) && {
        &&& loc.wfo matches Some(w) && w@ == product.issuing_office@
        &&& loc.poly is None
        &&& loc.point matches Some(pt) && Some(pt.lat as nat) == lsr_lat(top) && Some(
            pt.lon as int,
        ) == lsr_lon(top)
    }
    &&& e.text matches Some(t) && t@ == lsr_narrative(ls, ri, ei)
    &&& e.expires_ts is None
    &&& e.valid_ts is None
    &&& e.ext_uri is None
    &&& e.ingest_ts == 0
    &&& e.warning is None
    &&& e.watch is None
    &&& e.outlook is None
    &&& wf_event(e)
}

/// The assembly stage of the extractor, once structure, timestamps and
/// freshness have passed: the point must decode and the magnitude column
/// must not fault; everything else always succeeds.
pub open spec fn assemble_post(
    product: &Product,
    event_ts: u64,
    report_ts: u64,
    r: Result<Option<Event>, ParseError>,
) -> bool {
    let text = product.product_text@;
    let ls = lines_of(text);
    let ri = last_marker_index(ls, remarks_marker());
    let top = ls[ri + 2];
    let bottom = ls[ri + 3];
    let rp = raw_point_of(top);
    if rp.len() < 7 || decimal_centi(trim_seq(rp.skip(7))) is None {
        r matches Err(ParseError::RecoveredFault { bulletin_id }) && bulletin_id@ == product.id@
    } else if decimal_centi(rp.take(5)) is None {
        r matches Err(ParseError::FieldDecode { .. })
    } else if mag_fault(raw_mag_of(bottom)) {
        r matches Err(ParseError::RecoveredFault { bulletin_id }) && bulletin_id@ == product.id@
    } else {
        r matches Ok(Some(e)) && lsr_event_ok(product, event_ts, report_ts, e)
    }
}

/// Exactly what the storm-report extractor does: structural rejection,
/// timestamp decoding, the freshness filter - a report more than an hour
/// older than issuance yields no event and no error - and field assembly.
pub open spec fn parse_post(product: &Product, r: Result<Option<Event>, ParseError>) -> bool {
    let text = product.product_text@;
    match skeleton_err(text) {
        Some(msg) => r matches Err(ParseError::StructureError { reason }) && reason@ == msg,
        None => {
            let ls = lines_of(text);
            let ri = last_marker_index(ls, remarks_marker());
            let top = ls[ri + 2];
            let bottom = ls[ri + 3];
            match iso_ticks(product.issuance_time@) {
                None => r matches Err(ParseError::FieldDecode { .. }),
                Some(event_ts) => {
                    let toks = split_char(ls[7], ' ');
                    if toks.len() < 3 {
                        r matches Err(ParseError::RecoveredFault { bulletin_id }) && bulletin_id@
                            == product.id@
                    } else {
                        match tz_offset_spec(toks[2]) {
                            None => r matches Err(ParseError::FieldDecode { .. }),
                            Some(off) => match report_ticks(lsr_raw_ts(top, bottom, off)) {
                                None => r matches Err(ParseError::FieldDecode { .. }),
                                Some(report_ts) => {
                                    if event_ts > report_ts + AGE_THRESHOLD_MICROS {
                                        r == Ok::<Option<Event>, ParseError>(None)
                                    } else {
                                        assemble_post(product, event_ts, report_ts, r)
                                    }
                                },
                            },
                        }
                    }
                },
            }
        },
    }
}

/// Converts a storm-report bulletin into its event record, no event where
/// the first record is stale, or the reason the body was rejected.
pub fn parse(product: &Product) -> (r: Result<Option<Event>, ParseError>)
    ensures
        parse_post(product, r),
{
    let ghost text = product.product_text@;
    let ghost ls = lines_of(text);
    let lsr = match get_skeleton(product.product_text.as_str()) {
        Ok(sk) => sk,
        Err(e) => {
            return Err(e);
        },
    };
    let ghost ri = last_marker_index(ls, remarks_marker());
    let ghost ei = last_marker_index(ls, end_marker());
    proof {
        lemma_last_marker(ls, remarks_marker());
        lemma_last_marker(ls, end_marker());
    }
    let event_ts = match ts_to_ticks(product.issuance_time.as_str()) {
        Ok(ts) => ts,
        Err(e) => {
            return Err(e);
        },
    };
    // the timezone abbreviation sits on the fixed date line of the header
    assert(lsr.lines@[7]@ == ls[7]);
    let toks = split_char_str(lsr.lines[7].as_str(), ' ');
    if toks.len() < 3 {
        return Err(ParseError::RecoveredFault { bulletin_id: product.id.clone() });
    }
    assert(toks@[2]@ == split_char(ls[7], ' ')[2]);
    let off = match tz_to_offset(toks[2].as_str()) {
        Ok(off) => off,
        Err(e) => {
            return Err(e);
        },
    };
    let top_n = char_len(lsr.top_line.as_str());
    let bottom_n = char_len(lsr.bottom_line.as_str());
    let mut raw_ts = String::from_str(lsr.bottom_line.as_str().substring_char(0, 10));
    raw_ts.append(lsr.top_line.as_str().substring_char(0, 7));
    raw_ts.append(off.as_str());
    proof {
        assert(ls[ri + 3].subrange(0, 10) =~= ls[ri + 3].take(10));
        assert(ls[ri + 2].subrange(0, 7) =~= ls[ri + 2].take(7));
        assert(raw_ts@ =~= lsr_raw_ts(ls[ri + 2], ls[ri + 3], off@));
    }
    let report_ts = match get_report_ticks(raw_ts.as_str()) {
        Ok(ts) => ts,
        Err(e) => {
            return Err(e);
        },
    };
    // Skip reports too far in the past; these can arrive hours or months late.
    if report_ts < event_ts && event_ts - report_ts > AGE_THRESHOLD_MICROS {
        return Ok(None);
    }
    assert(!(event_ts > report_ts + AGE_THRESHOLD_MICROS));
    // the point: location column of the top line
    let top_tail = lsr.top_line.as_str().substring_char(53, top_n);
    proof {
        assert(top_tail@ =~= ls[ri + 2].skip(53));
    }
    proof {
        reveal_strlit("W");
        reveal_strlit("");
        assert(""@ =~= Seq::<char>::empty());
    }
    let replaced = replace_str(top_tail, "W", "");
    let raw_point = trim_str(replaced.as_str());
    assert(raw_point@ == raw_point_of(ls[ri + 2]));
    let rp_n = char_len(raw_point.as_str());
    if rp_n < 7 {
        return Err(ParseError::RecoveredFault { bulletin_id: product.id.clone() });
    }
    let lon_str = trim_str(raw_point.as_str().substring_char(7, rp_n));
    proof {
        assert(raw_point@.subrange(7, rp_n as int) =~= raw_point@.skip(7));
    }
    let lon_raw = match parse_decimal_centi(lon_str.as_str()) {
        Some(v) => v,
        None => {
            return Err(ParseError::RecoveredFault { bulletin_id: product.id.clone() });
        },
    };
    let lon: i32 = if lon_raw < 5000 {
        -((lon_raw + 10000) as i32)
    } else {
        -(lon_raw as i32)
    };
    let lat_str = raw_point.as_str().substring_char(0, 5);
    proof {
        assert(raw_point@.subrange(0, 5) =~= raw_point@.take(5));
    }
    let lat_raw = match parse_decimal_centi(lat_str) {
        Some(v) => v,
        None => {
            return Err(ParseError::FieldDecode { field: String::from_str(lat_str) });
        },
    };
    let lat = lat_raw as i32;
    // the narrative remark spans the lines between the markers
    let mut cat = String::new();
    let ghost a0 = ri + 5;
    if lsr.end_index > lsr.remarks_index && lsr.end_index - lsr.remarks_index > 5 {
        let mut i = lsr.remarks_index + 5;
        while i < lsr.end_index
            invariant
                ri + 5 <= i <= ei,
                ri == lsr.remarks_index,
                ei == lsr.end_index,
                0 <= ri,
                ei < ls.len(),
                lsr.lines.deep_view() == ls,
                lsr.lines.len() == ls.len(),
                concat_lines(ls, a0, ei) == cat@ + concat_lines(ls, i as int, ei),
                a0 == ri + 5,
            decreases lsr.end_index - i,
        {
            assert(lsr.lines@[i as int]@ == ls[i as int]);
            cat.append(lsr.lines[i].as_str());
            i += 1;
            proof {
                assert(concat_lines(ls, a0, ei) =~= cat@ + concat_lines(ls, i as int, ei));
            }
        }
        assert(concat_lines(ls, i as int, ei) =~= Seq::<char>::empty());
        assert(cat@ =~= concat_lines(ls, a0, ei));
    } else {
        assert(cat@ =~= concat_lines(ls, a0, ei));
    }
    proof {
        reveal_strlit("            ");
        reveal_strlit("");
        assert(""@ =~= Seq::<char>::empty());
    }
    let cleaned = replace_str(cat.as_str(), "            ", "");
    let narrative = trim_str(cleaned.as_str());
    assert(narrative@ == lsr_narrative(ls, ri, ei));
    // hazard keyword and magnitude columns
    let raw_hazard = trim_str(lsr.top_line.as_str().substring_char(12, 29));
    assert(raw_hazard@ == raw_hazard_of(ls[ri + 2]));
    let hazard = get_lsr_hazard_type(raw_hazard.as_str());
    let raw_mag = trim_str(lsr.bottom_line.as_str().substring_char(12, 29));
    assert(raw_mag@ == raw_mag_of(ls[ri + 3]));
    let mag_n = char_len(raw_mag.as_str());
    let mut was_measured: Option<bool> = None;
    let mut units: Option<Units> = None;
    let mut magnitude: Option<u32> = None;
    let mut title = product.issuing_office.clone();
    title.append(" reports");
    if mag_n > 0 {
        was_measured = Some(raw_mag.as_str().get_char(0) == 'M');
        let sp = match find_char(raw_mag.as_str(), ' ') {
            Some(sp) => sp,
            None => {
                return Err(ParseError::RecoveredFault { bulletin_id: product.id.clone() });
            },
        };
        proof {
            crate::text::lemma_trim_head_nonspace(ls[ri + 3].subrange(12, 29));
            assert(!is_space(raw_mag@[0]));
            assert(raw_mag@[0] != ' ');
            crate::text::lemma_find_first_props(raw_mag@, ' ');
        }
        assert(1 <= sp < mag_n);
        if contains_sub(raw_mag.as_str(), "MPH") {
            let num_str = raw_mag.as_str().substring_char(1, sp);
            assert(num_str@ == mag_num_str(raw_mag@));
            let v = match parse_decimal_centi(num_str) {
                Some(v) => v,
                None => {
                    return Err(ParseError::RecoveredFault { bulletin_id: product.id.clone() });
                },
            };
            units = Some(Units::Mph);
            magnitude = Some(v);
            title.append(" ");
            title.append(num_str);
            title.append(" MPH");
        } else if contains_sub(raw_mag.as_str(), "INCH") {
            let num_str = raw_mag.as_str().substring_char(1, sp);
            assert(num_str@ == mag_num_str(raw_mag@));
            let v = match parse_decimal_centi(num_str) {
                Some(v) => v,
                None => {
                    return Err(ParseError::RecoveredFault { bulletin_id: product.id.clone() });
                },
            };
            units = Some(Units::Inches);
            magnitude = Some(v);
            title.append(" ");
            title.append(num_str);
            title.append(" INCH");
        }
    }
    assert(!mag_fault(raw_mag@));
    assert(units == mag_units(raw_mag@));
    assert(magnitude == mag_value(raw_mag@));
    assert(was_measured == mag_measured(raw_mag@));
    let label = hazard_label(&hazard);
    title.append(" ");
    title.append(label.as_str());
    proof {
        assert(title@ =~= product.issuing_office@ + " reports"@ + mag_title_mid(raw_mag@) + " "@
            + hazard_label_spec(hazard));
    }
    let reporter = trim_str(lsr.bottom_line.as_str().substring_char(53, bottom_n));
    proof {
        assert(ls[ri + 3].subrange(53, ls[ri + 3].len() as int) =~= ls[ri + 3].skip(53));
    }
    let location = Location {
        point: Some(Coordinates { lat, lon }),
        poly: None,
        wfo: Some(product.issuing_office.clone()),
    };
    let report = Report {
        hazard,
        magnitude,
        report_ts: Some(report_ts),
        reporter,
        units,
        was_measured,
    };
    let mut event = Event::new(event_ts, EventType::NwsLsr, title);
    event.location = Some(location);
    event.report = Some(report);
    event.text = Some(narrative);
    Ok(Some(event))
}

} // verus!

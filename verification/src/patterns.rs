//! The pattern library: one fixed, case-insensitive text pattern per field a
//! bulletin type extracts, and the two trusted bridges into the `regex`
//! crate. Every capture result is named, so each extractor's contract can
//! say exactly which capture its fields come from.
use vstd::prelude::*;

verus! {

use vstd::string::StringExecFns;

/// Text of the capture group `group` in the first match of the
/// case-insensitive pattern `pattern` inside `text`, or nothing where the
/// pattern does not compile, does not match, or the group did not
/// participate.
pub uninterp spec fn regex_group_spec(pattern: Seq<char>, group: Seq<char>, text: Seq<char>) -> Option<
    Seq<char>,
>;

/// Relies on `regex::RegexBuilder::build` (case-insensitive) and
/// `regex::Regex::captures`: for a fixed pattern and group name the captured
/// text is a function of the haystack alone.
#[verifier::external_body]
pub(crate) fn regex_group(pattern: &str, group: &str, text: &str) -> (r: Option<String>)
    ensures
        match r {
            Some(s) => regex_group_spec(pattern@, group@, text@) == Some(s@),
            None => regex_group_spec(pattern@, group@, text@) is None,
        },
{
    let re = match regex::RegexBuilder::new(pattern).case_insensitive(true).build() {
        Ok(re) => re,
        Err(_) => return None,
    };
    let caps = match re.captures(text) {
        Some(caps) => caps,
        None => return None,
    };
    match caps.name(group) {
        Some(m) => Some(m.as_str().to_string()),
        None => None,
    }
}

/// The first match of the case-insensitive pattern `pattern` inside `text`,
/// paired with the text that follows the match; nothing where the pattern
/// does not compile or does not match.
pub uninterp spec fn regex_split_spec(pattern: Seq<char>, text: Seq<char>) -> Option<
    (Seq<char>, Seq<char>),
>;

/// Relies on `regex::RegexBuilder::build` (case-insensitive) and
/// `regex::Regex::find`: the first match and the text after it are a
/// function of pattern and haystack alone. The remainder follows the match,
/// so it is never longer than the haystack and is strictly shorter when the
/// match is non-empty.
#[verifier::external_body]
pub(crate) fn regex_find_split(pattern: &str, text: &str) -> (r: Option<(String, String)>)
    ensures
        match r {
            Some(p) => regex_split_spec(pattern@, text@) == Some((p.0@, p.1@)) && p.1@.len()
                <= text@.len() && (p.0@.len() > 0 ==> p.1@.len() < text@.len()),
            None => regex_split_spec(pattern@, text@) is None,
        },
{
    let re = match regex::RegexBuilder::new(pattern).case_insensitive(true).build() {
        Ok(re) => re,
        Err(_) => return None,
    };
    match re.find(text) {
        Some(m) => Some((m.as_str().to_string(), text[m.end()..].to_string())),
        None => None,
    }
}

/// Storm-motion line: time, compass heading, speed in knots, and the parent
/// storm's latitude and longitude numerals.
pub open spec fn movement_pattern() -> Seq<char> {
    r"\ntime...mot...loc\s(?P<time>\d{4}z)\s(?P<deg>\d+)\D{3}\s(?P<kt>\d+)kt\s(?P<lat>\d{4})\s(?P<lon>\d{4,5})"@
}

/// The free-text narrative paragraph of a warning bulletin.
pub open spec fn description_pattern() -> Seq<char> {
    r"\n\*\s(?P<desc>At\s[\s\S]+?)\n\n"@
}

/// Detection source line of a warning bulletin.
pub open spec fn source_pattern() -> Seq<char> {
    r"\n{2}\s{2}source...(?P<src>.+)\.\s?\n{2}"@
}

/// The begin and end compact timestamps of a warning's valid range.
pub open spec fn valid_pattern() -> Seq<char> {
    r"(?P<begin>\d{6}t\d{4}z)-(?P<end>\d{6}t\d{4}z)"@
}

/// Affected-area block of a mesoscale discussion.
pub open spec fn affected_pattern() -> Seq<char> {
    r"Areas affected\.{3}(?P<areas>[\S|\s]*?)\n\n"@
}

/// Probability-of-watch-issuance percentage of a mesoscale discussion.
pub open spec fn probability_pattern() -> Seq<char> {
    r"Probability of Watch Issuance...(?P<prob>\d{1,3}) percent"@
}

/// The attention list of forecast offices a bulletin is addressed to.
pub open spec fn wfos_pattern() -> Seq<char> {
    r"ATTN...WFO...(?P<wfos>.+)\n\n"@
}

/// Numeric identifier of a mesoscale discussion.
pub open spec fn md_number_pattern() -> Seq<char> {
    r"Mesoscale Discussion (?P<num>\d{4})"@
}

/// Numeric identifier of a watch.
pub open spec fn watch_id_pattern() -> Seq<char> {
    r"Watch Number (?P<num>\d{1,3})"@
}

/// One latitude-longitude numeral pair of a variable-length polygon.
pub open spec fn poly_pattern() -> Seq<char> {
    r"(?P<pair>\d{4}\s\d{4,5})"@
}

/// The fixed four-vertex polygon line of a tornado or severe-thunderstorm
/// warning: eight four-digit numerals, column-sliced by the extractor.
pub open spec fn four_node_poly_pattern() -> Seq<char> {
    r"\nlat...lon\s(?P<poly>\d{4}(?:\s\d{4}){7})"@
}

/// The affected-area list of a warning.
pub open spec fn warning_for_pattern() -> Seq<char> {
    r"Warning for...(?P<for>[\s\S]+?)\n\n"@
}

/// The affected-area list of a watch.
pub open spec fn watch_for_pattern() -> Seq<char> {
    r"Watch for portions of\s\n(?P<for>[\s\S]+?)\n\n"@
}

/// The per-bulletin-type pattern texts, built once and shared read-only by
/// every extractor invocation. Matching compiles a pattern case-insensitively
/// inside the trusted bridge; construction here is cheap and never fails.
pub struct Regexes {
    pub movement: String,
    pub description: String,
    pub source: String,
    pub valid: String,
    pub affected: String,
    pub probability: String,
    pub wfos: String,
    pub md_number: String,
    pub watch_id: String,
    pub poly: String,
    pub four_node_poly: String,
    pub warning_for: String,
    pub watch_for: String,
}

/// Each field of the library holds exactly its pattern.
pub open spec fn regexes_wf(r: &Regexes) -> bool {
    &&& r.movement@ == movement_pattern()
    &&& r.description@ == description_pattern()
    &&& r.source@ == source_pattern()
    &&& r.valid@ == valid_pattern()
    &&& r.affected@ == affected_pattern()
    &&& r.probability@ == probability_pattern()
    &&& r.wfos@ == wfos_pattern()
    &&& r.md_number@ == md_number_pattern()
    &&& r.watch_id@ == watch_id_pattern()
    &&& r.poly@ == poly_pattern()
    &&& r.four_node_poly@ == four_node_poly_pattern()
    &&& r.warning_for@ == warning_for_pattern()
    &&& r.watch_for@ == watch_for_pattern()
}

impl Regexes {
    /// Builds the pattern library.
    pub fn new() -> (r: Regexes)
        ensures
            regexes_wf(&r),
    {
        Regexes {
            movement: String::from_str(
                r"\ntime...mot...loc\s(?P<time>\d{4}z)\s(?P<deg>\d+)\D{3}\s(?P<kt>\d+)kt\s(?P<lat>\d{4})\s(?P<lon>\d{4,5})",
            ),
            description: String::from_str(r"\n\*\s(?P<desc>At\s[\s\S]+?)\n\n"),
            source: String::from_str(r"\n{2}\s{2}source...(?P<src>.+)\.\s?\n{2}"),
            valid: String::from_str(r"(?P<begin>\d{6}t\d{4}z)-(?P<end>\d{6}t\d{4}z)"),
            affected: String::from_str(r"Areas affected\.{3}(?P<areas>[\S|\s]*?)\n\n"),
            probability: String::from_str(r"Probability of Watch Issuance...(?P<prob>\d{1,3}) percent"),
            wfos: String::from_str(r"ATTN...WFO...(?P<wfos>.+)\n\n"),
            md_number: String::from_str(r"Mesoscale Discussion (?P<num>\d{4})"),
            watch_id: String::from_str(r"Watch Number (?P<num>\d{1,3})"),
            poly: String::from_str(r"(?P<pair>\d{4}\s\d{4,5})"),
            four_node_poly: String::from_str(r"\nlat...lon\s(?P<poly>\d{4}(?:\s\d{4}){7})"),
            warning_for: String::from_str(r"Warning for...(?P<for>[\s\S]+?)\n\n"),
            watch_for: String::from_str(r"Watch for portions of\s\n(?P<for>[\s\S]+?)\n\n"),
        }
    }
}

} // verus!

use wxparse::domain::ParseError;
use wxparse::time::ts_to_ticks;
use wxparse::time::tz_to_offset;

#[test]
fn ts_to_ticks_decodes_iso_timestamps() {
    assert_eq!(ts_to_ticks("2018-05-02T01:01:00+00:00").unwrap(), 1525222860000000);
    assert_eq!(ts_to_ticks("1970-01-01T00:00:00+00:00").unwrap(), 0);
}

#[test]
fn ts_to_ticks_rejects_malformed_timestamps() {
    assert!(matches!(ts_to_ticks("05/01/2018"), Err(ParseError::FieldDecode { .. })));
    assert!(matches!(ts_to_ticks(""), Err(ParseError::FieldDecode { .. })));
}

#[test]
fn tz_to_offset_resolves_known_abbreviations() {
    assert_eq!(tz_to_offset("UTC").unwrap(), "+0000");
    assert_eq!(tz_to_offset("CDT").unwrap(), "-0500");
    assert_eq!(tz_to_offset("CST").unwrap(), "-0600");
    assert_eq!(tz_to_offset("MDT").unwrap(), "-0600");
    assert_eq!(tz_to_offset("PST").unwrap(), "-0800");
    assert_eq!(tz_to_offset("AKDT").unwrap(), "-0800");
    assert_eq!(tz_to_offset("HST").unwrap(), "-1000");
    assert_eq!(tz_to_offset("CHST").unwrap(), "+1000");
}

#[test]
fn tz_to_offset_rejects_unknown_abbreviations() {
    assert!(matches!(tz_to_offset("XYZ"), Err(ParseError::FieldDecode { .. })));
    assert!(matches!(tz_to_offset(""), Err(ParseError::FieldDecode { .. })));
}

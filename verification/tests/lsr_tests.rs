use wxparse::domain::HazardType;
use wxparse::domain::ParseError;
use wxparse::domain::Product;
use wxparse::domain::Units;
use wxparse::lsr_parser::get_report_ticks;
use wxparse::lsr_parser::get_skeleton;
use wxparse::lsr_parser::lsr_time_to_ticks;
use wxparse::lsr_parser::parse;

const TORNADO_LSR_BODY: &str = "\n158 \nNWUS52 KMFL 311935\nLSRMFL\n\nPRELIMINARY LOCAL STORM REPORT...CORRECTED\nNATIONAL WEATHER SERVICE MIAMI FL\n701 PM CDT TUE MAY 1 2018\n\n..TIME...   ...EVENT...      ...CITY LOCATION...     ...LAT.LON...\n..DATE...   ....MAG....      ..COUNTY LOCATION..ST.. ...SOURCE....\n            ..REMARKS..\n\n0700 PM     TORNADO          2 SE PAHOKEE            26.80N  80.64W\n05/01/2018                   PALM BEACH         FL   TRAINED SPOTTER \n\n            TRAINED SKYWARN SPOTTER OBSERVED FROM PAHOKEE A FUNNEL \n            CLOUD APPROXIMATELY 3 MILES SOUTHEAST OF PAHOKEE, \n            PARTIALLY RAIN-WRAPPED AND NEARLY STATIONARY. THE FUNNEL \n            EXTENDED TO NEARLY HALFWAY TO THE GROUND BEFORE LIFTING. \n            LOCATION RADAR-ESTIMATED/ADJUSTED. VIDEO RECEIVED OF \n            FUNNEL REACHING THE GROUND WITH DUST BEING KICKED UP. \n            RECLASSIFIED AS A TORNADO. \n\n\n&&\n\nCORRECTED EVENT...FATALITIES...INJURIES...REMARKS\n\nEVENT NUMBER MFL1800020\n\n$$\n\nSI\n\n\n\n";

fn lsr_product(issuance_time: &str, issuing_office: &str, body: &str) -> Product {
    Product {
        _id: "_id".to_string(),
        id: "id".to_string(),
        wmo_collective_id: "WFUS53".to_string(),
        issuing_office: issuing_office.to_string(),
        issuance_time: issuance_time.to_string(),
        product_code: "LSR".to_string(),
        product_name: "Local Storm Report".to_string(),
        product_text: body.to_string(),
    }
}

#[test]
fn lsr_time_to_ticks_should_return_correct_ticks() {
    let lsr_time = "1008 PM +0600 WED MAR 06 2019";
    let result = lsr_time_to_ticks(lsr_time).unwrap();
    assert_eq!(result, 1551888480000000);
}

#[test]
fn get_report_ticks_should_return_correct_ticks() {
    let time = "03/13/20190300 PM+0400";
    let result = get_report_ticks(time).unwrap();
    assert_eq!(result, 1552474800000000);
}

#[test]
fn get_skeleton_too_few_lines_should_be_an_error() {
    let text = "\n\n\n\n\n\n\n\n\n\n\n\nthis is bad text";
    let result = get_skeleton(text);
    assert!(result.is_err());
    assert!(matches!(result, Err(ParseError::StructureError { .. })));
}

#[test]
fn get_skeleton_summary_should_be_an_error() {
    let text = "\n523 \nNWUS55 KBOU 271240\nLSRBOU\n\nPRELIMINARY LOCAL STORM REPORT...SUMMARY\nNATIONAL WEATHER SERVICE DENVER CO\n640 AM MDT TUE MAR 27 2018\n\n..TIME...   ...EVENT...      ...CITY LOCATION...     ...LAT.LON...\n..DATE...   ....MAG....      ..COUNTY LOCATION..ST.. ...SOURCE....\n            ..REMARKS..\n\n0637 AM     SNOW             2 N ARVADA              39.85N 105.09W\n03/27/2018  M2.5 INCH        JEFFERSON          CO   PUBLIC           \n\n            STORM TOTAL. 0.34 INCHES OF WATER \n            EQUIVALENT. REPORT VIA SOCIAL MEDIA. \n\n0635 AM     HEAVY SNOW       ROXBOROUGH PARK         39.44N 105.07W\n03/27/2018  M7.0 INCH        DOUGLAS            CO   PUBLIC           \n\n            STORM TOTAL. REPORT VIA SOCIAL MEDIA. \n\n\n&&\n\n$$\n\n\n\n\n";
    let result = get_skeleton(text);
    assert!(result.is_err());
    assert!(matches!(result, Err(ParseError::StructureError { .. })));
}

#[test]
fn get_skeleton_no_remarks_index_should_be_an_error() {
    let text = "\n158 \nNWUS52 KMFL 311935\nLSRMFL\n\nPRELIMINARY LOCAL STORM REPORT...CORRECTED\nNATIONAL WEATHER SERVICE MIAMI FL\n701 PM CDT TUE MAY 1 2018\n\n..TIME...   ...EVENT...      ...CITY LOCATION...     ...LAT.LON...\n..DATE...   ....MAG....      ..COUNTY LOCATION..ST.. ...SOURCE....\n            \n\n0700 PM     TORNADO          2 SE PAHOKEE            26.80N  80.64W\n05/01/2018                   PALM BEACH         FL   TRAINED SPOTTER \n\n            TRAINED SKYWARN SPOTTER OBSERVED FROM PAHOKEE A FUNNEL \n            CLOUD APPROXIMATELY 3 MILES SOUTHEAST OF PAHOKEE, \n            PARTIALLY RAIN-WRAPPED AND NEARLY STATIONARY. THE FUNNEL \n            EXTENDED TO NEARLY HALFWAY TO THE GROUND BEFORE LIFTING. \n            LOCATION RADAR-ESTIMATED/ADJUSTED. VIDEO RECEIVED OF \n            FUNNEL REACHING THE GROUND WITH DUST BEING KICKED UP. \n            RECLASSIFIED AS A TORNADO. \n\n\n&&\n\nCORRECTED EVENT...FATALITIES...INJURIES...REMARKS\n\nEVENT NUMBER MFL1800020\n\n$$\n\nSI\n\n\n\n";
    let result = get_skeleton(text);
    assert!(result.is_err());
    assert!(matches!(result, Err(ParseError::StructureError { .. })));
}

#[test]
fn get_skeleton_no_end_index_should_be_an_error() {
    let text = "\n158 \nNWUS52 KMFL 311935\nLSRMFL\n\nPRELIMINARY LOCAL STORM REPORT...CORRECTED\nNATIONAL WEATHER SERVICE MIAMI FL\n701 PM CDT TUE MAY 1 2018\n\n..TIME...   ...EVENT...      ...CITY LOCATION...     ...LAT.LON...\n..DATE...   ....MAG....      ..COUNTY LOCATION..ST.. ...SOURCE....\n            ..REMARKS..\n\n0700 PM     TORNADO          2 SE PAHOKEE            26.80N  80.64W\n05/01/2018                   PALM BEACH         FL   TRAINED SPOTTER \n\n            TRAINED SKYWARN SPOTTER OBSERVED FROM PAHOKEE A FUNNEL \n            CLOUD APPROXIMATELY 3 MILES SOUTHEAST OF PAHOKEE, \n            PARTIALLY RAIN-WRAPPED AND NEARLY STATIONARY. THE FUNNEL \n            EXTENDED TO NEARLY HALFWAY TO THE GROUND BEFORE LIFTING. \n            LOCATION RADAR-ESTIMATED/ADJUSTED. VIDEO RECEIVED OF \n            FUNNEL REACHING THE GROUND WITH DUST BEING KICKED UP. \n            RECLASSIFIED AS A TORNADO. \n\n\n\nCORRECTED EVENT...FATALITIES...INJURIES...REMARKS\n\nEVENT NUMBER MFL1800020\n\n$$\n\nSI\n\n\n\n";
    let result = get_skeleton(text);
    assert!(result.is_err());
    assert!(matches!(result, Err(ParseError::StructureError { .. })));
}

#[test]
fn get_skeleton_no_top_details_should_be_an_error() {
    let text = "\n158 \nNWUS52 KMFL 311935\nLSRMFL\n\nPRELIMINARY LOCAL STORM REPORT...CORRECTED\nNATIONAL WEATHER SERVICE MIAMI FL\n701 PM CDT TUE MAY 1 2018\n\n..TIME...   ...EVENT...      ...CITY LOCATION...     ...LAT.LON...\n..DATE...   ....MAG....      ..COUNTY LOCATION..ST.. ...SOURCE....\n            ..REMARKS..\n\n\n05/01/2018                   PALM BEACH         FL   TRAINED SPOTTER \n\n            TRAINED SKYWARN SPOTTER OBSERVED FROM PAHOKEE A FUNNEL \n            CLOUD APPROXIMATELY 3 MILES SOUTHEAST OF PAHOKEE, \n            PARTIALLY RAIN-WRAPPED AND NEARLY STATIONARY. THE FUNNEL \n            EXTENDED TO NEARLY HALFWAY TO THE GROUND BEFORE LIFTING. \n            LOCATION RADAR-ESTIMATED/ADJUSTED. VIDEO RECEIVED OF \n            FUNNEL REACHING THE GROUND WITH DUST BEING KICKED UP. \n            RECLASSIFIED AS A TORNADO. \n\n\n&&\n\nCORRECTED EVENT...FATALITIES...INJURIES...REMARKS\n\nEVENT NUMBER MFL1800020\n\n$$\n\nSI\n\n\n\n";
    let result = get_skeleton(text);
    assert!(result.is_err());
    assert!(matches!(result, Err(ParseError::StructureError { .. })));
}

#[test]
fn get_skeleton_no_bottom_details_should_be_an_error() {
    let text = "\n158 \nNWUS52 KMFL 311935\nLSRMFL\n\nPRELIMINARY LOCAL STORM REPORT...CORRECTED\nNATIONAL WEATHER SERVICE MIAMI FL\n701 PM CDT TUE MAY 1 2018\n\n..TIME...   ...EVENT...      ...CITY LOCATION...     ...LAT.LON...\n..DATE...   ....MAG....      ..COUNTY LOCATION..ST.. ...SOURCE....\n            ..REMARKS..\n\n0700 PM     TORNADO          2 SE PAHOKEE            26.80N  80.64W\n\n\n            TRAINED SKYWARN SPOTTER OBSERVED FROM PAHOKEE A FUNNEL \n            CLOUD APPROXIMATELY 3 MILES SOUTHEAST OF PAHOKEE, \n            PARTIALLY RAIN-WRAPPED AND NEARLY STATIONARY. THE FUNNEL \n            EXTENDED TO NEARLY HALFWAY TO THE GROUND BEFORE LIFTING. \n            LOCATION RADAR-ESTIMATED/ADJUSTED. VIDEO RECEIVED OF \n            FUNNEL REACHING THE GROUND WITH DUST BEING KICKED UP. \n            RECLASSIFIED AS A TORNADO. \n\n\n&&\n\nCORRECTED EVENT...FATALITIES...INJURIES...REMARKS\n\nEVENT NUMBER MFL1800020\n\n$$\n\nSI\n\n\n\n";
    let result = get_skeleton(text);
    assert!(result.is_err());
    assert!(matches!(result, Err(ParseError::StructureError { .. })));
}

#[test]
fn parse_tornado_report() {
    let product = lsr_product("2018-05-02T00:08:00+00:00", "KTOP", TORNADO_LSR_BODY);
    let event = parse(&product).unwrap().unwrap();
    assert_eq!(event.event_ts, 1525219680000000);
    assert_eq!(event.title, "KTOP reports Tornado");
    let location = event.location.unwrap();
    assert_eq!(location.wfo.as_deref(), Some("KTOP"));
    assert!(location.poly.is_none());
    let point = location.point.unwrap();
    assert_eq!(point.lat, 2680);
    assert_eq!(point.lon, -8064);
    let report = event.report.unwrap();
    assert_eq!(report.hazard, HazardType::Tornado);
    assert_eq!(report.magnitude, None);
    assert_eq!(report.units, None);
    assert_eq!(report.was_measured, None);
    assert_eq!(report.reporter, "TRAINED SPOTTER");
    assert_eq!(report.report_ts, Some(1525219200000000));
    assert_eq!(
        event.text.as_deref(),
        Some(
            "TRAINED SKYWARN SPOTTER OBSERVED FROM PAHOKEE A FUNNEL CLOUD APPROXIMATELY 3 MILES SOUTHEAST OF PAHOKEE, PARTIALLY RAIN-WRAPPED AND NEARLY STATIONARY. THE FUNNEL EXTENDED TO NEARLY HALFWAY TO THE GROUND BEFORE LIFTING. LOCATION RADAR-ESTIMATED/ADJUSTED. VIDEO RECEIVED OF FUNNEL REACHING THE GROUND WITH DUST BEING KICKED UP. RECLASSIFIED AS A TORNADO."
        )
    );
    assert!(event.expires_ts.is_none());
    assert!(event.valid_ts.is_none());
    assert!(event.warning.is_none());
    assert!(event.watch.is_none());
    assert!(event.outlook.is_none());
    assert_eq!(event.ingest_ts, 0);
}

#[test]
fn parse_old_report_should_be_ok_none() {
    let product = lsr_product("2018-05-03T00:08:00+00:00", "KTOP", TORNADO_LSR_BODY);
    let result = parse(&product).unwrap();
    assert!(result.is_none());
}

#[test]
fn report_exactly_one_hour_old_is_kept() {
    // report_ts is 2018-05-02T00:00:00Z; issuance exactly one hour later
    let product = lsr_product("2018-05-02T01:00:00+00:00", "KTOP", TORNADO_LSR_BODY);
    let result = parse(&product).unwrap();
    assert!(result.is_some());
}

#[test]
fn report_one_hour_one_minute_old_is_dropped() {
    let product = lsr_product("2018-05-02T01:01:00+00:00", "KTOP", TORNADO_LSR_BODY);
    let result = parse(&product).unwrap();
    assert!(result.is_none());
}

#[test]
fn parse_wind_speed_report() {
    let body = "\n106 \nNWUS54 KSJT 270116\nLSRSJT\n\nPRELIMINARY LOCAL STORM REPORT\nNational Weather Service San Angelo Tx\n316 PM CST MON MAR 27 2018\n\n..TIME...   ...EVENT...      ...CITY LOCATION...     ...LAT.LON...\n..DATE...   ....MAG....      ..COUNTY LOCATION..ST.. ...SOURCE....\n            ..REMARKS..\n\n0316 PM     TSTM WND GST     1 E SILVER              32.07N 100.66W\n03/27/2018  M62 MPH          COKE               TX   ASOS            \n\n            GUST RECORDED BY AIRPORT SENSOR. \n\n\n&&\n\nEVENT NUMBER SJT1800033\n\n$$\n\nSJT\n\n";
    let product = lsr_product("2018-03-27T21:18:00+00:00", "KSJT", body);
    let event = parse(&product).unwrap().unwrap();
    assert_eq!(event.title, "KSJT reports 62 MPH TSTM WND GST");
    let report = event.report.unwrap();
    assert_eq!(report.hazard, HazardType::Other { kind: "TSTM WND GST".to_string() });
    assert_eq!(report.magnitude, Some(6200));
    assert_eq!(report.units, Some(Units::Mph));
    assert_eq!(report.was_measured, Some(true));
    assert_eq!(report.reporter, "ASOS");
}

#[test]
fn parse_wind_damage_report() {
    let body = "\n106 \nNWUS54 KSJT 270116\nLSRSJT\n\nPRELIMINARY LOCAL STORM REPORT\nNational Weather Service San Angelo Tx\n316 PM CST MON MAR 27 2018\n\n..TIME...   ...EVENT...      ...CITY LOCATION...     ...LAT.LON...\n..DATE...   ....MAG....      ..COUNTY LOCATION..ST.. ...SOURCE....\n            ..REMARKS..\n\n0316 PM     TSTM WND DMG     1 E SILVER              32.07N 100.66W\n03/27/2018                   COKE               TX   PUBLIC          \n\n            LARGE TREE LIMBS DOWN ON HWY 208. \n\n\n&&\n\nEVENT NUMBER SJT1800034\n\n$$\n\nSJT\n\n";
    let product = lsr_product("2018-03-27T21:18:00+00:00", "KSJT", body);
    let event = parse(&product).unwrap().unwrap();
    assert_eq!(event.title, "KSJT reports TSTM WND DMG");
    let report = event.report.unwrap();
    assert_eq!(report.hazard, HazardType::Other { kind: "TSTM WND DMG".to_string() });
    assert_eq!(report.magnitude, None);
    assert_eq!(report.units, None);
    assert_eq!(report.was_measured, None);
}

#[test]
fn parse_hail_report() {
    let body = "\n106 \nNWUS54 KSJT 270116\nLSRSJT\n\nPRELIMINARY LOCAL STORM REPORT\nNational Weather Service San Angelo Tx\n316 PM CST MON MAR 27 2018\n\n..TIME...   ...EVENT...      ...CITY LOCATION...     ...LAT.LON...\n..DATE...   ....MAG....      ..COUNTY LOCATION..ST.. ...SOURCE....\n            ..REMARKS..\n\n0316 PM     HAIL             1 E SILVER              32.07N 100.66W\n03/27/2018  E1.25 INCH       COKE               TX   STORM CHASER    \n\n            1.25 HAIL ON HWY 208 NEAR SILVER \n\n\n&&\n\nEVENT NUMBER SJT1800032\n\n$$\n\nSJT\n\n";
    let product = lsr_product("2018-03-27T21:18:00+00:00", "KSJT", body);
    let event = parse(&product).unwrap().unwrap();
    assert_eq!(event.event_ts, 1522185480000000);
    assert_eq!(event.title, "KSJT reports 1.25 INCH Hail");
    let location = event.location.unwrap();
    assert_eq!(location.wfo.as_deref(), Some("KSJT"));
    let point = location.point.unwrap();
    assert_eq!(point.lat, 3207);
    assert_eq!(point.lon, -10066);
    let report = event.report.unwrap();
    assert_eq!(report.hazard, HazardType::Hail);
    assert_eq!(report.magnitude, Some(125));
    assert_eq!(report.units, Some(Units::Inches));
    assert_eq!(report.was_measured, Some(false));
    assert_eq!(report.reporter, "STORM CHASER");
    assert_eq!(report.report_ts, Some(1522185360000000));
    assert_eq!(event.text.as_deref(), Some("1.25 HAIL ON HWY 208 NEAR SILVER"));
}

#[test]
fn magnitude_with_one_fraction_digit_decodes_in_hundredths() {
    let body = "\n106 \nNWUS54 KSJT 270116\nLSRSJT\n\nPRELIMINARY LOCAL STORM REPORT\nNational Weather Service San Angelo Tx\n316 PM CST MON MAR 27 2018\n\n..TIME...   ...EVENT...      ...CITY LOCATION...     ...LAT.LON...\n..DATE...   ....MAG....      ..COUNTY LOCATION..ST.. ...SOURCE....\n            ..REMARKS..\n\n0316 PM     HAIL             1 E SILVER              32.07N 100.66W\n03/27/2018  E0.5 INCH        COKE               TX   STORM CHASER    \n\n            SMALL HAIL NEAR SILVER \n\n\n&&\n\nEVENT NUMBER SJT1800035\n\n$$\n\nSJT\n\n";
    let product = lsr_product("2018-03-27T21:18:00+00:00", "KSJT", body);
    let event = parse(&product).unwrap().unwrap();
    assert_eq!(event.title, "KSJT reports 0.5 INCH Hail");
    let report = event.report.unwrap();
    assert_eq!(report.magnitude, Some(50));
    assert_eq!(report.units, Some(Units::Inches));
}

#[test]
fn unknown_timezone_abbreviation_is_a_decode_error() {
    let body = TORNADO_LSR_BODY.replace("701 PM CDT TUE", "701 PM XYZ TUE");
    let product = lsr_product("2018-05-02T00:08:00+00:00", "KTOP", &body);
    let result = parse(&product);
    assert!(matches!(result, Err(ParseError::FieldDecode { .. })));
}

#[test]
fn magnitude_column_without_space_is_a_recovered_fault() {
    let body = TORNADO_LSR_BODY.replace(
        "05/01/2018                   PALM",
        "05/01/2018  M2.5INCH         PALM",
    );
    let product = lsr_product("2018-05-02T00:08:00+00:00", "KTOP", &body);
    let result = parse(&product);
    match result {
        Err(ParseError::RecoveredFault { bulletin_id }) => assert_eq!(bulletin_id, "id"),
        other => panic!("expected a recovered fault, got {:?}", other),
    }
}

use wxparse::domain::ParseError;
use wxparse::domain::Product;
use wxparse::ffw_parser;
use wxparse::patterns::Regexes;
use wxparse::svr_parser;
use wxparse::tor_parser;

const TOR_BODY: &str = "\n271 \nWFUS53 KTOP 020101\nTORTOP\nKSC027-161-201-020145-\n/O.NEW.KTOP.TO.W.0009.180502T0101Z-180502T0145Z/\n\nBULLETIN - EAS ACTIVATION REQUESTED\nTornado Warning\nNational Weather Service Topeka KS\n801 PM CDT TUE MAY 1 2018\n\nThe National Weather Service in Topeka has issued a\n\n* Tornado Warning for...\n  Northwestern Riley County in northeastern Kansas...\n  Southern Washington County in north central Kansas...\n  Northern Clay County in north central Kansas...\n\n* Until 845 PM CDT\n    \n* At 800 PM CDT, a large and extremely dangerous tornado was located\n  2 miles south of Clifton, moving northeast at 25 mph.\n\n  This is a PARTICULARLY DANGEROUS SITUATION. TAKE COVER NOW! \n\n  HAZARD...Damaging tornado. \n\n  SOURCE...Radar indicated rotation. \n\n  IMPACT...You are in a life-threatening situation. Flying debris \n           may be deadly to those caught without shelter. Mobile \n           homes will be destroyed. Considerable damage to homes, \n           businesses, and vehicles is likely and complete \n           destruction is possible. \n\n* The tornado will be near...\n  Morganville around 805 PM CDT. \n  Palmer around 820 PM CDT. \n  Linn around 830 PM CDT. \n  Greenleaf around 845 PM CDT. \n\nPRECAUTIONARY/PREPAREDNESS ACTIONS...\n\nTo repeat, a large, extremely dangerous and potentially deadly\ntornado is developing. To protect your life, TAKE COVER NOW! Move to\na basement or an interior room on the lowest floor of a sturdy\nbuilding. Avoid windows. If you are outdoors, in a mobile home, or in\na vehicle, move to the closest substantial shelter and protect\nyourself from flying debris.\n\nTornadoes are extremely difficult to see and confirm at night. Do not\nwait to see or hear the tornado. TAKE COVER NOW!\n\n&&\n\nLAT...LON 3977 9697 3950 9680 3939 9737 3959 9737\nTIME...MOT...LOC 0100Z 245DEG 24KT 3952 9728 \n\nTORNADO...RADAR INDICATED\nTORNADO DAMAGE THREAT...CONSIDERABLE\nHAIL...2.00IN\n\n$$\n\nBaerg\n\n";

fn tor_product(body: &str) -> Product {
    Product {
        _id: "_id".to_string(),
        id: "id".to_string(),
        wmo_collective_id: "WFUS53".to_string(),
        issuing_office: "KTOP".to_string(),
        issuance_time: "2018-05-02T01:01:00+00:00".to_string(),
        product_code: "TOR".to_string(),
        product_name: "Tornado Warning".to_string(),
        product_text: body.to_string(),
    }
}

#[test]
fn parse_tor_product() {
    let product = tor_product(TOR_BODY);
    let event = tor_parser::parse(&product, Regexes::new()).unwrap().unwrap();
    assert_eq!(event.event_ts, 1525222860000);
    assert_eq!(event.valid_ts, Some(1525222860000));
    assert_eq!(event.expires_ts, Some(1525225500000));
    assert_eq!(event.title, "KTOP issues tornado warning");
    assert_eq!(
        event.text.as_deref(),
        Some(
            "At 800 PM CDT, a large and extremely dangerous tornado was located\n  2 miles south of Clifton, moving northeast at 25 mph."
        )
    );
    let location = event.location.unwrap();
    assert_eq!(location.wfo.as_deref(), Some("KTOP"));
    let point = location.point.unwrap();
    assert_eq!(point.lat, 3952);
    assert_eq!(point.lon, -9728);
    let poly = location.poly.unwrap();
    let expected: Vec<(i32, i32)> = vec![
        (3977, -9697),
        (3950, -9680),
        (3939, -9737),
        (3959, -9737),
    ];
    assert_eq!(poly.len(), 4);
    for (v, e) in poly.iter().zip(expected.iter()) {
        assert_eq!(v.lat, e.0);
        assert_eq!(v.lon, e.1);
    }
    let warning = event.warning.unwrap();
    assert_eq!(warning.is_pds, false);
    assert_eq!(warning.is_tor_emergency, Some(false));
    assert_eq!(warning.was_observed, Some(false));
    assert_eq!(warning.motion_deg, Some(245));
    assert_eq!(warning.motion_kt, Some(24));
    assert_eq!(warning.source.as_deref(), Some("Radar indicated rotation"));
    assert_eq!(
        warning.issued_for,
        "Northwestern Riley County in northeastern Kansas...  Southern Washington County in north central Kansas...  Northern Clay County in north central Kansas..."
    );
    assert_eq!(warning.time, "0100Z");
    assert!(event.report.is_none());
    assert!(event.watch.is_none());
    assert!(event.outlook.is_none());
    assert_eq!(event.ingest_ts, 0);
}

#[test]
fn tornado_narrative_with_flag_phrases_sets_both_flags() {
    let body = TOR_BODY.replace(
        "a large and extremely dangerous tornado was located",
        "a PARTICULARLY DANGEROUS SITUATION and TORNADO EMERGENCY was declared for a tornado",
    );
    let product = tor_product(&body);
    let event = tor_parser::parse(&product, Regexes::new()).unwrap().unwrap();
    let warning = event.warning.unwrap();
    assert_eq!(warning.is_pds, true);
    assert_eq!(warning.is_tor_emergency, Some(true));
}

#[test]
fn tornado_narrative_without_flag_phrases_leaves_both_false() {
    let product = tor_product(TOR_BODY);
    let event = tor_parser::parse(&product, Regexes::new()).unwrap().unwrap();
    let warning = event.warning.unwrap();
    assert_eq!(warning.is_pds, false);
    assert_eq!(warning.is_tor_emergency, Some(false));
}

#[test]
fn tornado_missing_pattern_is_a_pattern_match_error() {
    let body = TOR_BODY.replace("TIME...MOT...LOC", "TIME-MOT-LOC");
    let product = tor_product(&body);
    let result = tor_parser::parse(&product, Regexes::new());
    assert!(matches!(result, Err(ParseError::PatternMatch { .. })));
}

#[test]
fn parse_svr_product_happy_path() {
    let body = "\n711 \nWUUS53 KDMX 132236\nSVRDMX\nIAC027-073-132315-\n/O.NEW.KDMX.SV.W.0021.180413T2236Z-180413T2315Z/\n\nBULLETIN - IMMEDIATE BROADCAST REQUESTED\nSevere Thunderstorm Warning\nNational Weather Service Des Moines IA\n536 PM CDT FRI APR 13 2018\n\nThe National Weather Service in Des Moines has issued a\n\n* Severe Thunderstorm Warning for...\n  Western Greene County in west central Iowa...\n  Eastern Carroll County in west central Iowa...\n\n* Until 615 PM CDT\n\n* At 536 PM CDT, a severe thunderstorm was located 7 miles southeast of Glidden, or 12 miles west of Jefferson, moving northeast at 30 mph.\n\n  HAZARD...60 mph wind gusts and quarter size hail. \n\n  SOURCE...Radar indicated. \n\n  IMPACT...Hail damage to vehicles is expected. \n\nPRECAUTIONARY/PREPAREDNESS ACTIONS...\n\nFor your protection move to an interior room on the lowest floor of a\nbuilding.\n\n&&\n\nLAT...LON 4221 9475 4221 9434 4191 9452 4191 9475\nTIME...MOT...LOC 2236Z 206DEG 24KT 4198 9462 \n\nHAIL...1.00IN\nWIND...60MPH\n\n$$\n";
    let product = Product {
        _id: "_id".to_string(),
        id: "id".to_string(),
        wmo_collective_id: "WUUS53".to_string(),
        issuing_office: "KDMX".to_string(),
        issuance_time: "2018-04-13T22:36:00+00:00".to_string(),
        product_code: "SVR".to_string(),
        product_name: "Severe Thunderstorm Warning".to_string(),
        product_text: body.to_string(),
    };
    let event = svr_parser::parse(&product, Regexes::new()).unwrap().unwrap();
    assert_eq!(event.event_ts, 1523658960000000);
    assert_eq!(event.valid_ts, Some(1523658960000000));
    assert_eq!(event.expires_ts, Some(1523661300000000));
    assert_eq!(event.title, "KDMX issues Sev Tstm Warning");
    assert_eq!(
        event.text.as_deref(),
        Some(
            "At 536 PM CDT, a severe thunderstorm was located 7 miles southeast of Glidden, or 12 miles west of Jefferson, moving northeast at 30 mph."
        )
    );
    let location = event.location.unwrap();
    assert_eq!(location.wfo.as_deref(), Some("KDMX"));
    let point = location.point.unwrap();
    assert_eq!(point.lat, 4198);
    assert_eq!(point.lon, -9462);
    let poly = location.poly.unwrap();
    let expected: Vec<(i32, i32)> = vec![
        (4221, -9475),
        (4221, -9434),
        (4191, -9452),
        (4191, -9475),
    ];
    assert_eq!(poly.len(), 4);
    for (v, e) in poly.iter().zip(expected.iter()) {
        assert_eq!(v.lat, e.0);
        assert_eq!(v.lon, e.1);
    }
    let warning = event.warning.unwrap();
    assert_eq!(warning.is_pds, false);
    assert_eq!(warning.is_tor_emergency, None);
    assert_eq!(warning.was_observed, None);
    assert_eq!(warning.motion_deg, Some(206));
    assert_eq!(warning.motion_kt, Some(24));
    assert_eq!(warning.source.as_deref(), Some("Radar indicated"));
    assert_eq!(
        warning.issued_for,
        "Western Greene County in west central Iowa... Eastern Carroll County in west central Iowa..."
    );
    assert_eq!(warning.time, "2236Z");
    assert!(event.report.is_none());
    assert_eq!(event.ingest_ts, 0);
}

#[test]
fn parse_ffw_product_happy_path() {
    let body = "\n893 \nWGUS53 KGID 020152\nFFWGID\nKSC123-141-020545-\n/O.NEW.KGID.FF.W.0005.180502T0152Z-180502T0545Z/\n\nBULLETIN - EAS ACTIVATION REQUESTED\nFlash Flood Warning\nNational Weather Service Hastings NE\n812 PM CDT TUE MAY 1 2018\n\nThe National Weather Service in Hastings has issued a\n\n* Flash Flood Warning for...\n  Mitchell County in north central Kansas...\n  Southeastern Osborne County in north central Kansas...\n\n* Until 1205 AM CDT\n\n* At 844 PM CDT, Doppler radar indicated thunderstorms producing\n  heavy rain across the warned area. Flash flooding is expected to \n  begin shortly. Three to five inches of rain have been estimated to \n  have already fallen for some areas, with potentially another \n  couple of inches of rain before ending Tuesday night.\n\nPRECAUTIONARY/PREPAREDNESS ACTIONS...\n\nTurn around, don't drown.\n\n&&\n\nLAT...LON 3935 9847 3953 9793 3922 9793 3922 9849\n      3913 9849 3913 9889\n\n$$\n";
    let product = Product {
        _id: "_id".to_string(),
        id: "id".to_string(),
        wmo_collective_id: "WGUS53".to_string(),
        issuing_office: "KGID".to_string(),
        issuance_time: "2018-05-02T01:52:00+00:00".to_string(),
        product_code: "FFW".to_string(),
        product_name: "Flash Flood Warning".to_string(),
        product_text: body.to_string(),
    };
    let event = ffw_parser::parse(&product, Regexes::new()).unwrap().unwrap();
    assert_eq!(event.event_ts, 1525225920000000);
    assert_eq!(event.valid_ts, Some(1525225920000000));
    assert_eq!(event.expires_ts, Some(1525239900000000));
    assert_eq!(event.title, "KGID issues Flash Flood Warning");
    assert_eq!(
        event.text.as_deref(),
        Some(
            "At 844 PM CDT, Doppler radar indicated thunderstorms producing heavy rain across the warned area. Flash flooding is expected to  begin shortly. Three to five inches of rain have been estimated to  have already fallen for some areas, with potentially another  couple of inches of rain before ending Tuesday night."
        )
    );
    let location = event.location.unwrap();
    assert_eq!(location.wfo.as_deref(), Some("KGID"));
    assert!(location.point.is_none());
    let poly = location.poly.unwrap();
    let expected: Vec<(i32, i32)> = vec![
        (3935, -9847),
        (3953, -9793),
        (3922, -9793),
        (3922, -9849),
        (3913, -9849),
        (3913, -9889),
    ];
    assert_eq!(poly.len(), 6);
    for (v, e) in poly.iter().zip(expected.iter()) {
        assert_eq!(v.lat, e.0);
        assert_eq!(v.lon, e.1);
    }
    let warning = event.warning.unwrap();
    assert_eq!(warning.is_pds, false);
    assert_eq!(warning.is_tor_emergency, None);
    assert_eq!(warning.was_observed, None);
    assert_eq!(warning.motion_deg, None);
    assert_eq!(warning.motion_kt, None);
    assert_eq!(warning.source, None);
    assert_eq!(
        warning.issued_for,
        "Mitchell County in north central Kansas... Southeastern Osborne County in north central Kansas..."
    );
    assert_eq!(warning.time, "");
    assert!(event.report.is_none());
    assert_eq!(event.ingest_ts, 0);
}

#[test]
fn svr_missing_every_pattern_is_a_pattern_match_error() {
    let product = Product {
        _id: "_id".to_string(),
        id: "id".to_string(),
        wmo_collective_id: "WUUS53".to_string(),
        issuing_office: "KDMX".to_string(),
        issuance_time: "2018-04-13T22:36:00+00:00".to_string(),
        product_code: "SVR".to_string(),
        product_name: "Severe Thunderstorm Warning".to_string(),
        product_text: "no structure at all".to_string(),
    };
    let result = svr_parser::parse(&product, Regexes::new());
    assert!(matches!(result, Err(ParseError::PatternMatch { .. })));
}

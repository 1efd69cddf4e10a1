use wxparse::domain::EventType;
use wxparse::domain::ParseError;
use wxparse::domain::Product;
use wxparse::patterns::Regexes;
use wxparse::sel_parser;
use wxparse::svs_parser;
use wxparse::swo_parser;

fn spc_product(code: &str, name: &str, body: &str) -> Product {
    Product {
        _id: "_id".to_string(),
        id: "id".to_string(),
        wmo_collective_id: "WWUS20".to_string(),
        issuing_office: "KWNS".to_string(),
        issuance_time: "2018-05-01T20:03:00+00:00".to_string(),
        product_code: code.to_string(),
        product_name: name.to_string(),
        product_text: body.to_string(),
    }
}

#[test]
fn parse_sel_watch_product() {
    let body = "\nSEL5\nURGENT - IMMEDIATE BROADCAST REQUESTED\nTornado Watch Number 45\nNWS Storm Prediction Center Norman OK\n303 PM CDT TUE MAY 1 2018\n\nThe NWS Storm Prediction Center has issued a\n\n* Tornado Watch for portions of \n  western Kansas\n  southwest Nebraska\n\n* Until 800 PM CDT.\n\n* Primary threats include...\n  A few tornadoes likely with a couple intense tornadoes possible\n\nATTN...WFO...GLD...DDC...\n\n";
    let product = spc_product("SEL", "Severe Local Storm Watch and Watch Cancellation Msg", body);
    let event = sel_parser::parse(&product, Regexes::new()).unwrap().unwrap();
    assert_eq!(event.event_type, EventType::NwsSel);
    assert_eq!(event.event_ts, 1525204980000000);
    assert_eq!(event.title, "KWNS issues Watch 45");
    let watch = event.watch.unwrap();
    assert_eq!(watch.id, 45);
    assert_eq!(watch.probability, None);
    assert_eq!(watch.wfos, "GLD...DDC...");
    assert_eq!(watch.areas, "western Kansas southwest Nebraska");
    assert!(event.location.is_none());
    assert!(event.warning.is_none());
    assert!(event.outlook.is_none());
}

#[test]
fn sel_without_watch_number_is_a_pattern_match_error() {
    let product = spc_product("SEL", "Watch", "no watch markers here at all");
    let result = sel_parser::parse(&product, Regexes::new());
    assert!(matches!(result, Err(ParseError::PatternMatch { .. })));
}

#[test]
fn parse_swo_mesoscale_discussion() {
    let body = "\nACUS11 KWNS 012003\nSWOMCD\nSPC MCD 012003 \nKSZ000-NEZ000-012200-\n\nMesoscale Discussion 0657\nNWS Storm Prediction Center Norman OK\n0303 PM CDT TUE MAY 1 2018\n\nAreas affected...Portions of central Kansas\n\nConcerning...Severe potential...Watch likely \n\nValid 012003Z - 012200Z\n\nProbability of Watch Issuance...80 percent\n\nSUMMARY...Storms are expected to intensify this afternoon.\n\nATTN...WFO...TOP...ICT...\n\n";
    let product = spc_product("SWO", "Severe Storm Outlook Narrative", body);
    let event = swo_parser::parse(&product, Regexes::new()).unwrap().unwrap();
    assert_eq!(event.event_type, EventType::NwsSwo);
    assert_eq!(event.title, "KWNS issues Mesoscale Discussion 0657");
    let outlook = event.outlook.unwrap();
    assert_eq!(outlook.id, 657);
    assert_eq!(outlook.probability, Some(80));
    assert_eq!(outlook.wfos, "TOP...ICT...");
    assert_eq!(outlook.areas, "Portions of central Kansas");
    assert!(event.watch.is_none());
}

#[test]
fn swo_without_discussion_number_is_a_pattern_match_error() {
    let product = spc_product("SWO", "Outlook", "nothing mesoscale about this text");
    let result = swo_parser::parse(&product, Regexes::new());
    assert!(matches!(result, Err(ParseError::PatternMatch { .. })));
}

#[test]
fn parse_svs_statement_passes_through() {
    let product = spc_product("SVS", "Severe Weather Statement", "any body at all");
    let result = svs_parser::parse(&product).unwrap();
    assert!(result.is_none());
}

use wxparse::afd_parser::parse;
use wxparse::domain::EventType;
use wxparse::domain::ParseError;
use wxparse::domain::Product;

fn afd_product(issuance_time: &str, office: &str) -> Product {
    Product {
        _id: "https://api.weather.gov/products/d0b93b47-1052-4b07-965e-286025226ba8".to_string(),
        id: "d0b93b47-1052-4b07-965e-286025226ba8".to_string(),
        wmo_collective_id: "FXUS63".to_string(),
        issuing_office: office.to_string(),
        issuance_time: issuance_time.to_string(),
        product_code: "AFD".to_string(),
        product_name: "Area Forecast Discussion".to_string(),
        product_text: ".SHORT TERM...quiet weather expected through the weekend.\n\n$$\n".to_string(),
    }
}

#[test]
fn parse_afd_product() {
    let product = afd_product("2018-04-14T02:07:00+00:00", "KMPX");
    let event = parse(&product).unwrap().unwrap();
    assert_eq!(event.event_ts, 1523671620000000);
    assert_eq!(event.event_type, EventType::NwsAfd);
    assert_eq!(event.title, "Area Forecast Discussion (KMPX)");
    assert_eq!(
        event.ext_uri.as_deref(),
        Some("https://api.weather.gov/products/d0b93b47-1052-4b07-965e-286025226ba8")
    );
    assert!(event.expires_ts.is_none());
    assert!(event.valid_ts.is_none());
    assert!(event.location.is_none());
    assert!(event.report.is_none());
    assert!(event.warning.is_none());
    assert!(event.watch.is_none());
    assert!(event.outlook.is_none());
    assert!(event.text.is_none());
    assert_eq!(event.ingest_ts, 0);
}

#[test]
fn afd_issued_by_ktop_yields_titled_event() {
    let product = afd_product("2018-05-02T01:01:00+00:00", "KTOP");
    let event = parse(&product).unwrap().unwrap();
    assert_eq!(event.event_ts, 1525222860000000);
    assert_eq!(event.title, "Area Forecast Discussion (KTOP)");
    assert!(event.location.is_none());
    assert!(event.warning.is_none());
    assert!(event.report.is_none());
}

#[test]
fn afd_with_malformed_issuance_time_is_a_decode_error() {
    let product = afd_product("yesterday evening", "KMPX");
    let result = parse(&product);
    assert!(matches!(result, Err(ParseError::FieldDecode { .. })));
}

use wxparse::domain::ParseError;
use wxparse::domain::Product;
use wxparse::parser::decode_four_node_poly;
use wxparse::parser::parse;
use wxparse::parser::short_time_to_ticks;
use wxparse::parser::str_to_latlon;

fn latlon_f32(input: &str, invert: bool) -> f32 {
    str_to_latlon(input, invert).unwrap() as f32 / 100.0
}

#[test]
fn str_to_latlon_should_parse_correctly() {
    let tests = vec![
        // input, invert, expected
        ("3000", false, 30.0),
        ("3156", false, 31.56),
        ("9234", true, -92.34),
        ("9000", true, -90.0),
        ("0156", true, -101.56),
        ("10156", true, -101.56),
    ];

    tests.iter().for_each(|x| {
        let result = latlon_f32(x.0, x.1);
        assert_eq!(x.2, result);
    });
}

#[test]
fn str_to_latlon_rejects_non_numerals() {
    assert!(matches!(
        str_to_latlon("39.77", false),
        Err(ParseError::FieldDecode { .. })
    ));
    assert!(matches!(
        str_to_latlon("", true),
        Err(ParseError::FieldDecode { .. })
    ));
}

#[test]
fn short_time_to_ticks_should_return_correct_ticks() {
    let short_time = "190522T2100Z";
    let result = short_time_to_ticks(short_time).unwrap();
    assert_eq!(result, 1558558800000000);
}

#[test]
fn short_time_to_ticks_rejects_malformed_input() {
    assert!(matches!(
        short_time_to_ticks("not a time"),
        Err(ParseError::FieldDecode { .. })
    ));
}

#[test]
fn four_node_poly_decodes_vertices() {
    let vertices = decode_four_node_poly(
        "3977 9697 3950 9680 3939 9737 3959 9737",
        &"id".to_string(),
    )
    .unwrap();
    let expected: Vec<(i32, i32)> = vec![
        (3977, -9697),
        (3950, -9680),
        (3939, -9737),
        (3959, -9737),
    ];
    assert_eq!(vertices.len(), 4);
    for (v, e) in vertices.iter().zip(expected.iter()) {
        assert_eq!(v.lat, e.0);
        assert_eq!(v.lon, e.1);
    }
}

#[test]
fn dispatch_routes_by_product_code() {
    let product = Product {
        _id: "https://api.weather.gov/products/some-afd".to_string(),
        id: "some-afd".to_string(),
        wmo_collective_id: "FXUS63".to_string(),
        issuing_office: "KMPX".to_string(),
        issuance_time: "2018-04-14T02:07:00+00:00".to_string(),
        product_code: "AFD".to_string(),
        product_name: "Area Forecast Discussion".to_string(),
        product_text: ".DISCUSSION...\n\n$$\n".to_string(),
    };
    let event = parse(&product).unwrap().unwrap();
    assert_eq!(event.title, "Area Forecast Discussion (KMPX)");
    assert_eq!(event.event_ts, 1523671620000000);
}

#[test]
fn dispatch_unknown_product_code_is_an_error() {
    let product = Product {
        _id: "_id".to_string(),
        id: "id".to_string(),
        wmo_collective_id: "WFUS53".to_string(),
        issuing_office: "KTOP".to_string(),
        issuance_time: "2018-05-02T01:01:00+00:00".to_string(),
        product_code: "ZZZ".to_string(),
        product_name: "Mystery Product".to_string(),
        product_text: "nothing to see".to_string(),
    };
    let result = parse(&product);
    match result {
        Err(ParseError::UnknownProduct { code }) => assert_eq!(code, "ZZZ"),
        other => panic!("expected an unknown-product error, got {:?}", other),
    }
}

use wxparse::domain::Context;
use wxparse::domain::ListProduct;
use wxparse::domain::ProductsResult;
use wxparse::products::get_new_products;

fn list_product(id: &str, issuance_time: &str) -> ListProduct {
    ListProduct {
        _id: format!("https://api.weather.gov/products/{}", id),
        id: id.to_string(),
        wmo_collective_id: "WFUS53".to_string(),
        issuing_office: "KTOP".to_string(),
        issuance_time: issuance_time.to_string(),
        product_code: "TOR".to_string(),
        product_name: "Tornado Warning".to_string(),
    }
}

#[test]
fn get_new_products_should_only_parse_newer_products() {
    // the listing is newest first; the last seen bulletin was issued at
    // 2019-04-22T23:51:00Z, i.e. 1555977060000000 microsecond ticks
    let last_ts: u64 = 1555977060000000;
    let listing = ProductsResult {
        _context: Context { _vocab: "https://api.weather.gov/ontology#".to_string() },
        products: vec![
            list_product("e0fdf7de-6229-4330-9d4d-3a2af96ffa4c", "2019-04-23T00:11:00+00:00"),
            list_product("e0fdf7de-6229-4330-9d4d-3a2af96ffa4d", "2019-04-22T23:55:00+00:00"),
            list_product("already-seen", "2019-04-22T23:51:00+00:00"),
            list_product("even-older", "2019-04-22T22:00:00+00:00"),
        ],
    };
    let new_products = get_new_products(last_ts, listing);
    let ids: Vec<&str> = new_products.iter().map(|x| x.id.as_str()).collect();
    let expected_ids = vec![
        "e0fdf7de-6229-4330-9d4d-3a2af96ffa4c",
        "e0fdf7de-6229-4330-9d4d-3a2af96ffa4d",
    ];
    assert_eq!(expected_ids, ids);
}

#[test]
fn get_new_products_skips_entries_with_malformed_timestamps() {
    let last_ts: u64 = 1555977060000000;
    let listing = ProductsResult {
        _context: Context { _vocab: "https://api.weather.gov/ontology#".to_string() },
        products: vec![
            list_product("fresh", "2019-04-23T00:11:00+00:00"),
            list_product("garbled", "not a timestamp"),
            list_product("also-fresh", "2019-04-22T23:55:00+00:00"),
            list_product("already-seen", "2019-04-22T23:51:00+00:00"),
        ],
    };
    let new_products = get_new_products(last_ts, listing);
    let ids: Vec<&str> = new_products.iter().map(|x| x.id.as_str()).collect();
    assert_eq!(vec!["fresh", "also-fresh"], ids);
}

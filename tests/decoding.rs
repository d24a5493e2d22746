use eansearch::json::Json;
use eansearch::{
    decode_checksum, decode_country, decode_image, decode_list, decode_lookup, list_outcome,
    lookup_outcome, EanError,
};

const THRILLER: &str = r#"[{"ean":"5099750442227","name":"Michael Jackson: Thriller","categoryId":"45","categoryName":"Music","googleCategoryId":"855","issuingCountry":"UK"}]"#;

const LINUX_BOOK: &str = r#"[{"ean":"9781119578888","name":"Linux Bible","categoryId":"15","categoryName":"Books and Magazines","googleCategoryId":"784","issuingCountry":"US"}]"#;

fn api(m: &str) -> EanError {
    EanError::Api(m.to_string())
}

#[test]
fn test_barcode_lookup() {
    let product = decode_lookup(THRILLER);
    assert!(product.is_ok());
    let product = product.unwrap();
    assert!(product.is_some());
    let product = product.unwrap();
    assert_eq!(product.ean, 5099750442227);
    assert!(product.name.contains("Thriller"));
    assert_eq!(product.category_id, 45);
    assert_eq!(product.category_name, "Music");
    assert_eq!(product.google_category_id, 855);
    assert_eq!(product.issuing_country, "UK");
}

#[test]
fn test_barcode_lookup_invalid() {
    let product = decode_lookup(r#"[{"error":"Invalid barcode"}]"#);
    assert!(product.is_err());
    assert_eq!(product, Err(api("Invalid barcode")));
}

#[test]
fn test_barcode_lookup_not_found() {
    let product = decode_lookup(r#"[{"error":"Barcode not found"}]"#);
    assert!(product.is_ok());
    assert!(!product.unwrap().is_some());
}

#[test]
fn test_barcode_lookup_api_error() {
    let product = decode_lookup(r#"[{"error":"Invalid token"}]"#);
    assert!(product.is_err());
    assert_eq!(product.unwrap_err().message(), "Invalid token");
}

#[test]
fn test_isbn_lookup() {
    let product = decode_lookup(LINUX_BOOK);
    assert!(product.is_ok());
    let product = product.unwrap();
    assert!(product.is_some());
    let product = product.unwrap();
    assert!(product.name.contains("Linux"));
    assert_eq!(product.category_id, 15);
    assert_eq!(product.category_name, "Books and Magazines");
    assert_eq!(product.google_category_id, 784);
}

#[test]
fn lookup_takes_first_of_several() {
    let body = r#"[{"ean":"1","name":"a","categoryId":"-2","categoryName":"c","googleCategoryId":"+3","issuingCountry":"DE","extra":7},
                   {"ean":"2","name":"b","categoryId":"4","categoryName":"d","googleCategoryId":"5","issuingCountry":"FR"}]"#;
    let p = decode_lookup(body).unwrap().unwrap();
    assert_eq!(p.ean, 1);
    assert_eq!(p.name, "a");
    assert_eq!(p.category_id, -2);
    assert_eq!(p.google_category_id, 3);
    assert_eq!(p.issuing_country, "DE");
}

#[test]
fn lookup_rejects_unrecognised_answers() {
    assert_eq!(decode_lookup("not json"), Err(EanError::Undefined));
    assert_eq!(decode_lookup("null"), Err(EanError::Undefined));
    assert_eq!(decode_lookup("[]"), Err(EanError::Undefined));
    assert_eq!(decode_lookup(r#"{"error":"Invalid token"}"#), Err(EanError::Undefined));
    assert_eq!(EanError::Undefined.message(), "Undefined API error");
}

#[test]
fn lookup_rejects_numbers_out_of_range_or_unquoted() {
    let too_big = THRILLER.replace("5099750442227", "18446744073709551616");
    assert_eq!(decode_lookup(&too_big), Err(EanError::Undefined));
    let unquoted = THRILLER.replace(r#""45""#, "45");
    assert_eq!(decode_lookup(&unquoted), Err(EanError::Undefined));
    let largest = THRILLER.replace("5099750442227", "18446744073709551615");
    assert_eq!(decode_lookup(&largest).unwrap().unwrap().ean, u64::MAX);
}

#[test]
fn lookup_prefers_the_product_shape() {
    let both = r#"[{"ean":"7","name":"n","categoryId":"1","categoryName":"c","googleCategoryId":"2","issuingCountry":"X","error":"Barcode not found"}]"#;
    assert_eq!(decode_lookup(both).unwrap().unwrap().ean, 7);
}

#[test]
fn lookup_outcome_on_a_built_document() {
    let err = Json::Array(vec![Json::Object(vec![(
        "error".to_string(),
        Json::Str("Barcode not found".to_string()),
    )])]);
    assert_eq!(lookup_outcome(&Some(err)), Ok(None));
    assert_eq!(lookup_outcome(&None), Err(EanError::Undefined));
}

fn product_list(eans: &[&str]) -> String {
    let items: Vec<String> = eans
        .iter()
        .map(|e| {
            format!(
                r#"{{"ean":"{}","name":"Product {}","categoryId":"45","categoryName":"Music","issuingCountry":"UK"}}"#,
                e, e
            )
        })
        .collect();
    format!(r#"{{"page":0,"moreproducts":false,"productlist":[{}]}}"#, items.join(","))
}

#[test]
fn test_barcode_prefix_search() {
    let body = product_list(&["5099750442227", "5099750442234", "0509975044001"]);
    let product_list = decode_list(&body);
    assert!(product_list.is_ok());
    assert!(!product_list.as_ref().unwrap().is_empty());
    let list = product_list.unwrap();
    assert_eq!(list.len(), 3);
    assert_eq!(list[2].ean, 509975044001);
    for p in &list[0..2] {
        assert!(format!("{:0>13}", p.ean).starts_with("509975044"));
    }
}

#[test]
fn test_barcode_prefix_search_too_short() {
    let product_list = decode_list(r#"[{"error":"Prefix too short"}]"#);
    assert!(product_list.is_err());
}

#[test]
fn test_product_search() {
    let product_list = decode_list(&product_list(&["4006381333931"]));
    assert!(product_list.is_ok());
    assert!(!product_list.as_ref().unwrap().is_empty());
}

#[test]
fn test_product_search_not_found() {
    let product_list = decode_list(r#"{"page":0,"moreproducts":false,"totalproducts":0,"productlist":[]}"#);
    assert!(product_list.is_ok());
    assert!(product_list.as_ref().unwrap().is_empty());
}

#[test]
fn test_similar_product_search_found() {
    let product_list = decode_list(&product_list(&["1", "2"]));
    assert!(product_list.is_ok());
    assert!(!product_list.as_ref().unwrap().is_empty());
}

#[test]
fn test_product_search_api_error() {
    let product_list = decode_list(r#"[{"error":"Invalid token"}]"#);
    assert!(product_list.is_err());
    assert_eq!(product_list, Err(api("Invalid token")));
}

#[test]
fn test_category_search() {
    let product_list = decode_list(&product_list(&["5099750442227"]));
    assert!(product_list.is_ok());
    assert_eq!(product_list.unwrap()[0].category_id, 45);
}

#[test]
fn list_rejects_unrecognised_answers() {
    assert_eq!(decode_list("<html>"), Err(EanError::Undefined));
    assert_eq!(decode_list(r#"{"page":0}"#), Err(EanError::Undefined));
    assert_eq!(decode_list(r#"{"productlist":null}"#), Err(EanError::Undefined));
    assert_eq!(decode_list(r#"{"productlist":[{"ean":"x"}]}"#), Err(EanError::Undefined));
    assert_eq!(decode_list("[]"), Err(EanError::Undefined));
    assert_eq!(list_outcome(&None), Err(EanError::Undefined));
}

#[test]
fn list_reads_the_first_error() {
    let body = r#"[{"error":"First"},{"error":"Second"}]"#;
    assert_eq!(decode_list(body), Err(api("First")));
}

#[test]
fn test_issuing_country() {
    let country_lookup = decode_country(r#"[{"ean":"5099750442227","issuingCountry":"UK"}]"#);
    assert!(country_lookup.is_ok());
    assert!(country_lookup.unwrap() == "UK");
}

#[test]
fn test_verify_checksum() {
    let checksum_ok = decode_checksum(r#"[{"ean":"5099750442227","valid":"1"}]"#);
    assert!(checksum_ok.is_ok());
    assert!(checksum_ok.unwrap() == true);
}

#[test]
fn test_verify_checksum_fail() {
    let checksum_ok = decode_checksum(r#"[{"ean":"1","valid":"0"}]"#);
    assert!(checksum_ok.is_ok());
    assert!(checksum_ok.unwrap() == false);
}

#[test]
fn test_barcode_image() {
    let img = decode_image(r#"[{"ean":"5099750442227","barcode":"iVBORw0KGgo"}]"#);
    assert!(img.is_ok());
    assert_eq!(img.unwrap(), vec![0x89, 0x50, 0x4e, 0x47, 0x0d, 0x0a, 0x1a, 0x0a]);
}

#[test]
fn image_rejects_bad_base64() {
    let padded = decode_image(r#"[{"ean":"5099750442227","barcode":"iVBORw0KGgo="}]"#);
    assert_eq!(padded, Err(EanError::BadImage));
    let garbage = decode_image(r#"[{"ean":"5099750442227","barcode":"!!!"}]"#);
    assert_eq!(garbage, Err(EanError::BadImage));
}

#[test]
fn invalid_token_fails_every_operation() {
    let body = r#"[{"error":"Invalid token"}]"#;
    assert_eq!(decode_lookup(body), Err(api("Invalid token")));
    assert_eq!(decode_list(body), Err(api("Invalid token")));
    assert_eq!(decode_country(body), Err(api("Invalid token")));
    assert_eq!(decode_checksum(body), Err(api("Invalid token")));
    assert_eq!(decode_image(body), Err(api("Invalid token")));
}

#[test]
fn scalar_queries_report_not_found_as_an_error() {
    let body = r#"[{"error":"Barcode not found"}]"#;
    assert_eq!(decode_country(body), Err(api("Barcode not found")));
    assert_eq!(decode_checksum(body), Err(api("Barcode not found")));
    assert_eq!(decode_country("{}"), Err(EanError::Undefined));
}

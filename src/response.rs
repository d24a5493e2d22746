//! Classifying the service's answers.
//!
//! An answer is read in a fixed order: first as the shape that the operation
//! expects on success, then as the service's error shape (a non-empty array of
//! objects, each with a string member `error`), and where it is neither, it is
//! an unrecognised answer. Lookups treat the error "Barcode not found" as an
//! absent product; list searches read the error shape first, since their
//! success shape is an object and cannot be mistaken for it.

use vstd::prelude::*;
use crate::json::{get_member, json_of, member, parse_json, Json};
use crate::records::{
    decode_records, records_of, ChecksumRecord, CountryRecord, ErrorRecord, ExtProduct,
    ImageRecord, Product, Record,
};

verus! {

/// How an operation fails.
#[derive(Clone, Debug, PartialEq, Eq)]
pub enum EanError {
    /// The service reported an error, with this text.
    Api(String),
    /// The answer has none of the shapes that the service gives.
    Undefined,
    /// The barcode image in the answer is not base64 text.
    BadImage,
    /// A response reported its credit count in a form that is not a decimal integer.
    BadCreditsHeader,
}

impl EanError {
    /// A text that describes the failure: for an error that the service
    /// reported, the service's own text.
    pub fn message(&self) -> (r: String)
        ensures
            match self {
                EanError::Api(m) => r@ == m@,
                EanError::Undefined => r@ == "Undefined API error"@,
                EanError::BadImage => r@ == "Barcode image is not base64"@,
                EanError::BadCreditsHeader => r@ == "Credit count is not a decimal integer"@,
            },
    {
        match self {
            EanError::Api(m) => m.clone(),
            EanError::Undefined => String::from_str("Undefined API error"),
            EanError::BadImage => String::from_str("Barcode image is not base64"),
            EanError::BadCreditsHeader => String::from_str("Credit count is not a decimal integer"),
        }
    }
}

/// The text of the error that marks an absent product.
pub open spec fn not_found_text() -> Seq<char> {
    "Barcode not found"@
}

/// The first record of a non-empty JSON array of records.
pub open spec fn first_record<T: Record>(body: Option<Json>) -> Option<T> {
    match body {
        Some(j) => match records_of::<T>(j) {
            Some(rs) => if rs.len() > 0 { Some(rs[0]) } else { None },
            None => None,
        },
        None => None,
    }
}

/// The text of the first error, where the answer has the error shape.
pub open spec fn error_message(body: Option<Json>) -> Option<String> {
    match first_record::<ErrorRecord>(body) {
        Some(e) => Some(e.error),
        None => None,
    }
}

/// The failure for an answer without the expected success shape.
pub open spec fn failure(body: Option<Json>) -> EanError {
    match error_message(body) {
        Some(m) => EanError::Api(m),
        None => EanError::Undefined,
    }
}

/// The outcome of a barcode or ISBN lookup.
pub open spec fn lookup_result(body: Option<Json>) -> Result<Option<ExtProduct>, EanError> {
    match first_record::<ExtProduct>(body) {
        Some(p) => Ok(Some(p)),
        None => match error_message(body) {
            Some(m) => if m@ == not_found_text() {
                Ok(None)
            } else {
                Err(EanError::Api(m))
            },
            None => Err(EanError::Undefined),
        },
    }
}

/// The outcome of a list search: the records under `productlist`.
pub open spec fn list_result(body: Option<Json>) -> Result<Seq<Product>, EanError> {
    match error_message(body) {
        Some(m) => Err(EanError::Api(m)),
        None => match body {
            Some(Json::Object(fields)) => match member(fields@, "productlist"@) {
                Some(list) => match records_of::<Product>(list) {
                    Some(ps) => Ok(ps),
                    None => Err(EanError::Undefined),
                },
                None => Err(EanError::Undefined),
            },
            _ => Err(EanError::Undefined),
        },
    }
}

/// The outcome of an issuing-country query.
pub open spec fn country_result(body: Option<Json>) -> Result<String, EanError> {
    match first_record::<CountryRecord>(body) {
        Some(c) => Ok(c.issuing_country),
        None => Err(failure(body)),
    }
}

/// The outcome of a checksum query: whether the service answered `"1"`.
pub open spec fn checksum_result(body: Option<Json>) -> Result<bool, EanError> {
    match first_record::<ChecksumRecord>(body) {
        Some(c) => Ok(c.valid@ == "1"@),
        None => Err(failure(body)),
    }
}

/// The base64 text of the image that a barcode-image answer carries.
pub open spec fn image_payload(body: Option<Json>) -> Result<String, EanError> {
    match first_record::<ImageRecord>(body) {
        Some(c) => Ok(c.barcode),
        None => Err(failure(body)),
    }
}

/// Reads the first record of a non-empty JSON array of records.
pub fn first_of<T: Record>(body: &Option<Json>) -> (r: Option<T>)
    ensures
        r == first_record::<T>(*body),
{
    match body {
        Some(j) => match decode_records::<T>(j) {
            Some(mut rs) => {
                if rs.len() > 0 {
                    Some(rs.remove(0))
                } else {
                    None
                }
            },
            None => None,
        },
        None => None,
    }
}

/// The text of the first error, where the answer has the error shape.
pub fn error_of(body: &Option<Json>) -> (r: Option<String>)
    ensures
        r == error_message(*body),
{
    match first_of::<ErrorRecord>(body) {
        Some(e) => Some(e.error),
        None => None,
    }
}

fn failure_of(body: &Option<Json>) -> (r: EanError)
    ensures
        r == failure(*body),
{
    match error_of(body) {
        Some(m) => EanError::Api(m),
        None => EanError::Undefined,
    }
}

/// Classifies the answer to a lookup, already read as JSON.
pub fn lookup_outcome(body: &Option<Json>) -> (r: Result<Option<ExtProduct>, EanError>)
    ensures
        r == lookup_result(*body),
{
    match first_of::<ExtProduct>(body) {
        Some(p) => Ok(Some(p)),
        None => match error_of(body) {
            Some(m) => {
                let absent = String::from_str("Barcode not found");
                if m == absent {
                    Ok(None)
                } else {
                    Err(EanError::Api(m))
                }
            },
            None => Err(EanError::Undefined),
        },
    }
}

/// Classifies the answer to a list search, already read as JSON.
pub fn list_outcome(body: &Option<Json>) -> (r: Result<Vec<Product>, EanError>)
    ensures
        match r {
            Ok(v) => list_result(*body) == Ok::<Seq<Product>, EanError>(v@),
            Err(e) => list_result(*body) == Err::<Seq<Product>, EanError>(e),
        },
{
    match error_of(body) {
        Some(m) => Err(EanError::Api(m)),
        None => match body {
            Some(Json::Object(fields)) => match get_member(fields, "productlist") {
                Some(list) => match decode_records::<Product>(list) {
                    Some(ps) => Ok(ps),
                    None => Err(EanError::Undefined),
                },
                None => Err(EanError::Undefined),
            },
            _ => Err(EanError::Undefined),
        },
    }
}

/// Classifies the answer to an issuing-country query, already read as JSON.
pub fn country_outcome(body: &Option<Json>) -> (r: Result<String, EanError>)
    ensures
        r == country_result(*body),
{
    match first_of::<CountryRecord>(body) {
        Some(c) => Ok(c.issuing_country),
        None => Err(failure_of(body)),
    }
}

/// Classifies the answer to a checksum query, already read as JSON.
pub fn checksum_outcome(body: &Option<Json>) -> (r: Result<bool, EanError>)
    ensures
        r == checksum_result(*body),
{
    match first_of::<ChecksumRecord>(body) {
        Some(c) => {
            let one = String::from_str("1");
            Ok(c.valid == one)
        },
        None => Err(failure_of(body)),
    }
}

/// Picks the base64 image text out of a barcode-image answer, already read as JSON.
pub fn image_outcome(body: &Option<Json>) -> (r: Result<String, EanError>)
    ensures
        r == image_payload(*body),
{
    match first_of::<ImageRecord>(body) {
        Some(c) => Ok(c.barcode),
        None => Err(failure_of(body)),
    }
}

/// What base64 decoding with the standard alphabet and no padding makes of a
/// text: the bytes it encodes, or `None` where it is no such text.
pub uninterp spec fn base64_no_pad_of(text: Seq<char>) -> Option<Seq<u8>>;

/// Relies on `base64::Engine::decode` with `general_purpose::STANDARD_NO_PAD`:
/// the bytes that the text encodes, or an error, depending on the text alone.
#[verifier::external_body]
fn decode_base64(text: &str) -> (r: Option<Vec<u8>>)
    ensures
        match r {
            Some(b) => base64_no_pad_of(text@) == Some(b@),
            None => base64_no_pad_of(text@) is None,
        },
{
    base64::Engine::decode(&base64::engine::general_purpose::STANDARD_NO_PAD, text).ok()
}

/// The outcome of a barcode-image query: the decoded image bytes.
pub open spec fn image_result(body: Option<Json>) -> Result<Seq<u8>, EanError> {
    match image_payload(body) {
        Ok(p) => match base64_no_pad_of(p@) {
            Some(b) => Ok(b),
            None => Err(EanError::BadImage),
        },
        Err(e) => Err(e),
    }
}

/// Classifies the body of a lookup answer.
pub fn decode_lookup(text: &str) -> (r: Result<Option<ExtProduct>, EanError>)
    ensures
        r == lookup_result(json_of(text@)),
{
    lookup_outcome(&parse_json(text))
}

/// Classifies the body of a list-search answer.
pub fn decode_list(text: &str) -> (r: Result<Vec<Product>, EanError>)
    ensures
        match r {
            Ok(v) => list_result(json_of(text@)) == Ok::<Seq<Product>, EanError>(v@),
            Err(e) => list_result(json_of(text@)) == Err::<Seq<Product>, EanError>(e),
        },
{
    list_outcome(&parse_json(text))
}

/// Classifies the body of an issuing-country answer.
pub fn decode_country(text: &str) -> (r: Result<String, EanError>)
    ensures
        r == country_result(json_of(text@)),
{
    country_outcome(&parse_json(text))
}

/// Classifies the body of a checksum answer.
pub fn decode_checksum(text: &str) -> (r: Result<bool, EanError>)
    ensures
        r == checksum_result(json_of(text@)),
{
    checksum_outcome(&parse_json(text))
}

/// Classifies the body of a barcode-image answer and decodes the image.
pub fn decode_image(text: &str) -> (r: Result<Vec<u8>, EanError>)
    ensures
        match r {
            Ok(v) => image_result(json_of(text@)) == Ok::<Seq<u8>, EanError>(v@),
            Err(e) => image_result(json_of(text@)) == Err::<Seq<u8>, EanError>(e),
        },
{
    match image_outcome(&parse_json(text)) {
        Ok(p) => match decode_base64(p.as_str()) {
            Some(b) => Ok(b),
            None => Err(EanError::BadImage),
        },
        Err(e) => Err(e),
    }
}

/// The service's error answer with the text `m`: an array of one object whose
/// only member is `error`.
pub open spec fn is_error_answer(body: Option<Json>, m: String) -> bool {
    match body {
        Some(Json::Array(items)) => items@.len() == 1 && match items@[0] {
            Json::Object(fields) => fields@.len() == 1 && fields@[0].0@ == "error"@
                && fields@[0].1 == Json::Str(m),
            _ => false,
        },
        _ => false,
    }
}

/// Where the service answers with an error other than "Barcode not found",
/// every operation fails with that error's text.
pub proof fn lemma_service_error_reaches_caller(body: Option<Json>, m: String)
    requires
        is_error_answer(body, m),
        m@ != not_found_text(),
    ensures
        lookup_result(body) == Err::<Option<ExtProduct>, EanError>(EanError::Api(m)),
        list_result(body) == Err::<Seq<Product>, EanError>(EanError::Api(m)),
        country_result(body) == Err::<String, EanError>(EanError::Api(m)),
        checksum_result(body) == Err::<bool, EanError>(EanError::Api(m)),
        image_result(body) == Err::<Seq<u8>, EanError>(EanError::Api(m)),
{
    reveal_strlit("error");
    reveal_strlit("ean");
    let items = match body {
        Some(Json::Array(items)) => items,
        _ => arbitrary(),
    };
    let fields = match items@[0] {
        Json::Object(fields) => fields,
        _ => arbitrary(),
    };
    assert(fields@.drop_first().len() == 0);
    assert(member(fields@, "error"@) == Some(Json::Str(m)));
    assert("error"@.len() == 5 && "ean"@.len() == 3);
    assert(fields@[0].0@ != "ean"@);
    assert(member(fields@.drop_first(), "ean"@) is None);
    assert(member(fields@, "ean"@) is None);
    assert(ErrorRecord::from_json(items@[0]) == Some(ErrorRecord { error: m }));
    let errors = Seq::new(1, |i: int| ErrorRecord::from_json(items@[i]).unwrap());
    assert(records_of::<ErrorRecord>(body.unwrap()) == Some(errors));
    assert(error_message(body) == Some(m));
    assert(ExtProduct::from_json(items@[0]) is None);
    assert(CountryRecord::from_json(items@[0]) is None);
    assert(ChecksumRecord::from_json(items@[0]) is None);
    assert(ImageRecord::from_json(items@[0]) is None);
    assert(first_record::<ExtProduct>(body) is None);
    assert(first_record::<CountryRecord>(body) is None);
    assert(first_record::<ChecksumRecord>(body) is None);
    assert(first_record::<ImageRecord>(body) is None);
}

} // verus!

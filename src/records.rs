//! The records that the service's answers carry, and reading them from JSON.
//!
//! Numeric identifiers travel as JSON strings holding decimal text. A record
//! is read from an object that has each of its members; other members are
//! ignored.

use vstd::prelude::*;
use crate::decimal::{i32_of, parse_i32, parse_u64, u64_of};
use crate::json::{get_str, str_member, Json};

verus! {

/// A product of the database.
#[derive(Clone, Debug, PartialEq, Eq)]
pub struct Product {
    pub ean: u64,
    pub name: String,
    pub category_id: i32,
    pub category_name: String,
    pub issuing_country: String,
}

/// A product of the database, with its category in Google's taxonomy.
#[derive(Clone, Debug, PartialEq, Eq)]
pub struct ExtProduct {
    pub ean: u64,
    pub name: String,
    pub category_id: i32,
    pub category_name: String,
    pub google_category_id: i32,
    pub issuing_country: String,
}

/// The answer to an issuing-country query.
pub struct CountryRecord {
    pub ean: u64,
    pub issuing_country: String,
}

/// The answer to a checksum query; `valid` is `"1"` for a valid check digit.
pub struct ChecksumRecord {
    pub ean: u64,
    pub valid: String,
}

/// The answer to a barcode-image query; `barcode` is the image in base64.
pub struct ImageRecord {
    pub ean: u64,
    pub barcode: String,
}

/// An error that the service reports.
pub struct ErrorRecord {
    pub error: String,
}

/// A record that can be read from a JSON object.
pub trait Record: Sized {
    /// The record that `j` holds, if it holds one.
    spec fn from_json(j: Json) -> Option<Self>;

    /// Reads the record that `j` holds.
    fn decode(j: &Json) -> (r: Option<Self>)
        ensures
            r == Self::from_json(*j),
    ;
}

/// The member `key` of `j`, a string holding an unsigned decimal.
pub open spec fn u64_member(j: Json, key: Seq<char>) -> Option<u64> {
    match str_member(j, key) {
        Some(s) => u64_of(s@),
        None => None,
    }
}

/// The member `key` of `j`, a string holding a signed decimal.
pub open spec fn i32_member(j: Json, key: Seq<char>) -> Option<i32> {
    match str_member(j, key) {
        Some(s) => i32_of(s@),
        None => None,
    }
}

fn get_u64(j: &Json, key: &str) -> (r: Option<u64>)
    ensures
        r == u64_member(*j, key@),
{
    match get_str(j, key) {
        Some(s) => parse_u64(s.as_str()),
        None => None,
    }
}

fn get_i32(j: &Json, key: &str) -> (r: Option<i32>)
    ensures
        r == i32_member(*j, key@),
{
    match get_str(j, key) {
        Some(s) => parse_i32(s.as_str()),
        None => None,
    }
}

impl Record for Product {
    open spec fn from_json(j: Json) -> Option<Product> {
        match (
            u64_member(j, "ean"@),
            str_member(j, "name"@),
            i32_member(j, "categoryId"@),
            str_member(j, "categoryName"@),
            str_member(j, "issuingCountry"@),
        ) {
            (Some(ean), Some(name), Some(category_id), Some(category_name), Some(issuing_country)) =>
                Some(Product { ean, name, category_id, category_name, issuing_country }),
            _ => None,
        }
    }

    fn decode(j: &Json) -> (r: Option<Product>) {
        match (
            get_u64(j, "ean"),
            get_str(j, "name"),
            get_i32(j, "categoryId"),
            get_str(j, "categoryName"),
            get_str(j, "issuingCountry"),
        ) {
            (Some(ean), Some(name), Some(category_id), Some(category_name), Some(issuing_country)) =>
                Some(Product { ean, name, category_id, category_name, issuing_country }),
            _ => None,
        }
    }
}

impl Record for ExtProduct {
    open spec fn from_json(j: Json) -> Option<ExtProduct> {
        match (
            u64_member(j, "ean"@),
            str_member(j, "name"@),
            i32_member(j, "categoryId"@),
            str_member(j, "categoryName"@),
            i32_member(j, "googleCategoryId"@),
            str_member(j, "issuingCountry"@),
        ) {
            (
                Some(ean),
                Some(name),
                Some(category_id),
                Some(category_name),
                Some(google_category_id),
                Some(issuing_country),
            ) => Some(
                ExtProduct {
                    ean,
                    name,
                    category_id,
                    category_name,
                    google_category_id,
                    issuing_country,
                },
            ),
            _ => None,
        }
    }

    fn decode(j: &Json) -> (r: Option<ExtProduct>) {
        match (
            get_u64(j, "ean"),
            get_str(j, "name"),
            get_i32(j, "categoryId"),
            get_str(j, "categoryName"),
            get_i32(j, "googleCategoryId"),
            get_str(j, "issuingCountry"),
        ) {
            (
                Some(ean),
                Some(name),
                Some(category_id),
                Some(category_name),
                Some(google_category_id),
                Some(issuing_country),
            ) => Some(
                ExtProduct {
                    ean,
                    name,
                    category_id,
                    category_name,
                    google_category_id,
                    issuing_country,
                },
            ),
            _ => None,
        }
    }
}

impl Record for CountryRecord {
    open spec fn from_json(j: Json) -> Option<CountryRecord> {
        match (u64_member(j, "ean"@), str_member(j, "issuingCountry"@)) {
            (Some(ean), Some(issuing_country)) => Some(CountryRecord { ean, issuing_country }),
            _ => None,
        }
    }

    fn decode(j: &Json) -> (r: Option<CountryRecord>) {
        match (get_u64(j, "ean"), get_str(j, "issuingCountry")) {
            (Some(ean), Some(issuing_country)) => Some(CountryRecord { ean, issuing_country }),
            _ => None,
        }
    }
}

impl Record for ChecksumRecord {
    open spec fn from_json(j: Json) -> Option<ChecksumRecord> {
        match (u64_member(j, "ean"@), str_member(j, "valid"@)) {
            (Some(ean), Some(valid)) => Some(ChecksumRecord { ean, valid }),
            _ => None,
        }
    }

    fn decode(j: &Json) -> (r: Option<ChecksumRecord>) {
        match (get_u64(j, "ean"), get_str(j, "valid")) {
            (Some(ean), Some(valid)) => Some(ChecksumRecord { ean, valid }),
            _ => None,
        }
    }
}

impl Record for ImageRecord {
    open spec fn from_json(j: Json) -> Option<ImageRecord> {
        match (u64_member(j, "ean"@), str_member(j, "barcode"@)) {
            (Some(ean), Some(barcode)) => Some(ImageRecord { ean, barcode }),
            _ => None,
        }
    }

    fn decode(j: &Json) -> (r: Option<ImageRecord>) {
        match (get_u64(j, "ean"), get_str(j, "barcode")) {
            (Some(ean), Some(barcode)) => Some(ImageRecord { ean, barcode }),
            _ => None,
        }
    }
}

impl Record for ErrorRecord {
    open spec fn from_json(j: Json) -> Option<ErrorRecord> {
        match str_member(j, "error"@) {
            Some(error) => Some(ErrorRecord { error }),
            None => None,
        }
    }

    fn decode(j: &Json) -> (r: Option<ErrorRecord>) {
        match get_str(j, "error") {
            Some(error) => Some(ErrorRecord { error }),
            None => None,
        }
    }
}

/// The records that the items hold, where every item holds one.
pub open spec fn all_records<T: Record>(items: Seq<Json>) -> Option<Seq<T>> {
    if forall|i: int| 0 <= i < items.len() ==> (#[trigger] T::from_json(items[i])).is_some() {
        Some(Seq::new(items.len(), |i: int| T::from_json(items[i]).unwrap()))
    } else {
        None
    }
}

/// The records that the JSON array `j` holds, where each of its items holds one.
pub open spec fn records_of<T: Record>(j: Json) -> Option<Seq<T>> {
    match j {
        Json::Array(items) => all_records::<T>(items@),
        _ => None,
    }
}

/// Reads the JSON array `j` as a list of records.
pub fn decode_records<T: Record>(j: &Json) -> (r: Option<Vec<T>>)
    ensures
        match r {
            Some(v) => records_of::<T>(*j) == Some(v@),
            None => records_of::<T>(*j) is None,
        },
{
    match j {
        Json::Array(items) => {
            let n = items.len();
            let mut out: Vec<T> = Vec::new();
            let mut i: usize = 0;
            while i < n
                invariant
                    n == items@.len(),
                    *j == Json::Array(*items),
                    0 <= i <= n,
                    out@.len() == i,
                    forall|k: int| 0 <= k < i ==> (#[trigger] T::from_json(items@[k])) == Some(out@[k]),
                decreases n - i,
            {
                match T::decode(&items[i]) {
                    Some(t) => out.push(t),
                    None => {
                        assert(T::from_json(items@[i as int]) is None);
                        return None;
                    },
                }
                i = i + 1;
            }
            assert(out@ =~= Seq::new(items@.len(), |k: int| T::from_json(items@[k]).unwrap()));
            Some(out)
        },
        _ => None,
    }
}

} // verus!

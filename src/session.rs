//! The client handle: the request URLs of each operation and the credit count
//! that the service reports.

use vstd::prelude::*;
use crate::decimal::{decimal, i64_of, i64_to_decimal, parse_i64, signed_decimal, u64_to_decimal};
use crate::response::EanError;

verus! {

/// Where every request goes, up to the token.
pub open spec fn api_prefix() -> Seq<char> {
    "https://api.ean-search.org/api?format=json&token="@
}

/// The value of an optional parameter of `i8`, or its default.
pub open spec fn i8_or(v: Option<i8>, default: int) -> int {
    match v {
        Some(x) => x as int,
        None => default,
    }
}

/// The value of an optional parameter of `i32`, or its default.
pub open spec fn i32_or(v: Option<i32>, default: int) -> int {
    match v {
        Some(x) => x as int,
        None => default,
    }
}

/// The state of one caller's session with the service: the URL prefix that
/// holds the token, and the credit count that the last response reported.
pub struct EANSearch {
    base_url: String,
    remaining: Option<i64>,
}

impl EANSearch {
    /// The URL prefix of every request, token included.
    pub closed spec fn base_url(&self) -> Seq<char> {
        self.base_url@
    }

    /// The number of requests left, as the last response reported it, if it did.
    pub closed spec fn credits(&self) -> Option<i64> {
        self.remaining
    }

    /// Starts a session with the API token `token`. The credit count is unknown.
    pub fn new(token: &str) -> (r: EANSearch)
        ensures
            r.base_url() == api_prefix() + token@,
            r.credits() is None,
    {
        let base_url = String::from_str("https://api.ean-search.org/api?format=json&token=").concat(token);
        EANSearch { base_url, remaining: None }
    }

    /// The URL of a barcode lookup; the language defaults to 1.
    pub fn barcode_lookup_url(&self, ean: u64, language: Option<i8>) -> (r: String)
        ensures
            r@ == self.base_url() + "&op=barcode-lookup&ean="@ + decimal(ean as nat) + "&language="@
                + signed_decimal(i8_or(language, 1)),
    {
        let lang: i64 = match language {
            Some(l) => l as i64,
            None => 1,
        };
        let mut url = self.base_url.clone();
        url.append("&op=barcode-lookup&ean=");
        url.append(u64_to_decimal(ean).as_str());
        url.append("&language=");
        url.append(i64_to_decimal(lang).as_str());
        url
    }

    /// The URL of a lookup by ISBN-10 or ISBN-13 code.
    pub fn isbn_lookup_url(&self, isbn: u64) -> (r: String)
        ensures
            r@ == self.base_url() + "&op=barcode-lookup&isbn="@ + decimal(isbn as nat),
    {
        let mut url = self.base_url.clone();
        url.append("&op=barcode-lookup&isbn=");
        url.append(u64_to_decimal(isbn).as_str());
        url
    }

    /// The URL of a search for the barcodes that start with `prefix`; the page
    /// defaults to 0 and the language to 1.
    pub fn barcode_prefix_search_url(&self, prefix: u64, language: Option<i8>, page: Option<i32>) -> (r: String)
        ensures
            r@ == self.base_url() + "&op=barcode-prefix-search&prefix="@ + decimal(prefix as nat)
                + "&page="@ + signed_decimal(i32_or(page, 0)) + "&language="@
                + signed_decimal(i8_or(language, 1)),
    {
        let lang: i64 = match language {
            Some(l) => l as i64,
            None => 1,
        };
        let pg: i64 = match page {
            Some(p) => p as i64,
            None => 0,
        };
        let mut url = self.base_url.clone();
        url.append("&op=barcode-prefix-search&prefix=");
        url.append(u64_to_decimal(prefix).as_str());
        url.append("&page=");
        url.append(i64_to_decimal(pg).as_str());
        url.append("&language=");
        url.append(i64_to_decimal(lang).as_str());
        url
    }

    /// The URL of a search for the products whose names hold every keyword of
    /// `name`; the language defaults to 99 and the page to 0.
    pub fn product_search_url(&self, name: &str, language: Option<i8>, page: Option<i32>) -> (r: String)
        ensures
            r@ == self.base_url() + "&op=product-search&name="@ + name@ + "&language="@
                + signed_decimal(i8_or(language, 99)) + "&page="@ + signed_decimal(i32_or(page, 0)),
    {
        let mut url = self.base_url.clone();
        url.append("&op=product-search&name=");
        url.append(name);
        append_language_page(&mut url, language, page);
        url
    }

    /// The URL of a search for products with names like `name`; the language
    /// defaults to 99 and the page to 0.
    pub fn similar_product_search_url(&self, name: &str, language: Option<i8>, page: Option<i32>) -> (r: String)
        ensures
            r@ == self.base_url() + "&op=similar-product-search&name="@ + name@ + "&language="@
                + signed_decimal(i8_or(language, 99)) + "&page="@ + signed_decimal(i32_or(page, 0)),
    {
        let mut url = self.base_url.clone();
        url.append("&op=similar-product-search&name=");
        url.append(name);
        append_language_page(&mut url, language, page);
        url
    }

    /// The URL of a search in the category `category`, narrowed to the
    /// keywords of `name` where it is given; the language defaults to 99 and
    /// the page to 0.
    pub fn category_search_url(
        &self,
        category: i32,
        name: Option<&str>,
        language: Option<i8>,
        page: Option<i32>,
    ) -> (r: String)
        ensures
            r@ == self.base_url() + "&op=category-search&category="@ + signed_decimal(category as int)
                + match name {
                Some(n) => "&name="@ + n@,
                None => Seq::<char>::empty(),
            } + "&language="@ + signed_decimal(i8_or(language, 99)) + "&page="@
                + signed_decimal(i32_or(page, 0)),
    {
        let mut url = self.base_url.clone();
        url.append("&op=category-search&category=");
        url.append(i64_to_decimal(category as i64).as_str());
        let ghost before = url@;
        match name {
            Some(n) => {
                url.append("&name=");
                url.append(n);
                assert(url@ == before + ("&name="@ + n@));
            },
            None => {
                assert(url@ == before + Seq::<char>::empty());
            },
        }
        append_language_page(&mut url, language, page);
        url
    }

    /// The URL of a query for the country that issued `ean`.
    pub fn issuing_country_url(&self, ean: u64) -> (r: String)
        ensures
            r@ == self.base_url() + "&op=issuing-country&ean="@ + decimal(ean as nat),
    {
        let mut url = self.base_url.clone();
        url.append("&op=issuing-country&ean=");
        url.append(u64_to_decimal(ean).as_str());
        url
    }

    /// The URL of a query whether `ean` has a valid check digit.
    pub fn verify_checksum_url(&self, ean: u64) -> (r: String)
        ensures
            r@ == self.base_url() + "&op=verify-checksum&ean="@ + decimal(ean as nat),
    {
        let mut url = self.base_url.clone();
        url.append("&op=verify-checksum&ean=");
        url.append(u64_to_decimal(ean).as_str());
        url
    }

    /// The URL of a PNG image of the barcode `ean`; the size defaults to 102
    /// by 50.
    pub fn barcode_image_url(&self, ean: u64, width: Option<i32>, height: Option<i32>) -> (r: String)
        ensures
            r@ == self.base_url() + "&op=barcode-image&ean="@ + decimal(ean as nat) + "&width="@
                + signed_decimal(i32_or(width, 102)) + "&height="@ + signed_decimal(i32_or(height, 50)),
    {
        let w: i64 = match width {
            Some(x) => x as i64,
            None => 102,
        };
        let h: i64 = match height {
            Some(x) => x as i64,
            None => 50,
        };
        let mut url = self.base_url.clone();
        url.append("&op=barcode-image&ean=");
        url.append(u64_to_decimal(ean).as_str());
        url.append("&width=");
        url.append(i64_to_decimal(w).as_str());
        url.append("&height=");
        url.append(i64_to_decimal(h).as_str());
        url
    }

    /// The URL of the account-status query.
    pub fn account_status_url(&self) -> (r: String)
        ensures
            r@ == self.base_url() + "&op=account-status"@,
    {
        let mut url = self.base_url.clone();
        url.append("&op=account-status");
        url
    }
    /// The number of requests left, as the last response reported it.
    pub fn cached_credits(&self) -> (r: Option<i64>)
        ensures
            r == self.credits(),
    {
        self.remaining
    }

    /// The URL of the query that learns the credit count, where it is not
    /// known; `None` where it is.
    pub fn credits_query_url(&self) -> (r: Option<String>)
        ensures
            match r {
                Some(u) => self.credits() is None && u@ == self.base_url() + "&op=account-status"@,
                None => self.credits() is Some,
            },
    {
        match self.remaining {
            Some(_) => None,
            None => Some(self.account_status_url()),
        }
    }

    /// Takes note of the credit count that a response reported in its
    /// `x-credits-remaining` header, or of its absence. A count that is not a
    /// decimal integer is an error, and leaves the count unknown.
    pub fn record_credits(&mut self, header: Option<&str>) -> (r: Result<(), EanError>)
        ensures
            final(self).base_url() == old(self).base_url(),
            match header {
                None => r is Ok && final(self).credits() is None,
                Some(h) => match i64_of(h@) {
                    Some(v) => r is Ok && final(self).credits() == Some(v),
                    None => r == Err::<(), EanError>(EanError::BadCreditsHeader)
                        && final(self).credits() is None,
                },
            },
    {
        match header {
            None => {
                self.remaining = None;
                Ok(())
            },
            Some(h) => match parse_i64(h) {
                Some(v) => {
                    self.remaining = Some(v);
                    Ok(())
                },
                None => {
                    self.remaining = None;
                    Err(EanError::BadCreditsHeader)
                },
            },
        }
    }
}

/// Appends the language and page parameters of a keyword search.
fn append_language_page(url: &mut String, language: Option<i8>, page: Option<i32>)
    ensures
        final(url)@ == old(url)@ + "&language="@ + signed_decimal(i8_or(language, 99)) + "&page="@
            + signed_decimal(i32_or(page, 0)),
{
    let lang: i64 = match language {
        Some(l) => l as i64,
        None => 99,
    };
    let pg: i64 = match page {
        Some(p) => p as i64,
        None => 0,
    };
    url.append("&language=");
    url.append(i64_to_decimal(lang).as_str());
    url.append("&page=");
    url.append(i64_to_decimal(pg).as_str());
}

} // verus!

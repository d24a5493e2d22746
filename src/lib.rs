//! Client library for the EAN barcode database web service.
//!
//! The library is free of I/O: it builds the request URLs of each operation,
//! reads and classifies the JSON bodies that the service answers with, tracks
//! the credit count that responses report, and decides when a rate-limited
//! request is sent again. Sending the requests is left to the caller.

use vstd::prelude::*;

pub mod decimal;
pub mod json;
pub mod records;
pub mod response;
pub mod retry;
pub mod session;

pub use json::Json;
pub use records::{ExtProduct, Product};
pub use response::{
    checksum_outcome, country_outcome, decode_checksum, decode_country, decode_image, decode_list,
    decode_lookup, image_outcome, list_outcome, lookup_outcome, EanError,
};
pub use retry::{next_try, MAX_API_TRIES, RETRY_PAUSE_MS, TOO_MANY_REQUESTS};
pub use session::EANSearch;

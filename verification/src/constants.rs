//! Fixed values and limits of the payload.

use vstd::prelude::*;

verus! {

/// Value of the payload format indicator.
pub const PAYLOAD_FORMAT_INDICATOR: &'static str = "01";

/// ISO 4217 numeric code of the Ethiopian birr.
pub const ETB_CURRENCY_CODE: &'static str = "230";

/// ISO 3166 code of Ethiopia.
pub const ETHIOPIA_COUNTRY_CODE: &'static str = "ET";

/// Largest payload, in bytes, checksum included.
pub const MAX_QR_LENGTH: usize = 512;

/// Point of initiation of a code that carries no amount and can be reused.
pub const STATIC_QR_POI: &'static str = "11";

/// Point of initiation of a code made for one transaction.
pub const DYNAMIC_QR_POI: &'static str = "12";

/// Largest merchant name, in bytes.
pub const MAX_MERCHANT_NAME_LEN: usize = 25;

/// Largest merchant city, in bytes.
pub const MAX_MERCHANT_CITY_LEN: usize = 15;

} // verus!

//! Identifiers of the top-level data objects.

use vstd::prelude::*;

verus! {

/// Payload format indicator.
pub const PAYLOAD_FORMAT_INDICATOR: &'static str = "00";

/// Point of initiation method.
pub const POINT_OF_INITIATION: &'static str = "01";

/// Merchant category code.
pub const MERCHANT_CATEGORY_CODE: &'static str = "52";

/// Transaction currency.
pub const TRANSACTION_CURRENCY: &'static str = "53";

/// Transaction amount.
pub const TRANSACTION_AMOUNT: &'static str = "54";

/// Country code.
pub const COUNTRY_CODE: &'static str = "58";

/// Merchant name.
pub const MERCHANT_NAME: &'static str = "59";

/// Merchant city.
pub const MERCHANT_CITY: &'static str = "60";

/// Additional data.
pub const ADDITIONAL_DATA: &'static str = "62";

/// Checksum.
pub const CRC: &'static str = "63";

/// Merchant information in an alternate language.
pub const ALTERNATE_LANGUAGE: &'static str = "64";

/// Context of the transaction.
pub const TRANSACTION_CONTEXT: &'static str = "80";

/// Merchant account information: Visa.
pub const VISA: &'static str = "02";

/// Merchant account information: Mastercard.
pub const MASTERCARD: &'static str = "04";

/// Merchant account information: UnionPay.
pub const UNIONPAY: &'static str = "15";

/// Merchant account information: the interbank payment system IPS ET.
pub const IPS_ET: &'static str = "28";

/// What the identifiers spell, character by character.
pub proof fn lemma_identifiers()
    ensures
        PAYLOAD_FORMAT_INDICATOR@ == seq!['0', '0'],
        POINT_OF_INITIATION@ == seq!['0', '1'],
        MERCHANT_CATEGORY_CODE@ == seq!['5', '2'],
        TRANSACTION_CURRENCY@ == seq!['5', '3'],
        TRANSACTION_AMOUNT@ == seq!['5', '4'],
        COUNTRY_CODE@ == seq!['5', '8'],
        MERCHANT_NAME@ == seq!['5', '9'],
        MERCHANT_CITY@ == seq!['6', '0'],
        ADDITIONAL_DATA@ == seq!['6', '2'],
        CRC@ == seq!['6', '3'],
        ALTERNATE_LANGUAGE@ == seq!['6', '4'],
        TRANSACTION_CONTEXT@ == seq!['8', '0'],
        VISA@ == seq!['0', '2'],
        MASTERCARD@ == seq!['0', '4'],
        UNIONPAY@ == seq!['1', '5'],
        IPS_ET@ == seq!['2', '8'],
{
    reveal_strlit("00");
    reveal_strlit("01");
    reveal_strlit("52");
    reveal_strlit("53");
    reveal_strlit("54");
    reveal_strlit("58");
    reveal_strlit("59");
    reveal_strlit("60");
    reveal_strlit("62");
    reveal_strlit("63");
    reveal_strlit("64");
    reveal_strlit("80");
    reveal_strlit("02");
    reveal_strlit("04");
    reveal_strlit("15");
    reveal_strlit("28");
}

} // verus!

use ethqr_gen::crc::verify_crc;
use ethqr_gen::error::QRError;
use ethqr_gen::fields::{AdditionalData, SchemeConfig};
use ethqr_gen::{constants, tags, QRBuilder};

const GUID: &str = "581b314e257f41bfbbdc6384daa31d16";

fn coffee_shop() -> QRBuilder {
    QRBuilder::new()
        .merchant_name("Coffee Shop")
        .merchant_city("Addis Ababa")
        .merchant_category_code("5812")
        .add_scheme(SchemeConfig::visa("4111111111111111"))
}

#[test]
fn static_payload() {
    let payload = coffee_shop().build().unwrap();
    assert_eq!(
        payload,
        "000201010211021641111111111111115204581253032305802ET5911Coffee Shop6011Addis Ababa63048EFB"
    );
    assert!(verify_crc(&payload));
}

#[test]
fn dynamic_payload_with_additional_data() {
    let additional_data = AdditionalData::new().bill_number("INV-001").reference_label("ORDER-123");
    let payload = QRBuilder::new()
        .merchant_name("Restaurant")
        .merchant_city("Dire Dawa")
        .merchant_category_code("5812")
        .add_scheme(SchemeConfig::ips_et(GUID, "CBETETAA", "10000171234567890"))
        .transaction_amount("50.00")
        .additional_data(additional_data)
        .build()
        .unwrap();
    assert_eq!(
        payload,
        "00020101021228690032581b314e257f41bfbbdc6384daa31d160108CBETETAA021710000171234567890520458125303230540550.005802ET5910Restaurant6009Dire Dawa62240107INV-0010509ORDER-12363040CF2"
    );
    assert!(verify_crc(&payload));
}

#[test]
fn schemes_keep_the_order_in_which_they_were_added() {
    let payload = QRBuilder::new()
        .merchant_name("Addis Coffee House")
        .merchant_city("Addis Ababa")
        .merchant_category_code("5812")
        .add_scheme(SchemeConfig::visa("4111111111111111"))
        .add_scheme(SchemeConfig::ips_et(GUID, "CBETETAA", "10000171234567890"))
        .build()
        .unwrap();
    assert_eq!(
        payload,
        "0002010102110216411111111111111128690032581b314e257f41bfbbdc6384daa31d160108CBETETAA0217100001712345678905204581253032305802ET5918Addis Coffee House6011Addis Ababa630401DE"
    );

    let swapped = QRBuilder::new()
        .merchant_name("Addis Coffee House")
        .merchant_city("Addis Ababa")
        .merchant_category_code("5812")
        .add_scheme(SchemeConfig::ips_et(GUID, "CBETETAA", "10000171234567890"))
        .add_scheme(SchemeConfig::visa("4111111111111111"))
        .build()
        .unwrap();
    assert!(swapped.starts_with("00020101021128690032581b"));
    assert_ne!(payload, swapped);
}

#[test]
fn transaction_context_comes_last() {
    let shop = || {
        QRBuilder::new()
            .merchant_name("Shop")
            .merchant_city("Adama")
            .merchant_category_code("5411")
            .add_scheme(SchemeConfig::mastercard("5555444433331111"))
            .transaction_context("table 7")
    };
    assert_eq!(
        shop().build().unwrap(),
        "000201010211041655554444333311115204541153032305802ET5904Shop6005Adama8007table 763041736"
    );
    assert_eq!(
        shop().transaction_amount("50.00").build().unwrap(),
        "00020101021204165555444433331111520454115303230540550.005802ET5904Shop6005Adama8007table 7630494A0"
    );
}

#[test]
fn mode_is_static_without_an_amount() {
    let payload = coffee_shop().build().unwrap();
    assert!(payload.starts_with("000201010211"));
    assert!(!payload.contains("5405"));
}

#[test]
fn mode_is_dynamic_with_an_amount() {
    let payload = coffee_shop().transaction_amount("50.00").build().unwrap();
    assert!(payload.starts_with("000201010212"));
    assert!(payload.contains("5303230540550.005802ET"));
}

#[test]
fn empty_additional_data_is_left_out() {
    let without = coffee_shop().build().unwrap();
    let with_empty = coffee_shop().additional_data(AdditionalData::new()).build().unwrap();
    assert_eq!(without, with_empty);
    assert!(with_empty.ends_with("6011Addis Ababa63048EFB"));
}

#[test]
fn building_twice_gives_the_same_payload() {
    let mut builder = coffee_shop().transaction_amount("12.00");
    let first = builder.build().unwrap();
    let second = builder.build().unwrap();
    assert_eq!(first, second);
    let third = builder.clone().build().unwrap();
    assert_eq!(first, third);
}

#[test]
fn building_twice_gives_the_same_failure() {
    let mut builder = coffee_shop().merchant_category_code("581a");
    for _ in 0..2 {
        assert!(matches!(
            builder.build(),
            Err(QRError::InvalidValue { field, value }) if field == "category_code" && value == "581a"
        ));
    }
}

#[test]
fn setters_replace_earlier_values() {
    let payload = coffee_shop()
        .merchant_name("Tea House")
        .merchant_city("Bahir Dar")
        .merchant_category_code("5814")
        .build()
        .unwrap();
    assert!(payload.contains("520458145303230"));
    assert!(payload.contains("5909Tea House6009Bahir Dar6304"));
}

#[test]
fn name_of_25_bytes_is_accepted() {
    let name = "A".repeat(25);
    let payload = QRBuilder::new()
        .merchant_name(&name)
        .merchant_city(&"B".repeat(15))
        .merchant_category_code("0000")
        .add_scheme(SchemeConfig::UnionPay { account_info: "62".to_string() })
        .build()
        .unwrap();
    assert_eq!(
        payload,
        "0002010102111502625204000053032305802ET5925AAAAAAAAAAAAAAAAAAAAAAAAA6015BBBBBBBBBBBBBBB63047AF9"
    );
}

#[test]
fn name_of_26_bytes_is_too_long() {
    let result = coffee_shop().merchant_name(&"A".repeat(26)).build();
    assert!(matches!(
        result,
        Err(QRError::ValueTooLong { field, length: 26, max_length: 25 }) if field == "name"
    ));
}

#[test]
fn name_length_counts_bytes() {
    // Thirteen characters, 26 bytes.
    let result = coffee_shop().merchant_name(&"é".repeat(13)).build();
    assert!(matches!(
        result,
        Err(QRError::ValueTooLong { field, length: 26, max_length: 25 }) if field == "name"
    ));
    let payload = coffee_shop().merchant_name("Café Sabä").merchant_city("አዲስ").build().unwrap();
    assert_eq!(
        payload,
        "000201010211021641111111111111115204581253032305802ET5911Café Sabä6009አዲስ630475BB"
    );
    assert!(verify_crc(&payload));
}

#[test]
fn city_of_16_bytes_is_too_long() {
    let result = coffee_shop().merchant_city(&"B".repeat(16)).build();
    assert!(matches!(
        result,
        Err(QRError::ValueTooLong { field, length: 16, max_length: 15 }) if field == "city"
    ));
    assert!(coffee_shop().merchant_city(&"B".repeat(15)).build().is_ok());
}

#[test]
fn category_code_must_be_four_digits() {
    for code in ["581a", "", "581", "58123", "58 2", "-581", "５８１２", "58é"] {
        let result = coffee_shop().merchant_category_code(code).build();
        assert!(
            matches!(
                &result,
                Err(QRError::InvalidValue { field, value }) if field == "category_code" && value == code
            ),
            "{code:?} gave {result:?}"
        );
    }
    assert!(coffee_shop().merchant_category_code("5812").build().is_ok());
    assert!(coffee_shop().merchant_category_code("0000").build().is_ok());
}

#[test]
fn a_scheme_is_required() {
    let result = QRBuilder::new()
        .merchant_name("Coffee Shop")
        .merchant_city("Addis Ababa")
        .merchant_category_code("5812")
        .build();
    assert!(matches!(result, Err(QRError::MissingField { field }) if field == "schemes"));
}

#[test]
fn an_empty_builder_fails_on_the_category_code() {
    let result = QRBuilder::new().build();
    assert!(matches!(
        result,
        Err(QRError::InvalidValue { field, value }) if field == "category_code" && value.is_empty()
    ));
    let result = QRBuilder::default().build();
    assert!(matches!(result, Err(QRError::InvalidValue { .. })));
}

#[test]
fn the_first_failure_wins() {
    let everything_wrong = QRBuilder::new()
        .merchant_name(&"A".repeat(30))
        .merchant_city(&"B".repeat(30))
        .merchant_category_code("x");
    assert!(matches!(
        everything_wrong.clone().build(),
        Err(QRError::ValueTooLong { field, length: 30, max_length: 25 }) if field == "name"
    ));
    assert!(matches!(
        everything_wrong.clone().merchant_name("A").build(),
        Err(QRError::ValueTooLong { field, length: 30, max_length: 15 }) if field == "city"
    ));
    assert!(matches!(
        everything_wrong.clone().merchant_name("A").merchant_city("B").build(),
        Err(QRError::InvalidValue { field, .. }) if field == "category_code"
    ));
    assert!(matches!(
        everything_wrong
            .clone()
            .merchant_name("A")
            .merchant_city("B")
            .merchant_category_code("5812")
            .build(),
        Err(QRError::MissingField { field }) if field == "schemes"
    ));
}

#[test]
fn configuration_is_checked_before_the_schemes() {
    let result = coffee_shop()
        .add_scheme(SchemeConfig::ips_et("bad", "CBETETAA", "1"))
        .merchant_name(&"A".repeat(26))
        .build();
    assert!(matches!(result, Err(QRError::ValueTooLong { .. })));
}

#[test]
fn a_scheme_that_fails_stops_the_build() {
    let result = coffee_shop().add_scheme(SchemeConfig::ips_et(GUID, "CBETETAAX", "1")).build();
    assert!(matches!(
        result,
        Err(QRError::InvalidValue { field, value }) if field == "bic" && value == "CBETETAAX"
    ));
}

#[test]
fn the_first_failing_scheme_is_reported() {
    let result = coffee_shop()
        .add_scheme(SchemeConfig::ips_et(GUID, "CBETETAA", &"1".repeat(25)))
        .add_scheme(SchemeConfig::ips_et("short", "CBETETAA", "1"))
        .build();
    assert!(matches!(result, Err(QRError::InvalidValue { field, .. }) if field == "account"));
}

#[test]
fn payload_of_512_bytes_is_accepted() {
    let mut builder = coffee_shop_without_schemes();
    for _ in 0..4 {
        builder = builder.add_scheme(SchemeConfig::visa(&"4".repeat(99)));
    }
    let payload =
        builder.add_scheme(SchemeConfig::mastercard(&"5".repeat(25))).build().unwrap();
    assert_eq!(payload.len(), 512);
    assert!(payload.ends_with("6304F0A4"));
    assert!(verify_crc(&payload));
}

fn coffee_shop_without_schemes() -> QRBuilder {
    QRBuilder::new()
        .merchant_name("Coffee Shop")
        .merchant_city("Addis Ababa")
        .merchant_category_code("5812")
}

#[test]
fn payload_of_513_bytes_is_too_long() {
    let mut builder = coffee_shop_without_schemes();
    for _ in 0..4 {
        builder = builder.add_scheme(SchemeConfig::visa(&"4".repeat(99)));
    }
    let result = builder.add_scheme(SchemeConfig::mastercard(&"5".repeat(26))).build();
    assert!(matches!(result, Err(QRError::PayloadTooLong { length: 513 })));
}

#[test]
fn payload_with_a_long_context_at_the_ceiling() {
    let payload = coffee_shop().transaction_context(&"x".repeat(416)).build().unwrap();
    assert_eq!(payload.len(), 512);
    assert!(payload.contains("Addis Ababa80416xxxx"));
    assert!(payload.ends_with("6304B75F"));

    let result = coffee_shop().transaction_context(&"x".repeat(417)).build();
    assert!(matches!(result, Err(QRError::PayloadTooLong { length: 513 })));
}

#[test]
fn payload_length_is_reported_as_it_would_have_been() {
    let result = coffee_shop().transaction_context(&"x".repeat(1000)).build();
    // 91 bytes without the context, 2 + 4 + 1000 for it.
    assert!(matches!(result, Err(QRError::PayloadTooLong { length: 1097 })));
}

#[test]
fn every_built_payload_verifies() {
    let contexts = ["", "a", "table 7", "ሰላም", "63046304", "6304FFFF"];
    let amounts = ["0", "1.00", "50.00", "999999.99"];
    for context in contexts {
        for amount in amounts {
            let payload = coffee_shop()
                .add_scheme(SchemeConfig::ips_et(GUID, "CBETETAA", "10000171234567890"))
                .transaction_amount(amount)
                .transaction_context(context)
                .additional_data(AdditionalData::new().purpose(context))
                .build()
                .unwrap();
            assert!(verify_crc(&payload), "{payload}");
        }
    }
}

#[test]
fn constants_of_the_standard() {
    assert_eq!(constants::PAYLOAD_FORMAT_INDICATOR, "01");
    assert_eq!(constants::ETB_CURRENCY_CODE, "230");
    assert_eq!(constants::ETHIOPIA_COUNTRY_CODE, "ET");
    assert_eq!(constants::MAX_QR_LENGTH, 512);
    assert_eq!(constants::STATIC_QR_POI, "11");
    assert_eq!(constants::DYNAMIC_QR_POI, "12");
    assert_eq!(constants::MAX_MERCHANT_NAME_LEN, 25);
    assert_eq!(constants::MAX_MERCHANT_CITY_LEN, 15);
    let ids = [
        (tags::PAYLOAD_FORMAT_INDICATOR, "00"),
        (tags::POINT_OF_INITIATION, "01"),
        (tags::VISA, "02"),
        (tags::MASTERCARD, "04"),
        (tags::UNIONPAY, "15"),
        (tags::IPS_ET, "28"),
        (tags::MERCHANT_CATEGORY_CODE, "52"),
        (tags::TRANSACTION_CURRENCY, "53"),
        (tags::TRANSACTION_AMOUNT, "54"),
        (tags::COUNTRY_CODE, "58"),
        (tags::MERCHANT_NAME, "59"),
        (tags::MERCHANT_CITY, "60"),
        (tags::ADDITIONAL_DATA, "62"),
        (tags::CRC, "63"),
        (tags::ALTERNATE_LANGUAGE, "64"),
        (tags::TRANSACTION_CONTEXT, "80"),
    ];
    for (id, expected) in ids {
        assert_eq!(id, expected);
    }
}

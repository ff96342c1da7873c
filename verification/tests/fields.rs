use ethqr_gen::error::QRError;
use ethqr_gen::fields::{AdditionalData, ConvenienceFee, ExtensionFields, SchemeConfig};

const GUID: &str = "581b314e257f41bfbbdc6384daa31d16";

fn invalid_field(scheme: &SchemeConfig) -> (String, String) {
    match scheme.encode() {
        Err(QRError::InvalidValue { field, value }) => (field, value),
        other => panic!("expected an invalid value, got {other:?}"),
    }
}

#[test]
fn card_schemes_pass_their_account_through() {
    let tag = SchemeConfig::visa("4111111111111111").encode().unwrap();
    assert_eq!(tag.id, "02");
    assert_eq!(tag.value, "4111111111111111");
    assert_eq!(tag.encode(), "02164111111111111111");

    let tag = SchemeConfig::mastercard("5555444433331111").encode().unwrap();
    assert_eq!(tag.encode(), "04165555444433331111");

    let tag = SchemeConfig::UnionPay { account_info: "62".to_string() }.encode().unwrap();
    assert_eq!(tag.encode(), "150262");
}

#[test]
fn card_schemes_are_not_validated() {
    assert_eq!(SchemeConfig::visa("").encode().unwrap().encode(), "0200");
    assert_eq!(SchemeConfig::visa("not a number!").encode().unwrap().encode(), "0213not a number!");
}

#[test]
fn scheme_tag_ids() {
    assert_eq!(SchemeConfig::visa("1").tag_id(), "02");
    assert_eq!(SchemeConfig::mastercard("1").tag_id(), "04");
    assert_eq!(SchemeConfig::UnionPay { account_info: "1".to_string() }.tag_id(), "15");
    assert_eq!(SchemeConfig::ips_et(GUID, "CBETETAA", "1").tag_id(), "28");
    assert_eq!(SchemeConfig::ips_et("", "", "").tag_id(), "28");
}

#[test]
fn interbank_scheme_nests_three_tags() {
    let tag = SchemeConfig::ips_et(GUID, "CBETETAA", "10000171234567890").encode().unwrap();
    assert_eq!(tag.id, "28");
    assert_eq!(
        tag.value,
        "0032581b314e257f41bfbbdc6384daa31d160108CBETETAA021710000171234567890"
    );
    assert_eq!(
        tag.encode(),
        "28690032581b314e257f41bfbbdc6384daa31d160108CBETETAA021710000171234567890"
    );
}

#[test]
fn interbank_scheme_at_its_limits() {
    let tag = SchemeConfig::ips_et(
        "0123456789abcdefABCDEF0123456789",
        "CBETETAAXXX",
        "111111111111111111111111",
    )
    .encode()
    .unwrap();
    assert_eq!(
        tag.encode(),
        "287900320123456789abcdefABCDEF01234567890111CBETETAAXXX0224111111111111111111111111"
    );
    let tag = SchemeConfig::ips_et(GUID, "CBETETAA", "").encode().unwrap();
    assert_eq!(tag.encode(), "28520032581b314e257f41bfbbdc6384daa31d160108CBETETAA0200");
}

#[test]
fn interbank_guid_must_have_32_characters() {
    let short = &GUID[..31];
    let scheme = SchemeConfig::ips_et(short, "CBETETAA", "1");
    assert_eq!(invalid_field(&scheme), ("guid".to_string(), short.to_string()));

    let long = format!("{GUID}0");
    let scheme = SchemeConfig::ips_et(&long, "CBETETAA", "1");
    assert_eq!(invalid_field(&scheme), ("guid".to_string(), long.clone()));

    let scheme = SchemeConfig::ips_et("", "CBETETAA", "1");
    assert_eq!(invalid_field(&scheme), ("guid".to_string(), String::new()));
}

#[test]
fn interbank_guid_must_be_alphanumeric() {
    let hyphen = "581b314e-257f-41bf-bbdc-6384daa3";
    assert_eq!(hyphen.len(), 32);
    let scheme = SchemeConfig::ips_et(hyphen, "CBETETAA", "1");
    assert_eq!(invalid_field(&scheme), ("guid".to_string(), hyphen.to_string()));

    let full = "581b314e-257f-41bf-bbdc-6384daa31d16";
    let scheme = SchemeConfig::ips_et(full, "CBETETAA", "1");
    assert_eq!(invalid_field(&scheme).0, "guid");

    let space = "581b314e257f41bfbbdc6384daa31d1 ";
    assert_eq!(invalid_field(&SchemeConfig::ips_et(space, "CBETETAA", "1")).0, "guid");

    // 32 bytes, but not ASCII.
    let accented = "581b314e257f41bfbbdc6384daa31dé";
    assert_eq!(accented.len(), 32);
    assert_eq!(invalid_field(&SchemeConfig::ips_et(accented, "CBETETAA", "1")).0, "guid");

    // 32 characters, 33 bytes.
    let accented = "581b314e257f41bfbbdc6384daa31d1é";
    assert_eq!(accented.chars().count(), 32);
    assert_eq!(invalid_field(&SchemeConfig::ips_et(accented, "CBETETAA", "1")).0, "guid");
}

#[test]
fn interbank_guid_may_hold_any_letter_or_digit() {
    let guid = "ZzYyXx00112233445566778899GgHhQq";
    assert!(SchemeConfig::ips_et(guid, "CBETETAA", "1").encode().is_ok());
}

#[test]
fn interbank_bic_must_have_8_or_11_bytes() {
    for bic in ["", "CBETETA", "CBETETAAX", "CBETETAAXX", "CBETETAAXXXX"] {
        let scheme = SchemeConfig::ips_et(GUID, bic, "1");
        assert_eq!(invalid_field(&scheme), ("bic".to_string(), bic.to_string()));
    }
    assert!(SchemeConfig::ips_et(GUID, "CBETETAA", "1").encode().is_ok());
    assert!(SchemeConfig::ips_et(GUID, "CBETETAAXXX", "1").encode().is_ok());
    // Eight bytes in seven characters.
    assert!(SchemeConfig::ips_et(GUID, "CBETETé", "1").encode().is_ok());
}

#[test]
fn interbank_account_must_fit_24_bytes() {
    let account = "1".repeat(25);
    let scheme = SchemeConfig::ips_et(GUID, "CBETETAA", &account);
    assert_eq!(invalid_field(&scheme), ("account".to_string(), account.clone()));
    assert!(SchemeConfig::ips_et(GUID, "CBETETAA", &account[..24]).encode().is_ok());
    // Thirteen characters, 26 bytes.
    let account = "é".repeat(13);
    assert_eq!(invalid_field(&SchemeConfig::ips_et(GUID, "CBETETAA", &account)).0, "account");
}

#[test]
fn interbank_reports_the_first_failure() {
    let scheme = SchemeConfig::ips_et("bad", "bad", &"1".repeat(25));
    assert_eq!(invalid_field(&scheme).0, "guid");
    let scheme = SchemeConfig::ips_et(GUID, "bad", &"1".repeat(25));
    assert_eq!(invalid_field(&scheme).0, "bic");
}

#[test]
fn additional_data_without_fields_is_omitted() {
    assert!(AdditionalData::new().encode().is_none());
    assert!(AdditionalData::default().encode().is_none());
}

#[test]
fn additional_data_with_one_field() {
    let tag = AdditionalData::new().bill_number("INV-001").encode().unwrap();
    assert_eq!(tag.id, "62");
    assert_eq!(tag.value, "0107INV-001");
    assert_eq!(tag.encode(), "62110107INV-001");
}

#[test]
fn additional_data_with_an_empty_field_is_kept() {
    let tag = AdditionalData::new().purpose("").encode().unwrap();
    assert_eq!(tag.encode(), "62040800");
}

#[test]
fn additional_data_follows_the_order_of_identifiers() {
    let data = AdditionalData::new()
        .amount_after_due_date("12.50")
        .due_date("31122026")
        .merchant_channel("k")
        .merchant_tax_id("j")
        .additional_customer_data("i")
        .purpose("h")
        .terminal_number("g")
        .customer_label("f")
        .reference_label("e")
        .loyalty_number("d")
        .store_label("c")
        .mobile_number("b")
        .bill_number("a");
    assert_eq!(
        data.encode().unwrap().encode(),
        "62760101a0201b0301c0401d0501e0601f0701g0801h0901i1001j1101k500831122026510512.50"
    );
}

#[test]
fn additional_data_setters_fill_their_own_field() {
    let data = AdditionalData::new().reference_label("ORDER-123").bill_number("INV-001");
    assert_eq!(data.bill_number.as_deref(), Some("INV-001"));
    assert_eq!(data.reference_label.as_deref(), Some("ORDER-123"));
    assert!(data.mobile_number.is_none());
    assert_eq!(data.encode().unwrap().encode(), "62240107INV-0010509ORDER-123");

    let data = AdditionalData::new().bill_number("first").bill_number("second");
    assert_eq!(data.encode().unwrap().encode(), "62100106second");
}

#[test]
fn additional_data_each_field_has_its_identifier() {
    let one = |data: AdditionalData| data.encode().unwrap().value;
    assert_eq!(one(AdditionalData::new().bill_number("v")), "0101v");
    assert_eq!(one(AdditionalData::new().mobile_number("v")), "0201v");
    assert_eq!(one(AdditionalData::new().store_label("v")), "0301v");
    assert_eq!(one(AdditionalData::new().loyalty_number("v")), "0401v");
    assert_eq!(one(AdditionalData::new().reference_label("v")), "0501v");
    assert_eq!(one(AdditionalData::new().customer_label("v")), "0601v");
    assert_eq!(one(AdditionalData::new().terminal_number("v")), "0701v");
    assert_eq!(one(AdditionalData::new().purpose("v")), "0801v");
    assert_eq!(one(AdditionalData::new().additional_customer_data("v")), "0901v");
    assert_eq!(one(AdditionalData::new().merchant_tax_id("v")), "1001v");
    assert_eq!(one(AdditionalData::new().merchant_channel("v")), "1101v");
    assert_eq!(one(AdditionalData::new().due_date("v")), "5001v");
    assert_eq!(one(AdditionalData::new().amount_after_due_date("v")), "5101v");
}

#[test]
fn extension_fields_start_empty() {
    let fields = ExtensionFields::default();
    assert!(fields.transaction_context.is_none());
    assert!(fields.discounts_loyalty.is_none());
    assert!(fields.offline_to_online.is_none());
    assert!(fields.ecommerce.is_none());
    assert!(fields.end_to_end_id.is_none());
    assert!(fields.transaction_type_code.is_none());
}

#[test]
fn convenience_fee_keeps_its_amount() {
    assert!(matches!(ConvenienceFee::Prompt.clone(), ConvenienceFee::Prompt));
    let fixed = ConvenienceFee::Fixed("5.00".to_string());
    assert!(matches!(fixed.clone(), ConvenienceFee::Fixed(amount) if amount == "5.00"));
    let share = ConvenienceFee::Percentage("10".to_string());
    assert!(matches!(share.clone(), ConvenienceFee::Percentage(rate) if rate == "10"));
}

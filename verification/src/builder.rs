//! Assembly of a payload from a merchant's configuration.

use vstd::prelude::*;
use vstd::utf8::encode_utf8;
use crate::constants;
use crate::crc::{calculate_crc16, crc16, has_valid_crc, lemma_with_crc_verifies, with_crc};
use crate::error::{ErrorView, QRError};
use crate::fields::{optional_tag, AdditionalData, AdditionalDataView, SchemeConfig, SchemeView};
use crate::tags;
use crate::text::{
    all_ascii_digits, byte_len, byte_length, hex4, is_all_ascii_digits, lemma_hex4_ascii,
};
use crate::tlv::{
    encode_all, encode_tags, lemma_encode_all_concat, lemma_encode_one, lemma_tag_occurs, EMVTag,
    TagView,
};
use crate::utf8::{lemma_ascii_bytes, lemma_encode_utf8_concat};

verus! {

/// Collects what a payload is made of and builds it.
#[derive(Clone)]
pub struct QRBuilder {
    payload_format_indicator: String,
    point_of_initiation: Option<String>,
    merchant_name: String,
    merchant_city: String,
    merchant_category_code: String,
    schemes: Vec<SchemeConfig>,
    transaction_amount: Option<String>,
    transaction_currency: String,
    additional_data: Option<AdditionalData>,
    transaction_context: Option<String>,
}

/// What a caller has configured: the merchant, the schemes in the order in
/// which they were added, and the optional details of a transaction.
pub struct Configuration {
    pub merchant_name: Seq<char>,
    pub merchant_city: Seq<char>,
    pub merchant_category_code: Seq<char>,
    pub schemes: Seq<SchemeView>,
    pub transaction_amount: Option<Seq<char>>,
    pub additional_data: Option<AdditionalDataView>,
    pub transaction_context: Option<Seq<char>>,
}

/// A merchant category code: four bytes, all of them ASCII digits.
pub open spec fn is_category_code(text: Seq<char>) -> bool {
    byte_len(text) == 4 && all_ascii_digits(text)
}

/// The first rule that one of `schemes` breaks, in their order, if any.
pub open spec fn first_violation(schemes: Seq<SchemeView>) -> Option<ErrorView>
    decreases schemes.len(),
{
    if schemes.len() == 0 {
        None
    } else if schemes[0].violation() is Some {
        schemes[0].violation()
    } else {
        first_violation(schemes.drop_first())
    }
}

/// The data objects of `schemes`, in their order.
pub open spec fn scheme_tags(schemes: Seq<SchemeView>) -> Seq<TagView> {
    Seq::new(
        schemes.len(),
        |i: int| TagView { id: schemes[i].tag_id(), value: schemes[i].value() },
    )
}

/// The data object of the additional data, where there is any.
pub open spec fn additional_tags(data: Option<AdditionalDataView>) -> Seq<TagView> {
    match data {
        Some(fields) => match fields.encoded() {
            Some(tag) => seq![tag],
            None => Seq::empty(),
        },
        None => Seq::empty(),
    }
}

impl Configuration {
    /// Nothing configured yet.
    pub open spec fn empty() -> Configuration {
        Configuration {
            merchant_name: Seq::empty(),
            merchant_city: Seq::empty(),
            merchant_category_code: Seq::empty(),
            schemes: Seq::empty(),
            transaction_amount: None,
            additional_data: None,
            transaction_context: None,
        }
    }

    /// The first rule that the configuration breaks, if any: the name's
    /// length, the city's length, the category code's format, the presence
    /// of a scheme, in this order.
    pub open spec fn violation(self) -> Option<ErrorView> {
        if byte_len(self.merchant_name) > constants::MAX_MERCHANT_NAME_LEN {
            Some(
                ErrorView::ValueTooLong {
                    field: "name"@,
                    length: byte_len(self.merchant_name),
                    max_length: constants::MAX_MERCHANT_NAME_LEN as nat,
                },
            )
        } else if byte_len(self.merchant_city) > constants::MAX_MERCHANT_CITY_LEN {
            Some(
                ErrorView::ValueTooLong {
                    field: "city"@,
                    length: byte_len(self.merchant_city),
                    max_length: constants::MAX_MERCHANT_CITY_LEN as nat,
                },
            )
        } else if !is_category_code(self.merchant_category_code) {
            Some(
                ErrorView::InvalidValue {
                    field: "category_code"@,
                    value: self.merchant_category_code,
                },
            )
        } else if self.schemes.len() == 0 {
            Some(ErrorView::MissingField { field: "schemes"@ })
        } else {
            None
        }
    }

    /// At least one text of the additional data is set.
    pub open spec fn has_additional_data(self) -> bool {
        self.additional_data is Some && !self.additional_data->Some_0.is_empty()
    }

    /// The point of initiation: dynamic where an amount is set, static where
    /// none is.
    pub open spec fn point_of_initiation(self) -> Seq<char> {
        if self.transaction_amount is Some {
            constants::DYNAMIC_QR_POI@
        } else {
            constants::STATIC_QR_POI@
        }
    }

    /// The data objects of the payload before its checksum, in the order of
    /// the standard.
    pub open spec fn tags(self) -> Seq<TagView> {
        seq![
            TagView {
                id: tags::PAYLOAD_FORMAT_INDICATOR@,
                value: constants::PAYLOAD_FORMAT_INDICATOR@,
            },
            TagView { id: tags::POINT_OF_INITIATION@, value: self.point_of_initiation() },
        ] + scheme_tags(self.schemes) + seq![
            TagView { id: tags::MERCHANT_CATEGORY_CODE@, value: self.merchant_category_code },
            TagView { id: tags::TRANSACTION_CURRENCY@, value: constants::ETB_CURRENCY_CODE@ },
        ] + optional_tag(tags::TRANSACTION_AMOUNT@, self.transaction_amount) + seq![
            TagView { id: tags::COUNTRY_CODE@, value: constants::ETHIOPIA_COUNTRY_CODE@ },
            TagView { id: tags::MERCHANT_NAME@, value: self.merchant_name },
            TagView { id: tags::MERCHANT_CITY@, value: self.merchant_city },
        ] + additional_tags(self.additional_data) + optional_tag(
            tags::TRANSACTION_CONTEXT@,
            self.transaction_context,
        )
    }

    /// The payload before its checksum.
    pub open spec fn content(self) -> Seq<char> {
        encode_all(self.tags())
    }

    /// The text that the checksum covers: the content, and the identifier and
    /// length of the checksum's own data object.
    pub open spec fn checksum_input(self) -> Seq<char> {
        self.content() + "6304"@
    }

    /// The checksum as four hexadecimal digits.
    pub open spec fn checksum(self) -> Seq<char> {
        hex4(crc16(encode_utf8(self.checksum_input())))
    }

    /// The complete payload: the content and the checksum's data object.
    pub open spec fn payload(self) -> Seq<char> {
        self.content() + (TagView { id: tags::CRC@, value: self.checksum() }).encoded()
    }

    /// What building gives: the payload, or the first failure. The
    /// configuration is checked first, then the schemes in their order, and
    /// at last the length of the whole.
    pub open spec fn built(self) -> Result<Seq<char>, ErrorView> {
        if self.violation() is Some {
            Err(self.violation()->Some_0)
        } else if first_violation(self.schemes) is Some {
            Err(first_violation(self.schemes)->Some_0)
        } else if byte_len(self.payload()) > constants::MAX_QR_LENGTH {
            Err(ErrorView::PayloadTooLong { length: byte_len(self.payload()) })
        } else {
            Ok(self.payload())
        }
    }
}

impl View for QRBuilder {
    type V = Configuration;

    closed spec fn view(&self) -> Configuration {
        Configuration {
            merchant_name: self.merchant_name@,
            merchant_city: self.merchant_city@,
            merchant_category_code: self.merchant_category_code@,
            schemes: self.schemes.deep_view(),
            transaction_amount: self.transaction_amount.deep_view(),
            additional_data: self.additional_data.deep_view(),
            transaction_context: self.transaction_context.deep_view(),
        }
    }
}

impl Default for QRBuilder {
    fn default() -> (builder: QRBuilder)
        ensures
            builder@ == Configuration::empty(),
    {
        let builder = QRBuilder {
            payload_format_indicator: String::new(),
            point_of_initiation: None,
            merchant_name: String::new(),
            merchant_city: String::new(),
            merchant_category_code: String::new(),
            schemes: Vec::new(),
            transaction_amount: None,
            transaction_currency: String::new(),
            additional_data: None,
            transaction_context: None,
        };
        assert(builder.schemes.deep_view() =~= Seq::<SchemeView>::empty());
        builder
    }
}

impl QRBuilder {
    /// A builder with nothing configured.
    pub fn new() -> (builder: Self)
        ensures
            builder@ == Configuration::empty(),
    {
        QRBuilder::default()
    }

    /// Sets the merchant's name.
    pub fn merchant_name(self, name: &str) -> (builder: Self)
        ensures
            builder@ == (Configuration { merchant_name: name@, ..self@ }),
    {
        let mut builder = self;
        builder.merchant_name = name.to_owned();
        builder
    }

    /// Sets the merchant's city.
    pub fn merchant_city(self, city: &str) -> (builder: Self)
        ensures
            builder@ == (Configuration { merchant_city: city@, ..self@ }),
    {
        let mut builder = self;
        builder.merchant_city = city.to_owned();
        builder
    }

    /// Sets the merchant category code.
    pub fn merchant_category_code(self, code: &str) -> (builder: Self)
        ensures
            builder@ == (Configuration { merchant_category_code: code@, ..self@ }),
    {
        let mut builder = self;
        builder.merchant_category_code = code.to_owned();
        builder
    }

    /// Adds a payment scheme after those already there.
    pub fn add_scheme(self, scheme: SchemeConfig) -> (builder: Self)
        ensures
            builder@ == (Configuration { schemes: self@.schemes.push(scheme@), ..self@ }),
    {
        let mut builder = self;
        builder.schemes.push(scheme);
        assert(builder.schemes.deep_view() =~= self.schemes.deep_view().push(scheme@));
        builder
    }

    /// Sets the amount, which makes the code a dynamic one.
    pub fn transaction_amount(self, amount: &str) -> (builder: Self)
        ensures
            builder@ == (Configuration { transaction_amount: Some(amount@), ..self@ }),
    {
        let mut builder = self;
        builder.transaction_amount = Some(amount.to_owned());
        builder
    }

    /// Sets the additional data.
    pub fn additional_data(self, data: AdditionalData) -> (builder: Self)
        ensures
            builder@ == (Configuration { additional_data: Some(data@), ..self@ }),
    {
        let mut builder = self;
        builder.additional_data = Some(data);
        builder
    }

    /// Sets the free-form context of the transaction.
    pub fn transaction_context(self, context: &str) -> (builder: Self)
        ensures
            builder@ == (Configuration { transaction_context: Some(context@), ..self@ }),
    {
        let mut builder = self;
        builder.transaction_context = Some(context.to_owned());
        builder
    }

    /// Checks the merchant's data and that a scheme is there.
    fn validate(&self) -> (outcome: Result<(), QRError>)
        ensures
            match outcome {
                Ok(_) => self@.violation() is None,
                Err(e) => self@.violation() == Some(e@),
            },
    {
        let name_length = byte_length(self.merchant_name.as_str());
        if name_length > constants::MAX_MERCHANT_NAME_LEN {
            return Err(
                QRError::ValueTooLong {
                    field: "name".to_owned(),
                    length: name_length,
                    max_length: constants::MAX_MERCHANT_NAME_LEN,
                },
            );
        }
        let city_length = byte_length(self.merchant_city.as_str());
        if city_length > constants::MAX_MERCHANT_CITY_LEN {
            return Err(
                QRError::ValueTooLong {
                    field: "city".to_owned(),
                    length: city_length,
                    max_length: constants::MAX_MERCHANT_CITY_LEN,
                },
            );
        }
        if byte_length(self.merchant_category_code.as_str()) != 4 || !is_all_ascii_digits(
            self.merchant_category_code.as_str(),
        ) {
            return Err(
                QRError::InvalidValue {
                    field: "category_code".to_owned(),
                    value: self.merchant_category_code.clone(),
                },
            );
        }
        if self.schemes.is_empty() {
            return Err(QRError::MissingField { field: "schemes".to_owned() });
        }
        Ok(())
    }

    /// Builds the payload: checks the configuration, writes the data objects
    /// in the order of the standard, and closes them with the checksum. The
    /// configuration stays as it was.
    pub fn build(&mut self) -> (payload: Result<String, QRError>)
        ensures
            final(self)@ == old(self)@,
            match payload {
                Ok(text) => old(self)@.built() == Ok::<Seq<char>, ErrorView>(text@),
                Err(e) => old(self)@.built() == Err::<Seq<char>, ErrorView>(e@),
            },
            payload is Ok ==> has_valid_crc(encode_utf8(payload->Ok_0@)),
    {
        if let Err(e) = self.validate() {
            return Err(e);
        }
        self.point_of_initiation = if self.transaction_amount.is_some() {
            Some(constants::DYNAMIC_QR_POI.to_owned())
        } else {
            Some(constants::STATIC_QR_POI.to_owned())
        };
        self.payload_format_indicator = constants::PAYLOAD_FORMAT_INDICATOR.to_owned();
        self.transaction_currency = constants::ETB_CURRENCY_CODE.to_owned();

        let ghost config = self@;
        let mut tags: Vec<EMVTag> = Vec::new();
        tags.push(
            EMVTag::new(tags::PAYLOAD_FORMAT_INDICATOR, self.payload_format_indicator.as_str()),
        );
        if let Some(ref poi) = self.point_of_initiation {
            tags.push(EMVTag::new(tags::POINT_OF_INITIATION, poi.as_str()));
        }
        let ghost head = tags.deep_view();
        assert(head =~= seq![
            TagView {
                id: tags::PAYLOAD_FORMAT_INDICATOR@,
                value: constants::PAYLOAD_FORMAT_INDICATOR@,
            },
            TagView { id: tags::POINT_OF_INITIATION@, value: config.point_of_initiation() },
        ]);

        let mut i: usize = 0;
        assert(config.schemes.skip(0) =~= config.schemes);
        while i < self.schemes.len()
            invariant
                i <= self.schemes@.len(),
                self@ == config,
                old(self)@ == config,
                config.violation() is None,
                first_violation(config.schemes) == first_violation(config.schemes.skip(i as int)),
                tags.deep_view() == head + scheme_tags(config.schemes.take(i as int)),
            decreases self.schemes@.len() - i,
        {
            let ghost rest = config.schemes.skip(i as int);
            assert(rest.drop_first() =~= config.schemes.skip(i + 1));
            let ghost done = tags.deep_view();
            match self.schemes[i].encode() {
                Ok(tag) => {
                    tags.push(tag);
                    assert(tags.deep_view() =~= done.push(tag@));
                },
                Err(e) => {
                    return Err(e);
                },
            }
            i += 1;
        }

        tags.push(EMVTag::new(tags::MERCHANT_CATEGORY_CODE, self.merchant_category_code.as_str()));
        tags.push(EMVTag::new(tags::TRANSACTION_CURRENCY, self.transaction_currency.as_str()));
        if let Some(ref amount) = self.transaction_amount {
            tags.push(EMVTag::new(tags::TRANSACTION_AMOUNT, amount.as_str()));
        }
        tags.push(EMVTag::new(tags::COUNTRY_CODE, constants::ETHIOPIA_COUNTRY_CODE));
        tags.push(EMVTag::new(tags::MERCHANT_NAME, self.merchant_name.as_str()));
        tags.push(EMVTag::new(tags::MERCHANT_CITY, self.merchant_city.as_str()));
        if let Some(ref additional_data) = self.additional_data {
            if let Some(tag) = additional_data.encode() {
                tags.push(tag);
            }
        }
        if let Some(ref context) = self.transaction_context {
            tags.push(EMVTag::new(tags::TRANSACTION_CONTEXT, context.as_str()));
        }
        assert(tags.deep_view() =~= config.tags());

        let mut payload = encode_tags(&tags);
        let mut covered = payload.clone();
        covered.append("6304");
        let crc = calculate_crc16(covered.as_str());
        payload.append(EMVTag::new(tags::CRC, crc.as_str()).encode().as_str());

        let length = byte_length(payload.as_str());
        if length > constants::MAX_QR_LENGTH {
            return Err(QRError::PayloadTooLong { length });
        }
        proof {
            lemma_built_payload_verifies(config);
        }
        Ok(payload)
    }
}

/// The payload is its content closed by the checksum, which takes eight
/// bytes.
pub proof fn lemma_payload_is_closed(config: Configuration)
    ensures
        config.payload() == with_crc(config.content()),
        byte_len(config.payload()) == byte_len(config.content()) + 8,
{
    let content = config.content();
    let crc = crc16(encode_utf8(config.checksum_input()));
    reveal_strlit("63");
    reveal_strlit("6304");
    lemma_hex4_ascii(crc);
    lemma_ascii_bytes("6304"@);
    lemma_encode_utf8_concat(content, "6304"@);
    lemma_encode_utf8_concat(content + "6304"@, hex4(crc));
}

/// The payload opens with the format indicator and the point of initiation,
/// which is dynamic where an amount is set and static where none is; the
/// amount has a data object of its own exactly where it is set.
pub proof fn lemma_mode_follows_amount(config: Configuration)
    ensures
        config.tags()[1] == (TagView {
            id: tags::POINT_OF_INITIATION@,
            value: if config.transaction_amount is Some {
                constants::DYNAMIC_QR_POI@
            } else {
                constants::STATIC_QR_POI@
            },
        }),
        config.payload().subrange(0, 12) == if config.transaction_amount is Some {
            "000201010212"@
        } else {
            "000201010211"@
        },
        match config.transaction_amount {
            Some(amount) => config.tags()[config.schemes.len() as int + 4] == (TagView {
                id: tags::TRANSACTION_AMOUNT@,
                value: amount,
            }),
            None => forall|i: int|
                0 <= i < config.tags().len() ==> (#[trigger] config.tags()[i]).id
                    != tags::TRANSACTION_AMOUNT@,
        },
{
    tags::lemma_identifiers();
    let head = seq![
        TagView {
            id: tags::PAYLOAD_FORMAT_INDICATOR@,
            value: constants::PAYLOAD_FORMAT_INDICATOR@,
        },
        TagView { id: tags::POINT_OF_INITIATION@, value: config.point_of_initiation() },
    ];
    let rest = config.tags().skip(2);
    assert(config.tags() =~= head + rest);
    lemma_encode_all_concat(head, rest);
    assert(head.drop_last() =~= seq![head[0]]);
    lemma_encode_one(head[0]);
    reveal_strlit("11");
    reveal_strlit("12");
    reveal_strlit("000201010211");
    reveal_strlit("000201010212");
    lemma_ascii_bytes("01"@);
    lemma_ascii_bytes("11"@);
    lemma_ascii_bytes("12"@);
    if config.transaction_amount is None {
        lemma_other_identifiers(config);
    }
}

/// The identifiers that a payload always holds, and those of the schemes,
/// are neither that of the amount nor that of the additional data.
proof fn lemma_other_identifiers(config: Configuration)
    ensures
        config.transaction_amount is None ==> forall|i: int|
            0 <= i < config.tags().len() ==> (#[trigger] config.tags()[i]).id
                != tags::TRANSACTION_AMOUNT@,
        !config.has_additional_data() ==> forall|i: int|
            0 <= i < config.tags().len() ==> (#[trigger] config.tags()[i]).id
                != tags::ADDITIONAL_DATA@,
{
    tags::lemma_identifiers();
    let n = config.schemes.len() as int;
    assert forall|i: int| 0 <= i < config.tags().len() implies {
        &&& config.transaction_amount is None ==> (#[trigger] config.tags()[i]).id
            != tags::TRANSACTION_AMOUNT@
        &&& !config.has_additional_data() ==> config.tags()[i].id != tags::ADDITIONAL_DATA@
    } by {
        if 2 <= i < 2 + n {
            assert(config.tags()[i].id == config.schemes[i - 2].tag_id());
        }
    }
}

/// The additional data have a data object exactly where one of their texts
/// is set: it comes after the merchant's city. Where none is set, or no
/// additional data were given, no data object of the payload bears their
/// identifier.
pub proof fn lemma_additional_data_presence(config: Configuration)
    ensures
        config.has_additional_data() ==> {
            let at = config.schemes.len() + 7 + if config.transaction_amount is Some {
                1int
            } else {
                0int
            };
            &&& Some(config.tags()[at]) == config.additional_data->Some_0.encoded()
            &&& config.tags()[at].id == tags::ADDITIONAL_DATA@
        },
        !config.has_additional_data() ==> forall|i: int|
            0 <= i < config.tags().len() ==> (#[trigger] config.tags()[i]).id
                != tags::ADDITIONAL_DATA@,
{
    lemma_other_identifiers(config);
}

/// Every data object of the configuration is written in the payload as it
/// is, after those that precede it and before those that follow it and the
/// checksum.
pub proof fn lemma_payload_holds_every_tag(config: Configuration, i: int)
    requires
        0 <= i < config.tags().len(),
    ensures
        config.payload() == encode_all(config.tags().take(i)) + config.tags()[i].encoded()
            + encode_all(config.tags().skip(i + 1)) + "6304"@ + config.checksum(),
{
    lemma_payload_is_closed(config);
    lemma_tag_occurs(config.tags(), i);
}

/// Every payload that building gives verifies.
pub proof fn lemma_built_payload_verifies(config: Configuration)
    requires
        config.built() is Ok,
    ensures
        has_valid_crc(encode_utf8(config.built()->Ok_0)),
{
    lemma_payload_is_closed(config);
    lemma_with_crc_verifies(config.content());
}

/// Building depends on the configuration alone: two builders that hold the
/// same configuration give the same payload, or the same failure.
pub proof fn lemma_build_is_repeatable(first: QRBuilder, second: QRBuilder)
    requires
        first@ == second@,
    ensures
        first@.built() == second@.built(),
{
}

/// Where the configuration and its schemes break no rule, building fails
/// exactly when the content and the eight bytes of the checksum together
/// take more than 512 bytes, and then reports the length that the payload
/// would have had.
pub proof fn lemma_length_ceiling(config: Configuration)
    requires
        config.violation() is None,
        first_violation(config.schemes) is None,
    ensures
        byte_len(config.content()) + 8 > constants::MAX_QR_LENGTH ==> config.built() == Err::<
            Seq<char>,
            ErrorView,
        >(ErrorView::PayloadTooLong { length: byte_len(config.content()) + 8 }),
        byte_len(config.content()) + 8 <= constants::MAX_QR_LENGTH ==> config.built() == Ok::<
            Seq<char>,
            ErrorView,
        >(config.payload()),
{
    lemma_payload_is_closed(config);
}

} // verus!

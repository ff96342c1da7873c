//! Payment schemes and the optional data that accompany a payment.

use vstd::prelude::*;
use crate::error::{ErrorView, QRError};
use crate::tags;
use crate::text::{all_ascii_alphanumeric, byte_len, byte_length, is_all_ascii_alphanumeric};
use crate::tlv::{encode_all, encode_tags, EMVTag, TagView};

verus! {

/// Additional data of a payment: up to thirteen optional texts.
#[derive(Debug, Clone)]
pub struct AdditionalData {
    /// Bill, invoice or voucher number (sub-tag 01).
    pub bill_number: Option<String>,
    /// Mobile number of the merchant (sub-tag 02).
    pub mobile_number: Option<String>,
    /// Branch name of the merchant (sub-tag 03).
    pub store_label: Option<String>,
    /// Loyalty programme identifier (sub-tag 04).
    pub loyalty_number: Option<String>,
    /// Reference number of the transaction (sub-tag 05).
    pub reference_label: Option<String>,
    /// Customer identifier (sub-tag 06).
    pub customer_label: Option<String>,
    /// Terminal or counter identifier (sub-tag 07).
    pub terminal_number: Option<String>,
    /// Purpose of the transaction (sub-tag 08).
    pub purpose: Option<String>,
    /// Request for additional customer data (sub-tag 09).
    pub additional_customer_data: Option<String>,
    /// Merchant tax identifier (sub-tag 10).
    pub merchant_tax_id: Option<String>,
    /// Merchant channel characteristics (sub-tag 11).
    pub merchant_channel: Option<String>,
    /// Due date, written DDMMYYYY (sub-tag 50).
    pub due_date: Option<String>,
    /// Amount after the due date (sub-tag 51).
    pub amount_after_due_date: Option<String>,
}

/// Additional data as texts.
pub struct AdditionalDataView {
    pub bill_number: Option<Seq<char>>,
    pub mobile_number: Option<Seq<char>>,
    pub store_label: Option<Seq<char>>,
    pub loyalty_number: Option<Seq<char>>,
    pub reference_label: Option<Seq<char>>,
    pub customer_label: Option<Seq<char>>,
    pub terminal_number: Option<Seq<char>>,
    pub purpose: Option<Seq<char>>,
    pub additional_customer_data: Option<Seq<char>>,
    pub merchant_tax_id: Option<Seq<char>>,
    pub merchant_channel: Option<Seq<char>>,
    pub due_date: Option<Seq<char>>,
    pub amount_after_due_date: Option<Seq<char>>,
}

/// The data object of an optional text: one where the text is set, none where
/// it is not.
pub open spec fn optional_tag(id: Seq<char>, value: Option<Seq<char>>) -> Seq<TagView> {
    match value {
        Some(text) => seq![TagView { id, value: text }],
        None => Seq::empty(),
    }
}

impl AdditionalDataView {
    /// No text is set.
    pub open spec fn is_empty(self) -> bool {
        &&& self.bill_number is None
        &&& self.mobile_number is None
        &&& self.store_label is None
        &&& self.loyalty_number is None
        &&& self.reference_label is None
        &&& self.customer_label is None
        &&& self.terminal_number is None
        &&& self.purpose is None
        &&& self.additional_customer_data is None
        &&& self.merchant_tax_id is None
        &&& self.merchant_channel is None
        &&& self.due_date is None
        &&& self.amount_after_due_date is None
    }

    /// The data objects of the texts that are set, in the order of their
    /// identifiers.
    pub open spec fn sub_tags(self) -> Seq<TagView> {
        optional_tag("01"@, self.bill_number)
            + optional_tag("02"@, self.mobile_number)
            + optional_tag("03"@, self.store_label)
            + optional_tag("04"@, self.loyalty_number)
            + optional_tag("05"@, self.reference_label)
            + optional_tag("06"@, self.customer_label)
            + optional_tag("07"@, self.terminal_number)
            + optional_tag("08"@, self.purpose)
            + optional_tag("09"@, self.additional_customer_data)
            + optional_tag("10"@, self.merchant_tax_id)
            + optional_tag("11"@, self.merchant_channel)
            + optional_tag("50"@, self.due_date)
            + optional_tag("51"@, self.amount_after_due_date)
    }

    /// The enclosing data object: none where no text is set, else one whose
    /// value is the wire forms of the set texts.
    pub open spec fn encoded(self) -> Option<TagView> {
        if self.is_empty() {
            None
        } else {
            Some(TagView { id: tags::ADDITIONAL_DATA@, value: encode_all(self.sub_tags()) })
        }
    }
}

impl View for AdditionalData {
    type V = AdditionalDataView;

    open spec fn view(&self) -> AdditionalDataView {
        AdditionalDataView {
            bill_number: self.bill_number.deep_view(),
            mobile_number: self.mobile_number.deep_view(),
            store_label: self.store_label.deep_view(),
            loyalty_number: self.loyalty_number.deep_view(),
            reference_label: self.reference_label.deep_view(),
            customer_label: self.customer_label.deep_view(),
            terminal_number: self.terminal_number.deep_view(),
            purpose: self.purpose.deep_view(),
            additional_customer_data: self.additional_customer_data.deep_view(),
            merchant_tax_id: self.merchant_tax_id.deep_view(),
            merchant_channel: self.merchant_channel.deep_view(),
            due_date: self.due_date.deep_view(),
            amount_after_due_date: self.amount_after_due_date.deep_view(),
        }
    }
}

impl DeepView for AdditionalData {
    type V = AdditionalDataView;

    open spec fn deep_view(&self) -> AdditionalDataView {
        self@
    }
}

impl Default for AdditionalData {
    fn default() -> (data: AdditionalData)
        ensures
            data@.is_empty(),
    {
        AdditionalData {
            bill_number: None,
            mobile_number: None,
            store_label: None,
            loyalty_number: None,
            reference_label: None,
            customer_label: None,
            terminal_number: None,
            purpose: None,
            additional_customer_data: None,
            merchant_tax_id: None,
            merchant_channel: None,
            due_date: None,
            amount_after_due_date: None,
        }
    }
}

/// Appends the data object of an optional text to `sub_tags`.
fn push_optional(sub_tags: &mut Vec<EMVTag>, id: &str, value: &Option<String>)
    ensures
        final(sub_tags).deep_view() == old(sub_tags).deep_view() + optional_tag(
            id@,
            value.deep_view(),
        ),
{
    if let Some(text) = value {
        sub_tags.push(EMVTag::new(id, text.as_str()));
    }
}

impl AdditionalData {
    /// Additional data with no text set.
    #[must_use]
    pub fn new() -> (data: AdditionalData)
        ensures
            data@.is_empty(),
    {
        AdditionalData::default()
    }

    /// Sets the bill, invoice or voucher number.
    pub fn bill_number(self, bill_number: &str) -> (data: Self)
        ensures
            data@ == (AdditionalDataView { bill_number: Some(bill_number@), ..self@ }),
    {
        let mut data = self;
        data.bill_number = Some(bill_number.to_owned());
        data
    }

    /// Sets the mobile number of the merchant.
    pub fn mobile_number(self, mobile_number: &str) -> (data: Self)
        ensures
            data@ == (AdditionalDataView { mobile_number: Some(mobile_number@), ..self@ }),
    {
        let mut data = self;
        data.mobile_number = Some(mobile_number.to_owned());
        data
    }

    /// Sets the branch name of the merchant.
    pub fn store_label(self, store_label: &str) -> (data: Self)
        ensures
            data@ == (AdditionalDataView { store_label: Some(store_label@), ..self@ }),
    {
        let mut data = self;
        data.store_label = Some(store_label.to_owned());
        data
    }

    /// Sets the loyalty programme identifier.
    pub fn loyalty_number(self, loyalty_number: &str) -> (data: Self)
        ensures
            data@ == (AdditionalDataView { loyalty_number: Some(loyalty_number@), ..self@ }),
    {
        let mut data = self;
        data.loyalty_number = Some(loyalty_number.to_owned());
        data
    }

    /// Sets the reference number of the transaction.
    pub fn reference_label(self, reference_label: &str) -> (data: Self)
        ensures
            data@ == (AdditionalDataView { reference_label: Some(reference_label@), ..self@ }),
    {
        let mut data = self;
        data.reference_label = Some(reference_label.to_owned());
        data
    }

    /// Sets the customer identifier.
    pub fn customer_label(self, customer_label: &str) -> (data: Self)
        ensures
            data@ == (AdditionalDataView { customer_label: Some(customer_label@), ..self@ }),
    {
        let mut data = self;
        data.customer_label = Some(customer_label.to_owned());
        data
    }

    /// Sets the terminal or counter identifier.
    pub fn terminal_number(self, terminal_number: &str) -> (data: Self)
        ensures
            data@ == (AdditionalDataView { terminal_number: Some(terminal_number@), ..self@ }),
    {
        let mut data = self;
        data.terminal_number = Some(terminal_number.to_owned());
        data
    }

    /// Sets the purpose of the transaction.
    pub fn purpose(self, purpose: &str) -> (data: Self)
        ensures
            data@ == (AdditionalDataView { purpose: Some(purpose@), ..self@ }),
    {
        let mut data = self;
        data.purpose = Some(purpose.to_owned());
        data
    }

    /// Sets the request for additional customer data.
    pub fn additional_customer_data(self, additional_customer_data: &str) -> (data: Self)
        ensures
            data@ == (AdditionalDataView {
                additional_customer_data: Some(additional_customer_data@),
                ..self@
            }),
    {
        let mut data = self;
        data.additional_customer_data = Some(additional_customer_data.to_owned());
        data
    }

    /// Sets the merchant tax identifier.
    pub fn merchant_tax_id(self, merchant_tax_id: &str) -> (data: Self)
        ensures
            data@ == (AdditionalDataView { merchant_tax_id: Some(merchant_tax_id@), ..self@ }),
    {
        let mut data = self;
        data.merchant_tax_id = Some(merchant_tax_id.to_owned());
        data
    }

    /// Sets the merchant channel characteristics.
    pub fn merchant_channel(self, merchant_channel: &str) -> (data: Self)
        ensures
            data@ == (AdditionalDataView { merchant_channel: Some(merchant_channel@), ..self@ }),
    {
        let mut data = self;
        data.merchant_channel = Some(merchant_channel.to_owned());
        data
    }

    /// Sets the due date, written DDMMYYYY.
    pub fn due_date(self, due_date: &str) -> (data: Self)
        ensures
            data@ == (AdditionalDataView { due_date: Some(due_date@), ..self@ }),
    {
        let mut data = self;
        data.due_date = Some(due_date.to_owned());
        data
    }

    /// Sets the amount after the due date.
    pub fn amount_after_due_date(self, amount_after_due_date: &str) -> (data: Self)
        ensures
            data@ == (AdditionalDataView {
                amount_after_due_date: Some(amount_after_due_date@),
                ..self@
            }),
    {
        let mut data = self;
        data.amount_after_due_date = Some(amount_after_due_date.to_owned());
        data
    }

    /// Encodes the additional data as one data object, or as none where no
    /// text is set.
    #[must_use]
    pub fn encode(&self) -> (tag: Option<EMVTag>)
        ensures
            tag.deep_view() == self@.encoded(),
    {
        let mut sub_tags: Vec<EMVTag> = Vec::new();
        push_optional(&mut sub_tags, "01", &self.bill_number);
        push_optional(&mut sub_tags, "02", &self.mobile_number);
        push_optional(&mut sub_tags, "03", &self.store_label);
        push_optional(&mut sub_tags, "04", &self.loyalty_number);
        push_optional(&mut sub_tags, "05", &self.reference_label);
        push_optional(&mut sub_tags, "06", &self.customer_label);
        push_optional(&mut sub_tags, "07", &self.terminal_number);
        push_optional(&mut sub_tags, "08", &self.purpose);
        push_optional(&mut sub_tags, "09", &self.additional_customer_data);
        push_optional(&mut sub_tags, "10", &self.merchant_tax_id);
        push_optional(&mut sub_tags, "11", &self.merchant_channel);
        push_optional(&mut sub_tags, "50", &self.due_date);
        push_optional(&mut sub_tags, "51", &self.amount_after_due_date);
        if sub_tags.is_empty() {
            None
        } else {
            let value = encode_tags(&sub_tags);
            Some(EMVTag::new(tags::ADDITIONAL_DATA, value.as_str()))
        }
    }
}

/// Texts for the data objects 80 to 99.
#[derive(Debug, Clone)]
pub struct ExtensionFields {
    /// Context or particulars of the transaction (tag 80).
    pub transaction_context: Option<String>,
    /// Discounts and loyalty programmes (tag 81).
    pub discounts_loyalty: Option<String>,
    /// Offline to online payments (tag 82).
    pub offline_to_online: Option<String>,
    /// Data of an e-commerce purchase (tag 83).
    pub ecommerce: Option<String>,
    /// End-to-end identifier of a request to pay (tag 84).
    pub end_to_end_id: Option<String>,
    /// Transaction type code (tag 85).
    pub transaction_type_code: Option<String>,
}

impl Default for ExtensionFields {
    fn default() -> (fields: ExtensionFields)
        ensures
            fields.transaction_context is None,
            fields.discounts_loyalty is None,
            fields.offline_to_online is None,
            fields.ecommerce is None,
            fields.end_to_end_id is None,
            fields.transaction_type_code is None,
    {
        ExtensionFields {
            transaction_context: None,
            discounts_loyalty: None,
            offline_to_online: None,
            ecommerce: None,
            end_to_end_id: None,
            transaction_type_code: None,
        }
    }
}

/// How a tip or convenience fee is asked for.
#[derive(Debug, Clone)]
pub enum ConvenienceFee {
    /// The customer is prompted to add a tip.
    Prompt,
    /// A fixed amount.
    Fixed(String),
    /// A percentage of the amount.
    Percentage(String),
}

/// A payment scheme with the account that receives the payment.
#[derive(Debug, Clone)]
pub enum SchemeConfig {
    Visa { account_info: String },
    Mastercard { account_info: String },
    UnionPay { account_info: String },
    /// The interbank payment system IPS ET: the scheme's identifier, the
    /// bank's identifier code, and the account.
    IPSET { guid: String, bic: String, account: String },
}

/// A payment scheme as texts.
pub enum SchemeView {
    Visa { account_info: Seq<char> },
    Mastercard { account_info: Seq<char> },
    UnionPay { account_info: Seq<char> },
    IPSET { guid: Seq<char>, bic: Seq<char>, account: Seq<char> },
}

/// A scheme identifier of the interbank system: 32 bytes, all of them ASCII
/// letters or digits (a UUID without its hyphens).
pub open spec fn is_guid(text: Seq<char>) -> bool {
    byte_len(text) == 32 && all_ascii_alphanumeric(text)
}

/// A bank identifier code: 8 or 11 bytes.
pub open spec fn is_bic(text: Seq<char>) -> bool {
    byte_len(text) == 8 || byte_len(text) == 11
}

/// An account of the interbank system: at most 24 bytes.
pub open spec fn is_account(text: Seq<char>) -> bool {
    byte_len(text) <= 24
}

impl SchemeView {
    /// Identifier of the data object that carries the scheme.
    pub open spec fn tag_id(self) -> Seq<char> {
        match self {
            SchemeView::Visa { .. } => tags::VISA@,
            SchemeView::Mastercard { .. } => tags::MASTERCARD@,
            SchemeView::UnionPay { .. } => tags::UNIONPAY@,
            SchemeView::IPSET { .. } => tags::IPS_ET@,
        }
    }

    /// The first rule that the scheme breaks, if any. The card schemes have
    /// none; the interbank system checks its identifier, then the bank's
    /// code, then the account.
    pub open spec fn violation(self) -> Option<ErrorView> {
        match self {
            SchemeView::IPSET { guid, bic, account } => {
                if !is_guid(guid) {
                    Some(ErrorView::InvalidValue { field: "guid"@, value: guid })
                } else if !is_bic(bic) {
                    Some(ErrorView::InvalidValue { field: "bic"@, value: bic })
                } else if !is_account(account) {
                    Some(ErrorView::InvalidValue { field: "account"@, value: account })
                } else {
                    None
                }
            },
            _ => None,
        }
    }

    /// Value of the scheme's data object: the account as it is for a card
    /// scheme, three nested data objects for the interbank system.
    pub open spec fn value(self) -> Seq<char> {
        match self {
            SchemeView::Visa { account_info } => account_info,
            SchemeView::Mastercard { account_info } => account_info,
            SchemeView::UnionPay { account_info } => account_info,
            SchemeView::IPSET { guid, bic, account } => {
                (TagView { id: "00"@, value: guid }).encoded() + (TagView {
                    id: "01"@,
                    value: bic,
                }).encoded() + (TagView { id: "02"@, value: account }).encoded()
            },
        }
    }

    /// The scheme's data object, or the rule that the scheme breaks.
    pub open spec fn encoded(self) -> Result<TagView, ErrorView> {
        match self.violation() {
            Some(error) => Err(error),
            None => Ok(TagView { id: self.tag_id(), value: self.value() }),
        }
    }
}

impl View for SchemeConfig {
    type V = SchemeView;

    open spec fn view(&self) -> SchemeView {
        match *self {
            SchemeConfig::Visa { account_info } => SchemeView::Visa {
                account_info: account_info@,
            },
            SchemeConfig::Mastercard { account_info } => SchemeView::Mastercard {
                account_info: account_info@,
            },
            SchemeConfig::UnionPay { account_info } => SchemeView::UnionPay {
                account_info: account_info@,
            },
            SchemeConfig::IPSET { guid, bic, account } => SchemeView::IPSET {
                guid: guid@,
                bic: bic@,
                account: account@,
            },
        }
    }
}

impl DeepView for SchemeConfig {
    type V = SchemeView;

    open spec fn deep_view(&self) -> SchemeView {
        self@
    }
}

impl SchemeConfig {
    /// The interbank payment system IPS ET.
    #[must_use]
    pub fn ips_et(guid: &str, bic: &str, account: &str) -> (scheme: Self)
        ensures
            scheme@ == (SchemeView::IPSET { guid: guid@, bic: bic@, account: account@ }),
    {
        SchemeConfig::IPSET {
            guid: guid.to_owned(),
            bic: bic.to_owned(),
            account: account.to_owned(),
        }
    }

    /// Visa, with the account as the scheme wants it written.
    pub fn visa(account_info: &str) -> (scheme: Self)
        ensures
            scheme@ == (SchemeView::Visa { account_info: account_info@ }),
    {
        SchemeConfig::Visa { account_info: account_info.to_owned() }
    }

    /// Mastercard, with the account as the scheme wants it written.
    pub fn mastercard(account_info: &str) -> (scheme: Self)
        ensures
            scheme@ == (SchemeView::Mastercard { account_info: account_info@ }),
    {
        SchemeConfig::Mastercard { account_info: account_info.to_owned() }
    }

    /// Identifier of the data object that carries the scheme.
    #[must_use]
    pub fn tag_id(&self) -> (id: &str)
        ensures
            id@ == self@.tag_id(),
    {
        match self {
            SchemeConfig::Visa { .. } => tags::VISA,
            SchemeConfig::Mastercard { .. } => tags::MASTERCARD,
            SchemeConfig::UnionPay { .. } => tags::UNIONPAY,
            SchemeConfig::IPSET { .. } => tags::IPS_ET,
        }
    }

    /// Encodes the scheme as a data object. The interbank system is checked
    /// first, and the first rule it breaks is reported.
    pub fn encode(&self) -> (tag: Result<EMVTag, QRError>)
        ensures
            match tag {
                Ok(t) => self@.encoded() == Ok::<TagView, ErrorView>(t@),
                Err(e) => self@.encoded() == Err::<TagView, ErrorView>(e@),
            },
    {
        match self {
            SchemeConfig::Visa { account_info } => Ok(
                EMVTag::new(tags::VISA, account_info.as_str()),
            ),
            SchemeConfig::Mastercard { account_info } => Ok(
                EMVTag::new(tags::MASTERCARD, account_info.as_str()),
            ),
            SchemeConfig::UnionPay { account_info } => Ok(
                EMVTag::new(tags::UNIONPAY, account_info.as_str()),
            ),
            SchemeConfig::IPSET { guid, bic, account } => {
                if byte_length(guid.as_str()) != 32 || !is_all_ascii_alphanumeric(guid.as_str()) {
                    return Err(
                        QRError::InvalidValue { field: "guid".to_owned(), value: guid.clone() },
                    );
                }
                let bic_length = byte_length(bic.as_str());
                if bic_length != 8 && bic_length != 11 {
                    return Err(
                        QRError::InvalidValue { field: "bic".to_owned(), value: bic.clone() },
                    );
                }
                if byte_length(account.as_str()) > 24 {
                    return Err(
                        QRError::InvalidValue {
                            field: "account".to_owned(),
                            value: account.clone(),
                        },
                    );
                }
                let mut value = EMVTag::new("00", guid.as_str()).encode();
                value.append(EMVTag::new("01", bic.as_str()).encode().as_str());
                value.append(EMVTag::new("02", account.as_str()).encode().as_str());
                Ok(EMVTag::new(tags::IPS_ET, value.as_str()))
            },
        }
    }
}

} // verus!

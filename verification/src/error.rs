//! What can go wrong while a payload is put together.

use vstd::prelude::*;
use vstd::std_specs::convert::FromSpecImpl;

verus! {

/// Failure of a payload operation.
#[derive(Debug)]
pub enum QRError {
    /// The input is not a well-formed payload.
    InvalidFormat { message: String },
    /// The checksum does not match the content.
    InvalidCRC,
    /// A mandatory field was never set.
    MissingField { field: String },
    /// A field is set to a value that its format rules exclude.
    InvalidValue { field: String, value: String },
    /// A field is longer, in bytes, than the standard allows.
    ValueTooLong { field: String, length: usize, max_length: usize },
    /// The scheme is not one of those this library knows.
    UnsupportedScheme { scheme: String },
    /// The payload as a whole is longer than the standard allows.
    PayloadTooLong { length: usize },
    BuilderError { message: String },
    ValidationError { message: String },
    /// The payload could not be drawn as a QR symbol.
    QRCodeError { message: String },
    /// The symbol could not be written as an image.
    ImageError { message: String },
}

/// What an operation of this library gives: a value, or a failure.
pub type Result<T> = std::result::Result<T, QRError>;

/// A failure with its texts as sequences of characters.
pub enum ErrorView {
    InvalidFormat { message: Seq<char> },
    InvalidCRC,
    MissingField { field: Seq<char> },
    InvalidValue { field: Seq<char>, value: Seq<char> },
    ValueTooLong { field: Seq<char>, length: nat, max_length: nat },
    UnsupportedScheme { scheme: Seq<char> },
    PayloadTooLong { length: nat },
    BuilderError { message: Seq<char> },
    ValidationError { message: Seq<char> },
    QRCodeError { message: Seq<char> },
    ImageError { message: Seq<char> },
}

impl View for QRError {
    type V = ErrorView;

    open spec fn view(&self) -> ErrorView {
        match *self {
            QRError::InvalidFormat { message } => ErrorView::InvalidFormat { message: message@ },
            QRError::InvalidCRC => ErrorView::InvalidCRC,
            QRError::MissingField { field } => ErrorView::MissingField { field: field@ },
            QRError::InvalidValue { field, value } => ErrorView::InvalidValue {
                field: field@,
                value: value@,
            },
            QRError::ValueTooLong { field, length, max_length } => ErrorView::ValueTooLong {
                field: field@,
                length: length as nat,
                max_length: max_length as nat,
            },
            QRError::UnsupportedScheme { scheme } => ErrorView::UnsupportedScheme {
                scheme: scheme@,
            },
            QRError::PayloadTooLong { length } => ErrorView::PayloadTooLong {
                length: length as nat,
            },
            QRError::BuilderError { message } => ErrorView::BuilderError { message: message@ },
            QRError::ValidationError { message } => ErrorView::ValidationError {
                message: message@,
            },
            QRError::QRCodeError { message } => ErrorView::QRCodeError { message: message@ },
            QRError::ImageError { message } => ErrorView::ImageError { message: message@ },
        }
    }
}

impl DeepView for QRError {
    type V = ErrorView;

    open spec fn deep_view(&self) -> ErrorView {
        self@
    }
}

/// `qrcode::types::QrError`, the failure of the symbol generator. Nothing is
/// said of what a value of it holds.
#[verifier::external_type_specification]
#[verifier::external_body]
pub struct ExQrError(qrcode::types::QrError);

/// The texts with which the symbol generator describes its failures.
pub open spec fn is_generator_message(text: Seq<char>) -> bool {
    ||| text == "data too long"@
    ||| text == "invalid version"@
    ||| text == "unsupported character set"@
    ||| text == "invalid ECI designator"@
    ||| text == "invalid character"@
}

/// Calls `Display` of `qrcode::types::QrError`, through `to_string`. It
/// writes one of five fixed texts, chosen by the variant; the contract names
/// the five and leaves open which of them comes.
#[verifier::external_body]
fn generator_message(err: &qrcode::types::QrError) -> (text: String)
    ensures
        is_generator_message(text@),
{
    err.to_string()
}

impl From<qrcode::types::QrError> for QRError {
    /// A failure of the symbol generator, under the text that the generator
    /// gives it.
    fn from(err: qrcode::types::QrError) -> (e: QRError)
        ensures
            e is QRCodeError,
            is_generator_message(e->QRCodeError_message@),
    {
        QRError::QRCodeError { message: generator_message(&err) }
    }
}

/// The conversion is described by the contract of `from` alone: which text
/// the generator writes for a failure is its own matter, so no function of
/// the failure is given for it here.
impl FromSpecImpl<qrcode::types::QrError> for QRError {
    open spec fn obeys_from_spec() -> bool {
        false
    }

    open spec fn from_spec(err: qrcode::types::QrError) -> QRError {
        arbitrary()
    }
}

} // verus!

use ethqr_gen::error::QRError;
use qrcode::types::QrError;

fn generator_text(err: QrError) -> String {
    match QRError::from(err) {
        QRError::QRCodeError { message } => message,
        other => panic!("expected a generator failure, got {other:?}"),
    }
}

#[test]
fn generator_failures_keep_their_text() {
    assert_eq!(generator_text(QrError::DataTooLong), "data too long");
    assert_eq!(generator_text(QrError::InvalidVersion), "invalid version");
    assert_eq!(generator_text(QrError::UnsupportedCharacterSet), "unsupported character set");
    assert_eq!(generator_text(QrError::InvalidEciDesignator), "invalid ECI designator");
    assert_eq!(generator_text(QrError::InvalidCharacter), "invalid character");
}

fn draw(data: &[u8]) -> Result<usize, QRError> {
    let code = qrcode::QrCode::new(data)?;
    Ok(code.width())
}

#[test]
fn generator_failures_convert_with_the_question_mark() {
    assert_eq!(draw(b"63046007").unwrap(), 21);
    let too_long = vec![b'0'; 8000];
    assert!(matches!(
        draw(&too_long),
        Err(QRError::QRCodeError { message }) if message == "data too long"
    ));
}

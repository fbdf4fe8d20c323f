use tutel::{CodecId, CodecIdError};

#[test]
fn codec_id_text_round_trip() {
    let id: CodecId = "opus".parse().expect("printable");
    assert_eq!(id.to_string(), "opus");
    let again: CodecId = id.to_string().parse().expect("printable");
    assert_eq!(again, id);
}

#[test]
fn codec_id_bytes_are_big_endian() {
    let id = CodecId::from_ascii("opus").unwrap();
    assert_eq!(id.as_bytes(), *b"opus");
    assert_eq!(id.as_u32(), u32::from_be_bytes(*b"opus"));
}

#[test]
fn codec_id_rejects_control_byte() {
    let r = CodecId::try_from([0x00u8, 0x41, 0x42, 0x43]);
    assert_eq!(r, Err(CodecIdError::NonPrintableAscii));
}

#[test]
fn codec_id_rejects_non_ascii_and_delete() {
    assert_eq!(CodecId::from_ascii_bytes([0x80, 0x41, 0x42, 0x43]), Err(CodecIdError::NonPrintableAscii));
    assert_eq!(CodecId::from_ascii_bytes([0x41, 0x42, 0x43, 0x7f]), Err(CodecIdError::NonPrintableAscii));
}

#[test]
fn codec_id_rejects_wrong_length() {
    assert_eq!(CodecId::from_ascii("abc"), Err(CodecIdError::InvalidLength));
    assert_eq!(CodecId::from_ascii("abcde"), Err(CodecIdError::InvalidLength));
    assert_eq!(CodecId::try_from(""), Err(CodecIdError::InvalidLength));
    // four characters but five bytes
    assert_eq!(CodecId::from_ascii("abc\u{e9}"), Err(CodecIdError::InvalidLength));
    // two characters but four bytes
    assert_eq!(CodecId::from_ascii("\u{e9}\u{e9}"), Err(CodecIdError::NonPrintableAscii));
}

#[test]
fn codec_id_accepts_space_and_tilde() {
    let id = CodecId::from_ascii("mp4 ").unwrap();
    assert_eq!(id.to_string(), "mp4 ");
    let id = CodecId::from_ascii("~~~~").unwrap();
    assert_eq!(id.as_bytes(), [0x7e; 4]);
}

#[test]
fn codec_id_display_falls_back_to_hex() {
    let id = CodecId::from_bytes_unchecked([0x01, 0x41, 0x0a, 0x7f]);
    assert_eq!(id.to_string(), "0x01410A7F");
    assert_eq!(id.to_debug_string(), "[1, 65, 10, 127]");
}

#[test]
fn codec_id_debug_quotes_printable() {
    let id = CodecId::from_bytes_unchecked(*b"avc1");
    assert_eq!(id.to_debug_string(), "\"avc1\"");
}

#[test]
fn codec_id_error_messages() {
    assert_eq!(CodecIdError::InvalidLength.message(), "codec id must be exactly 4 bytes");
    assert_eq!(
        CodecIdError::NonPrintableAscii.message(),
        "codec id must contain printable ASCII characters"
    );
}

#[test]
fn codec_id_parse_errors() {
    assert_eq!("op".parse::<CodecId>(), Err(CodecIdError::InvalidLength));
    assert_eq!("opus1".parse::<CodecId>(), Err(CodecIdError::InvalidLength));
    assert_eq!("op\tu".parse::<CodecId>(), Err(CodecIdError::NonPrintableAscii));
}

#[test]
fn codec_id_from_bytes_is_big_endian_and_round_trips() {
    let id = CodecId::try_from(*b"fmt ").unwrap();
    assert_eq!(id.as_u32(), 0x666D7420);
    assert_eq!(CodecId::try_from(id.as_bytes()), Ok(id));
}

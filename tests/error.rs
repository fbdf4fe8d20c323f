use tutel::pipeline::leaves_stream_undecoded;
use tutel::Error;

#[test]
fn error_messages_keep_their_cause() {
    assert_eq!(Error::Io("broken pipe".to_string()).to_string(), "IO error: broken pipe");
    assert_eq!(Error::InvalidFormat.to_string(), "Invalid format");
    assert_eq!(Error::InvalidCodec.to_string(), "Invalid codec");
    assert_eq!(Error::DecodeError("bad slice".to_string()).to_string(), "Decode error: bad slice");
    assert_eq!(Error::EncodeError("full".to_string()).to_string(), "Encode error: full");
    assert_eq!(Error::Custom("x".to_string()).to_string(), "Custom error: x");
}

#[test]
fn only_unsupported_codec_leaves_stream_undecoded() {
    assert!(leaves_stream_undecoded(&Error::InvalidCodec));
    assert!(!leaves_stream_undecoded(&Error::InvalidFormat));
    assert!(!leaves_stream_undecoded(&Error::Io("eof".to_string())));
    assert!(!leaves_stream_undecoded(&Error::DecodeError("x".to_string())));
}

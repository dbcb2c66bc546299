use bytes::BytesMut;
use neli::err::{DeError, NlError, SerError};

#[test]
fn reconstruct_joins_parts_in_order() {
    let e = SerError::UnexpectedEOB(BytesMut::from(&b"bc"[..]));
    match e.reconstruct(Some(BytesMut::from(&b"a"[..])), Some(BytesMut::from(&b"de"[..]))) {
        SerError::UnexpectedEOB(b) => assert_eq!(b.as_ref(), b"abcde"),
        other => panic!("unexpected error: {:?}", other),
    }
    let e = SerError::new("boom".to_string(), BytesMut::from(&b"xy"[..]));
    match e.reconstruct(None, Some(BytesMut::from(&b"z"[..]))) {
        SerError::Msg(m, b) => {
            assert_eq!(m, "boom");
            assert_eq!(b.as_ref(), b"xyz");
        }
        other => panic!("unexpected error: {:?}", other),
    }
    let e = SerError::BufferNotFilled(BytesMut::from(&b"q"[..]));
    match e.reconstruct(Some(BytesMut::from(&b"p"[..])), None) {
        SerError::BufferNotFilled(b) => assert_eq!(b.as_ref(), b"pq"),
        other => panic!("unexpected error: {:?}", other),
    }
}

#[test]
fn error_constructors_carry_messages() {
    assert!(matches!(NlError::new("oops".to_string()), NlError::Msg(ref m) if m == "oops"));
    assert!(matches!(DeError::new("bad".to_string()), DeError::Msg(ref m) if m == "bad"));
    assert_eq!(NlError::NoAck.description(), "No ack received");
    assert_eq!(NlError::BadSeq.description(), "Sequence number does not match the request");
    assert_eq!(NlError::BadPid.description(), "PID does not match the socket");
    assert_eq!(NlError::Msg("m".to_string()).description(), "m");
}

#[test]
fn error_descriptions_tell_causes_apart() {
    assert_eq!(
        SerError::UnexpectedEOB(BytesMut::new()).description(),
        "The buffer was too small for the requested serialization operation"
    );
    assert_eq!(
        SerError::BufferNotFilled(BytesMut::new()).description(),
        "The number of bytes written to the buffer did not fill the given space"
    );
    assert_eq!(
        DeError::UnexpectedEOB.description(),
        "The buffer was not large enough to complete the deserialize operation"
    );
    assert_eq!(DeError::BufferNotParsed.description(), "Unparsed data left in buffer");
    assert_eq!(DeError::NullError.description(), "A null was found before the end of the buffer");
    assert_eq!(DeError::NoNullError.description(), "No terminating null byte was found in the buffer");
}

#[test]
fn io_error_message_keeps_its_text() {
    let e = SerError::IOError(std::io::Error::new(std::io::ErrorKind::Other, "disk full"), BytesMut::new());
    assert_eq!(e.message(), "IO error while serializing: disk full");
    assert_eq!(SerError::UnexpectedEOB(BytesMut::new()).message(), "The buffer was too small for the requested serialization operation");
    assert_eq!(SerError::new("x".to_string(), BytesMut::new()).message(), "x");
}

#[test]
fn errors_convert_into_messages() {
    match NlError::from(DeError::BufferNotParsed) {
        NlError::Msg(m) => assert_eq!(m, "Unparsed data left in buffer"),
        other => panic!("unexpected error: {:?}", other),
    }
    match NlError::from(SerError::BufferNotFilled(BytesMut::new())) {
        NlError::Msg(m) => assert_eq!(m, "The number of bytes written to the buffer did not fill the given space"),
        other => panic!("unexpected error: {:?}", other),
    }
    match NlError::from(std::io::Error::new(std::io::ErrorKind::Other, "gone")) {
        NlError::Msg(m) => assert_eq!(m, "gone"),
        other => panic!("unexpected error: {:?}", other),
    }
    match DeError::from(std::io::Error::new(std::io::ErrorKind::Other, "eof")) {
        DeError::Msg(m) => assert_eq!(m, "eof"),
        other => panic!("unexpected error: {:?}", other),
    }
    let bad = vec![0xffu8];
    let utf8 = std::str::from_utf8(&bad).unwrap_err();
    let text = utf8.to_string();
    match DeError::from(utf8) {
        DeError::Msg(m) => assert_eq!(m, text),
        other => panic!("unexpected error: {:?}", other),
    }
    let from_utf8 = String::from_utf8(bad.clone()).unwrap_err();
    let text = from_utf8.to_string();
    match DeError::from(from_utf8) {
        DeError::Msg(m) => assert_eq!(m, text),
        other => panic!("unexpected error: {:?}", other),
    }
}

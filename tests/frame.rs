use bytes::{Bytes, BytesMut};
use webcontr::frame::{
    FrameError, RequestFrame, RequestFrameCodec, ResponseErrorKind, ResponseFrame,
    ResponseFrameCodec,
};

fn request_bytes(cmd: &[u8], args: &[u8]) -> Vec<u8> {
    let mut v: Vec<u8> = Vec::new();
    v.extend((cmd.len() as u16).to_be_bytes());
    v.extend(cmd);
    v.extend((args.len() as u16).to_be_bytes());
    v.extend(args);
    v
}

#[test]
pub fn request_decoding() {
    let mut buffer_vec = Vec::default();

    buffer_vec.extend(5u16.to_be_bytes());
    buffer_vec.extend(b"hello");
    buffer_vec.extend(4u16.to_be_bytes());
    buffer_vec.extend(b"data");

    let mut buffer_mut = BytesMut::from(buffer_vec.as_slice());
    let result = RequestFrameCodec.decode(&mut buffer_mut);

    assert_eq!(
        result.unwrap().unwrap(),
        RequestFrame { command: "hello".into(), arguments: Bytes::from("data") }
    );
}

#[test]
pub fn request_encoding() {
    let frame = RequestFrame { command: "hello".into(), arguments: Bytes::from("data") };

    let mut bytes = BytesMut::default();

    RequestFrameCodec.encode(frame, &mut bytes).unwrap();

    let mut buffer_vec = Vec::default();

    buffer_vec.extend(5u16.to_be_bytes());
    buffer_vec.extend(b"hello");
    buffer_vec.extend(4u16.to_be_bytes());
    buffer_vec.extend(b"data");

    assert_eq!(bytes, BytesMut::from(buffer_vec.as_slice()));
}

#[test]
pub fn response_decoding() {
    let mut buffer_vec = Vec::default();

    buffer_vec.extend(0u8.to_be_bytes());
    buffer_vec.extend(4u16.to_be_bytes());
    buffer_vec.extend(b"data");

    let mut buffer_mut = BytesMut::from(buffer_vec.as_slice());
    let result = ResponseFrameCodec.decode(&mut buffer_mut);

    assert_eq!(result.unwrap().unwrap(), ResponseFrame::with_payload(Bytes::from("data")));

    let mut buffer_vec = Vec::default();

    buffer_vec.extend(1u8.to_be_bytes());

    let mut buffer_mut = BytesMut::from(buffer_vec.as_slice());
    let result = ResponseFrameCodec.decode(&mut buffer_mut);

    assert_eq!(result.unwrap().unwrap(), ResponseFrame::Error(ResponseErrorKind::MethodNotFound));
}

#[test]
pub fn response_encoding() {
    let frame = ResponseFrame::Error(ResponseErrorKind::MethodNotFound);

    let mut bytes = BytesMut::default();

    ResponseFrameCodec.encode(frame, &mut bytes).unwrap();

    let mut buffer_vec = Vec::default();

    buffer_vec.push(1u8);

    assert_eq!(bytes, BytesMut::from(buffer_vec.as_slice()));

    let data2 = "helloverynice";

    let frame2 = ResponseFrame::with_payload(Bytes::from(data2));

    let mut bytes = BytesMut::default();

    ResponseFrameCodec.encode(frame2, &mut bytes).unwrap();

    let mut buffer_vec = Vec::default();

    buffer_vec.push(0u8);
    buffer_vec.extend((data2.len() as u16).to_be_bytes());
    buffer_vec.extend(data2.as_bytes());

    assert_eq!(bytes, BytesMut::from(buffer_vec.as_slice()));
}

#[test]
fn request_round_trip_empties_buffer() {
    let frame = RequestFrame::new("Grüße".to_string(), Bytes::from(vec![0u8, 1, 2, 255]));
    let mut buf = BytesMut::new();
    RequestFrameCodec.encode(frame.clone(), &mut buf).unwrap();
    assert_eq!(buf.len(), 2 + "Grüße".len() + 2 + 4);
    let decoded = RequestFrameCodec.decode(&mut buf).unwrap().unwrap();
    assert_eq!(decoded, frame);
    assert!(buf.is_empty());
}

#[test]
fn request_decode_leaves_following_bytes() {
    let mut bytes = request_bytes(b"a", b"xy");
    bytes.extend(request_bytes(b"b", b""));
    let mut buf = BytesMut::from(bytes.as_slice());
    let first = RequestFrameCodec.decode(&mut buf).unwrap().unwrap();
    assert_eq!(first, RequestFrame::new("a".to_string(), Bytes::from("xy")));
    assert_eq!(&buf[..], &request_bytes(b"b", b"")[..]);
    let second = RequestFrameCodec.decode(&mut buf).unwrap().unwrap();
    assert_eq!(second, RequestFrame::new("b".to_string(), Bytes::new()));
    assert!(buf.is_empty());
}

#[test]
fn response_round_trip_every_kind() {
    let frames = vec![
        ResponseFrame::with_payload(Bytes::from("payload")),
        ResponseFrame::with_payload(Bytes::new()),
        ResponseFrame::Error(ResponseErrorKind::MethodNotFound),
        ResponseFrame::Error(ResponseErrorKind::InvalidRequest),
        ResponseFrame::Error(ResponseErrorKind::Timeout),
    ];
    for frame in frames {
        let mut buf = BytesMut::new();
        ResponseFrameCodec.encode(frame.clone(), &mut buf).unwrap();
        let decoded = ResponseFrameCodec.decode(&mut buf).unwrap().unwrap();
        assert_eq!(decoded, frame);
        assert!(buf.is_empty());
    }
}

#[test]
fn error_discriminants_on_the_wire() {
    let kinds = [
        (ResponseErrorKind::MethodNotFound, 1u8),
        (ResponseErrorKind::InvalidRequest, 2u8),
        (ResponseErrorKind::Timeout, 3u8),
    ];
    for (kind, code) in kinds {
        let mut buf = BytesMut::new();
        ResponseFrameCodec.encode(ResponseFrame::Error(kind), &mut buf).unwrap();
        assert_eq!(&buf[..], &[code][..]);
    }
}

#[test]
fn request_incremental_decode() {
    let frame = RequestFrame::new("Ping".to_string(), Bytes::from("abc"));
    let mut wire = BytesMut::new();
    RequestFrameCodec.encode(frame.clone(), &mut wire).unwrap();
    for split in 0..wire.len() {
        let mut buf = BytesMut::from(&wire[..split]);
        assert_eq!(RequestFrameCodec.decode(&mut buf).unwrap(), None);
        assert_eq!(&buf[..], &wire[..split]);
        buf.extend_from_slice(&wire[split..]);
        assert_eq!(RequestFrameCodec.decode(&mut buf).unwrap(), Some(frame.clone()));
        assert!(buf.is_empty());
    }
}

#[test]
fn response_incremental_decode() {
    let frame = ResponseFrame::with_payload(Bytes::from("xyz"));
    let mut wire = BytesMut::new();
    ResponseFrameCodec.encode(frame.clone(), &mut wire).unwrap();
    for split in 0..wire.len() {
        let mut buf = BytesMut::from(&wire[..split]);
        assert_eq!(ResponseFrameCodec.decode(&mut buf).unwrap(), None);
        assert_eq!(buf.len(), split);
        buf.extend_from_slice(&wire[split..]);
        assert_eq!(ResponseFrameCodec.decode(&mut buf).unwrap(), Some(frame.clone()));
        assert!(buf.is_empty());
    }
}

#[test]
fn payload_of_largest_size_round_trips() {
    let payload = vec![7u8; 65535];
    let frame = ResponseFrame::with_payload(Bytes::from(payload.clone()));
    let mut buf = BytesMut::new();
    ResponseFrameCodec.encode(frame.clone(), &mut buf).unwrap();
    assert_eq!(buf.len(), 3 + 65535);
    assert_eq!(&buf[..3], &[0u8, 0xFF, 0xFF][..]);
    assert_eq!(ResponseFrameCodec.decode(&mut buf).unwrap(), Some(frame));

    let request = RequestFrame::new("Big".to_string(), Bytes::from(payload));
    let mut buf = BytesMut::new();
    RequestFrameCodec.encode(request.clone(), &mut buf).unwrap();
    assert_eq!(RequestFrameCodec.decode(&mut buf).unwrap(), Some(request));
    assert!(buf.is_empty());
}

#[test]
fn payload_over_largest_size_is_refused() {
    let payload = Bytes::from(vec![7u8; 65536]);
    let mut buf = BytesMut::from(&b"kept"[..]);
    let r = ResponseFrameCodec.encode(ResponseFrame::with_payload(payload.clone()), &mut buf);
    assert_eq!(r, Err(FrameError::TooLong));
    assert_eq!(&buf[..], b"kept");

    let r = RequestFrameCodec.encode(RequestFrame::new("Big".to_string(), payload), &mut buf);
    assert_eq!(r, Err(FrameError::TooLong));
    assert_eq!(&buf[..], b"kept");

    let long_command = "c".repeat(65536);
    let r = RequestFrameCodec.encode(RequestFrame::new(long_command, Bytes::new()), &mut buf);
    assert_eq!(r, Err(FrameError::TooLong));
    assert_eq!(&buf[..], b"kept");
}

#[test]
fn invalid_utf8_command_is_refused() {
    let bytes = request_bytes(&[0xC3, 0x28], b"args");
    let mut buf = BytesMut::from(bytes.as_slice());
    assert_eq!(RequestFrameCodec.decode(&mut buf), Err(FrameError::InvalidCommand));
    assert_eq!(&buf[..], bytes.as_slice());
}

#[test]
fn invalid_utf8_command_waits_for_its_bytes() {
    let bytes = request_bytes(&[0xFF, 0xFE, 0xFD], b"");
    let mut buf = BytesMut::from(&bytes[..4]);
    assert_eq!(RequestFrameCodec.decode(&mut buf), Ok(None));
}

#[test]
fn unknown_discriminant_is_refused() {
    let mut buf = BytesMut::from(&[9u8, 0, 0][..]);
    assert_eq!(ResponseFrameCodec.decode(&mut buf), Err(FrameError::UnknownDiscriminant(9)));
    assert_eq!(buf.len(), 3);
}

#[test]
fn error_frame_consumes_its_byte_only() {
    let mut buf = BytesMut::from(&[2u8, 0, 1][..]);
    assert_eq!(
        ResponseFrameCodec.decode(&mut buf),
        Ok(Some(ResponseFrame::Error(ResponseErrorKind::InvalidRequest)))
    );
    assert_eq!(&buf[..], &[0u8, 1][..]);
}

#[test]
fn empty_buffers_need_more() {
    let mut buf = BytesMut::new();
    assert_eq!(RequestFrameCodec.decode(&mut buf), Ok(None));
    assert_eq!(ResponseFrameCodec.decode(&mut buf), Ok(None));
}

#[test]
fn error_kind_codes() {
    assert_eq!(ResponseErrorKind::Timeout.code(), 3);
    assert_eq!(ResponseErrorKind::from_code(2), Some(ResponseErrorKind::InvalidRequest));
    assert_eq!(ResponseErrorKind::from_code(0), None);
    assert_eq!(ResponseErrorKind::from_code(4), None);
}

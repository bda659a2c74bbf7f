use futu_client::buffer::{FrameBuffer, ReadEvent};
use futu_client::frame::{Error, FrameRaw};
use futu_client::header::{APIProtoHeader, PROTO_HEADER_LEN};
use futu_client::push::{classify_push, UpdateResponse};
use futu_client::serial::{serial_no, serial_nos, SerialNo};

const SHA1_ABC: [u8; 20] = [
    0xa9, 0x99, 0x3e, 0x36, 0x47, 0x06, 0x81, 0x6a, 0xba, 0x3e, 0x25, 0x71, 0x78, 0x50, 0xc2,
    0x6c, 0x9c, 0xd0, 0xd8, 0x9d,
];

const SHA1_EMPTY: [u8; 20] = [
    0xda, 0x39, 0xa3, 0xee, 0x5e, 0x6b, 0x4b, 0x0d, 0x32, 0x55, 0xbf, 0xef, 0x95, 0x60, 0x18,
    0x90, 0xaf, 0xd8, 0x07, 0x09,
];

fn frame_bytes(body: &[u8], id: u32, serial: u32) -> Vec<u8> {
    FrameRaw::new(body.to_vec(), id, serial).to_bytes()
}

#[test]
fn header_layout_is_little_endian() {
    let bytes = frame_bytes(b"abc", 0x0102_0304, 0x0a0b_0c0d);
    assert_eq!(bytes.len(), PROTO_HEADER_LEN + 3);
    assert_eq!(&bytes[0..2], b"FT");
    assert_eq!(&bytes[2..6], &[0x04, 0x03, 0x02, 0x01]);
    assert_eq!(bytes[6], 0);
    assert_eq!(bytes[7], 0);
    assert_eq!(&bytes[8..12], &[0x0d, 0x0c, 0x0b, 0x0a]);
    assert_eq!(&bytes[12..16], &[3, 0, 0, 0]);
    assert_eq!(&bytes[16..36], &SHA1_ABC);
    assert_eq!(&bytes[36..44], &[0u8; 8]);
    assert_eq!(&bytes[44..], b"abc");
}

#[test]
fn round_trip_gives_back_id_and_body() {
    let body: Vec<u8> = (0u8..200).collect();
    let bytes = frame_bytes(&body, 3004, 17);
    let f = FrameRaw::parse(&bytes).unwrap();
    assert_eq!(f.header.proto_id, 3004);
    assert_eq!(f.header.serial_no, 17);
    assert_eq!(f.header.body_len, 200);
    assert_eq!(f.body, body);
}

#[test]
fn round_trip_of_empty_body() {
    let bytes = frame_bytes(&[], 1001, 1);
    assert_eq!(bytes.len(), 44);
    let f = FrameRaw::parse(&bytes).unwrap();
    assert_eq!(f.header.proto_id, 1001);
    assert!(f.body.is_empty());
}

#[test]
fn checksum_field_is_sha1_of_body() {
    let f = FrameRaw::new(b"abc".to_vec(), 1, 1);
    assert_eq!(f.header.body_sha1, SHA1_ABC);
    let e = FrameRaw::new(Vec::new(), 1, 1);
    assert_eq!(e.header.body_sha1, SHA1_EMPTY);
}

#[test]
fn encode_takes_next_serial_number() {
    let mut counter = SerialNo::starting_after(41);
    let f = FrameRaw::encode(b"x".to_vec(), 1004, &mut counter);
    assert_eq!(f.header.serial_no, 42);
    assert_eq!(counter.last(), 42);
    assert_eq!(f.header.header_flag, *b"FT");
}

#[test]
fn header_boundary_43_and_44_bytes() {
    let bytes = frame_bytes(b"hello", 3005, 9);
    assert!(APIProtoHeader::decode(&bytes[..43]).is_none());
    let h = APIProtoHeader::decode(&bytes[..44]).unwrap();
    assert_eq!(h.proto_id, 3005);
    assert_eq!(h.body_len, 5);
    assert!(matches!(FrameRaw::parse(&bytes[..43]), Err(Error::Incomplete)));
    assert!(matches!(FrameRaw::parse(&bytes[..44]), Err(Error::Incomplete)));
    let h_full = APIProtoHeader::decode(&bytes).unwrap();
    assert_eq!(h_full.to_vec(), h.to_vec());
}

#[test]
fn unsupported_body_format_is_proto_error() {
    let mut bytes = frame_bytes(b"abc", 1, 1);
    bytes[6] = 1;
    assert!(matches!(FrameRaw::parse(&bytes), Err(Error::ProtoError(_))));
    assert!(matches!(FrameRaw::parse(&bytes[..44]), Err(Error::ProtoError(_))));
}

#[test]
fn incremental_feed_one_byte_at_a_time() {
    let body: Vec<u8> = b"quote update body".to_vec();
    let bytes = frame_bytes(&body, 3009, 5);
    let mut buf = FrameBuffer::new();
    for (i, b) in bytes.iter().enumerate() {
        assert!(matches!(buf.poll_frame(), Ok(None)), "frame before byte {}", i);
        assert!(matches!(buf.on_read(ReadEvent::Data(vec![*b])), Ok(true)));
    }
    let f = buf.poll_frame().unwrap().unwrap();
    let whole = FrameRaw::parse(&bytes).unwrap();
    assert_eq!(f.header.proto_id, whole.header.proto_id);
    assert_eq!(f.header.serial_no, whole.header.serial_no);
    assert_eq!(f.header.body_sha1, whole.header.body_sha1);
    assert_eq!(f.body, whole.body);
    assert_eq!(buf.len(), 0);
}

#[test]
fn two_frames_in_one_read_come_out_in_order() {
    let mut bytes = frame_bytes(b"first", 3005, 1);
    bytes.extend(frame_bytes(b"second", 3007, 2));
    bytes.extend_from_slice(&[0x46, 0x54, 0x01]);
    let mut buf = FrameBuffer::new();
    assert!(matches!(buf.on_read(ReadEvent::Data(bytes)), Ok(true)));
    let a = buf.poll_frame().unwrap().unwrap();
    assert_eq!(a.body, b"first");
    let b = buf.poll_frame().unwrap().unwrap();
    assert_eq!(b.body, b"second");
    assert!(matches!(buf.poll_frame(), Ok(None)));
    assert_eq!(buf.as_slice(), &[0x46, 0x54, 0x01]);
}

#[test]
fn checksum_mismatch_is_proto_error_and_keeps_bytes() {
    let mut bytes = frame_bytes(b"abc", 1, 1);
    bytes[44] = b'x';
    let mut buf = FrameBuffer::new();
    buf.on_read(ReadEvent::Data(bytes.clone())).unwrap();
    assert!(matches!(buf.poll_frame(), Err(Error::ProtoError(_))));
    assert_eq!(buf.as_slice(), &bytes[..]);
}

#[test]
fn check_digest_compares_with_header() {
    let f = FrameRaw::new(b"abc".to_vec(), 1, 1);
    let f = f.check_digest(&SHA1_ABC).unwrap();
    assert!(matches!(f.check_digest(&SHA1_EMPTY), Err(Error::ProtoError(_))));
    let g = FrameRaw::new(b"abc".to_vec(), 1, 1);
    assert!(g.verify_checksum().is_ok());
}

#[test]
fn clean_close_on_empty_buffer() {
    let mut buf = FrameBuffer::new();
    assert!(matches!(buf.poll_frame(), Ok(None)));
    assert!(matches!(buf.on_read(ReadEvent::Data(Vec::new())), Ok(false)));
}

#[test]
fn truncated_close_is_connection_error() {
    let mut buf = FrameBuffer::new();
    buf.on_read(ReadEvent::Data(vec![0x46])).unwrap();
    assert!(matches!(
        buf.on_read(ReadEvent::Data(Vec::new())),
        Err(Error::ConnectionError(_))
    ));
    assert_eq!(buf.len(), 1);
}

#[test]
fn timeout_and_failed_read() {
    let mut buf = FrameBuffer::new();
    assert!(matches!(buf.on_read(ReadEvent::TimedOut), Err(Error::Timeout(_))));
    match buf.on_read(ReadEvent::Failed("broken pipe".to_string())) {
        Err(Error::ConnectionError(m)) => assert_eq!(m, "broken pipe"),
        other => panic!("unexpected {:?}", other),
    }
}

#[test]
fn handshake_closed_after_partial_response() {
    // The request: login handshake, empty body.
    let mut counter = SerialNo::new();
    let req = FrameRaw::encode(Vec::new(), 1001, &mut counter);
    assert_eq!(req.to_bytes().len(), 44);
    assert_eq!(req.header.serial_no, 1);
    // The server wrote 10 bytes of its response, then closed.
    let response = frame_bytes(b"s2c", 1001, 1);
    let mut buf = FrameBuffer::new();
    buf.on_read(ReadEvent::Data(response[..10].to_vec())).unwrap();
    assert!(matches!(buf.poll_frame(), Ok(None)));
    assert!(matches!(
        buf.on_read(ReadEvent::Data(Vec::new())),
        Err(Error::ConnectionError(_))
    ));
}

#[test]
fn handshake_closed_before_any_response() {
    let mut counter = SerialNo::new();
    let _req = FrameRaw::encode(Vec::new(), 1001, &mut counter);
    let mut buf = FrameBuffer::new();
    assert!(matches!(buf.poll_frame(), Ok(None)));
    assert!(matches!(buf.on_read(ReadEvent::Data(Vec::new())), Ok(false)));
}

#[test]
fn unknown_push_id_is_ignored() {
    let f = FrameRaw::parse(&frame_bytes(b"abc", 3999, 1)).unwrap();
    assert!(classify_push(f).is_none());
    let f = FrameRaw::parse(&frame_bytes(b"abc", 1004, 1)).unwrap();
    assert!(classify_push(f).is_none());
}

#[test]
fn known_push_ids_are_classified() {
    let q = classify_push(FrameRaw::new(b"q".to_vec(), 3005, 1));
    assert!(matches!(q, Some(UpdateResponse::BasicQot(ref b)) if b == b"q"));
    let k = classify_push(FrameRaw::new(b"k".to_vec(), 3007, 1));
    assert!(matches!(k, Some(UpdateResponse::KL(ref b)) if b == b"k"));
    let t = classify_push(FrameRaw::new(b"t".to_vec(), 3009, 1));
    assert!(matches!(t, Some(UpdateResponse::RT(ref b)) if b == b"t"));
}

#[test]
fn serial_numbers_are_distinct_and_gapless() {
    let mut counter = SerialNo::starting_after(100);
    let got = serial_nos(&mut counter, 50);
    let want: Vec<u32> = (101..=150).collect();
    assert_eq!(got, want);
    assert_eq!(counter.last(), 150);
    assert_eq!(serial_no(&mut counter), 151);
}

#[test]
fn serial_numbers_start_at_one() {
    let mut counter = SerialNo::new();
    assert_eq!(serial_no(&mut counter), 1);
    assert_eq!(serial_no(&mut counter), 2);
}

#[test]
fn serial_numbers_up_to_the_largest() {
    let mut counter = SerialNo::starting_after(u32::MAX - 2);
    assert_eq!(serial_nos(&mut counter, 2), vec![u32::MAX - 1, u32::MAX]);
}

use bytes::{BufMut, Bytes, BytesMut};
use sentinel::error::ProtocolError;
use sentinel::frame::{Frame, MAX_FRAME_SIZE, SUPPORTED_VERSION};

#[test]
fn frame_test_encode_decode_roundtrip() {
    let original = Frame::new(SUPPORTED_VERSION, 0xAB, Bytes::from("sentinel")).unwrap();
    let mut buffer = BytesMut::new();
    original.encode(&mut buffer).unwrap();
    let decoded = Frame::decode(&mut buffer).unwrap().unwrap();
    assert_eq!(original, decoded);
}

#[test]
fn test_encode_decode_roundtrip() {
    let original = Frame::new(SUPPORTED_VERSION, 0xAB, Bytes::from("hello world")).unwrap();

    let mut buffer = BytesMut::new();
    original.encode(&mut buffer).unwrap();

    let decoded = Frame::decode(&mut buffer).unwrap().unwrap();
    assert_eq!(original, decoded);
}

#[test]
fn test_decode_invalid_magic() {
    let mut buffer = BytesMut::from(&b"BAD!"[..]);
    buffer.put_u8(SUPPORTED_VERSION);
    buffer.put_u8(0);
    buffer.put_u32(0);
    assert!(matches!(Frame::decode(&mut buffer), Err(ProtocolError::InvalidMagic)));
}

#[test]
fn test_integrity_failure() {
    let original = Frame::new(SUPPORTED_VERSION, 0x00, Bytes::from("data")).unwrap();
    let mut buffer = BytesMut::new();
    original.encode(&mut buffer).unwrap();
    let len = buffer.len();
    buffer[len - 1] ^= 0xFF;
    assert!(matches!(Frame::decode(&mut buffer), Err(ProtocolError::IntegrityCheckFailed)));
}

#[test]
fn encoded_bytes_are_exact() {
    let frame = Frame::new(SUPPORTED_VERSION, 0x05, Bytes::from("hi")).unwrap();
    let mut buffer = BytesMut::new();
    frame.encode(&mut buffer).unwrap();
    let crc = crc32fast::hash(&[1, 0x05, b'h', b'i']);
    let mut expected = vec![b'S', b'N', b'T', b'L', 1, 0x05, 0, 0, 0, 2, b'h', b'i'];
    expected.extend_from_slice(&crc.to_be_bytes());
    assert_eq!(&buffer[..], &expected[..]);
    assert_eq!(buffer.len(), 16);
}

#[test]
fn checksum_is_crc32_of_version_flags_payload() {
    let frame = Frame::new(SUPPORTED_VERSION, 0, Bytes::from("123456789")).unwrap();
    let mut buffer = BytesMut::new();
    frame.encode(&mut buffer).unwrap();
    let n = buffer.len();
    let stored = u32::from_be_bytes([buffer[n - 4], buffer[n - 3], buffer[n - 2], buffer[n - 1]]);
    let mut covered = vec![1u8, 0u8];
    covered.extend_from_slice(b"123456789");
    assert_eq!(stored, crc32fast::hash(&covered));
    // the well-known check value of CRC-32 (IEEE) on "123456789" alone
    assert_eq!(crc32fast::hash(b"123456789"), 0xCBF4_3926);
}

#[test]
fn new_rejects_wrong_version() {
    assert!(matches!(
        Frame::new(2, 0, Bytes::from("x")),
        Err(ProtocolError::UnsupportedVersion(2))
    ));
    assert!(matches!(
        Frame::new(0, 0, Bytes::new()),
        Err(ProtocolError::UnsupportedVersion(0))
    ));
}

#[test]
fn new_rejects_oversize_payload() {
    let big = vec![0u8; MAX_FRAME_SIZE + 1];
    assert!(matches!(
        Frame::new(SUPPORTED_VERSION, 0, Bytes::from(big)),
        Err(ProtocolError::FrameTooLarge)
    ));
    let fits = vec![7u8; MAX_FRAME_SIZE];
    assert!(Frame::new(SUPPORTED_VERSION, 0, Bytes::from(fits)).is_ok());
}

#[test]
fn wrong_version_is_refused_before_oversize() {
    let big = vec![0u8; MAX_FRAME_SIZE + 1];
    assert!(matches!(
        Frame::new(9, 0, Bytes::from(big)),
        Err(ProtocolError::UnsupportedVersion(9))
    ));
}

#[test]
fn getters_return_the_parts() {
    let frame = Frame::new(SUPPORTED_VERSION, 0x42, Bytes::from("payload")).unwrap();
    assert_eq!(frame.version(), 1);
    assert_eq!(frame.flags(), 0x42);
    assert_eq!(&frame.payload()[..], b"payload");
    let copy = frame.clone();
    assert_eq!(copy, frame);
}

#[test]
fn empty_payload_is_allowed() {
    let frame = Frame::new(SUPPORTED_VERSION, 0x01, Bytes::new()).unwrap();
    let mut buffer = BytesMut::new();
    frame.encode(&mut buffer).unwrap();
    assert_eq!(buffer.len(), 14);
    let decoded = Frame::decode(&mut buffer).unwrap().unwrap();
    assert_eq!(decoded, frame);
    assert!(decoded.payload().is_empty());
    assert!(buffer.is_empty());
}

#[test]
fn header_declaring_twenty_mib_is_too_large() {
    let mut buffer = BytesMut::new();
    buffer.put_slice(b"SNTL");
    buffer.put_u8(SUPPORTED_VERSION);
    buffer.put_u8(0);
    buffer.put_u32(20 * 1024 * 1024);
    assert!(matches!(Frame::decode(&mut buffer), Err(ProtocolError::FrameTooLarge)));
    // nothing was taken, and no payload byte was needed to decide
    assert_eq!(buffer.len(), 10);
}

#[test]
fn declared_length_just_over_the_limit_is_too_large() {
    let mut buffer = BytesMut::new();
    buffer.put_slice(b"SNTL");
    buffer.put_u8(SUPPORTED_VERSION);
    buffer.put_u8(0);
    buffer.put_u32(MAX_FRAME_SIZE as u32 + 1);
    assert!(matches!(Frame::decode(&mut buffer), Err(ProtocolError::FrameTooLarge)));
    let mut at_limit = BytesMut::new();
    at_limit.put_slice(b"SNTL");
    at_limit.put_u8(SUPPORTED_VERSION);
    at_limit.put_u8(0);
    at_limit.put_u32(MAX_FRAME_SIZE as u32);
    assert!(matches!(Frame::decode(&mut at_limit), Ok(None)));
}

#[test]
fn byte_by_byte_feeding_yields_one_frame_at_the_last_byte() {
    let frame = Frame::new(SUPPORTED_VERSION, 0x11, Bytes::from("stream me")).unwrap();
    let mut wire = BytesMut::new();
    frame.encode(&mut wire).unwrap();
    let total = wire.len();
    let mut buffer = BytesMut::new();
    for (i, byte) in wire.iter().enumerate() {
        buffer.put_u8(*byte);
        let out = Frame::decode(&mut buffer).unwrap();
        if i + 1 < total {
            assert!(out.is_none());
            assert_eq!(buffer.len(), i + 1);
        } else {
            assert_eq!(out.unwrap(), frame);
            assert!(buffer.is_empty());
        }
    }
    assert!(Frame::decode(&mut buffer).unwrap().is_none());
}

#[test]
fn decode_leaves_what_follows_the_frame() {
    let first = Frame::new(SUPPORTED_VERSION, 1, Bytes::from("one")).unwrap();
    let second = Frame::new(SUPPORTED_VERSION, 2, Bytes::from("two!")).unwrap();
    let mut buffer = BytesMut::new();
    first.encode(&mut buffer).unwrap();
    second.encode(&mut buffer).unwrap();
    buffer.put_u8(b'S');
    assert_eq!(Frame::decode(&mut buffer).unwrap().unwrap(), first);
    assert_eq!(buffer.len(), 14 + 4 + 1);
    assert_eq!(Frame::decode(&mut buffer).unwrap().unwrap(), second);
    assert_eq!(&buffer[..], b"S");
    assert!(Frame::decode(&mut buffer).unwrap().is_none());
    assert_eq!(&buffer[..], b"S");
}

#[test]
fn flipping_any_payload_or_trailer_byte_fails_integrity() {
    let frame = Frame::new(SUPPORTED_VERSION, 0x07, Bytes::from("integrity")).unwrap();
    let mut wire = BytesMut::new();
    frame.encode(&mut wire).unwrap();
    for i in 10..wire.len() {
        let mut damaged = BytesMut::from(&wire[..]);
        damaged[i] ^= 0x01;
        assert!(matches!(
            Frame::decode(&mut damaged),
            Err(ProtocolError::IntegrityCheckFailed)
        ));
        assert_eq!(damaged.len(), wire.len());
    }
}

#[test]
fn flipped_flags_fail_integrity() {
    let frame = Frame::new(SUPPORTED_VERSION, 0x07, Bytes::from("x")).unwrap();
    let mut wire = BytesMut::new();
    frame.encode(&mut wire).unwrap();
    wire[5] ^= 0x80;
    assert!(matches!(Frame::decode(&mut wire), Err(ProtocolError::IntegrityCheckFailed)));
}

#[test]
fn unsupported_version_with_good_checksum_is_reported() {
    let payload = b"abc";
    let mut wire = BytesMut::new();
    wire.put_slice(b"SNTL");
    wire.put_u8(2);
    wire.put_u8(0);
    wire.put_u32(payload.len() as u32);
    wire.put_slice(payload);
    wire.put_u32(crc32fast::hash(&[2, 0, b'a', b'b', b'c']));
    assert!(matches!(
        Frame::decode(&mut wire),
        Err(ProtocolError::UnsupportedVersion(2))
    ));
    assert_eq!(wire.len(), 17);
}

#[test]
fn short_input_needs_more_data() {
    let mut buffer = BytesMut::new();
    assert!(matches!(Frame::decode(&mut buffer), Ok(None)));
    buffer.put_slice(b"SNTL\x01");
    assert!(matches!(Frame::decode(&mut buffer), Ok(None)));
    assert_eq!(&buffer[..], b"SNTL\x01");
    // a wrong magic is not judged before the header is whole
    let mut short_bad = BytesMut::from(&b"BAD!\x01\x00\x00"[..]);
    assert!(matches!(Frame::decode(&mut short_bad), Ok(None)));
}

#[test]
fn every_change_to_a_payload_or_trailer_byte_fails_integrity() {
    for payload in [&b""[..], &b"a"[..], &b"sentinel"[..], &[0u8; 40][..], &[0xFFu8; 17][..]] {
        let frame = Frame::new(SUPPORTED_VERSION, 0x21, Bytes::copy_from_slice(payload)).unwrap();
        let mut wire = BytesMut::new();
        frame.encode(&mut wire).unwrap();
        assert_eq!(wire.len(), 14 + payload.len());
        for i in 10..wire.len() {
            for mask in 1..=255u8 {
                let mut damaged = BytesMut::from(&wire[..]);
                damaged[i] ^= mask;
                assert!(matches!(
                    Frame::decode(&mut damaged),
                    Err(ProtocolError::IntegrityCheckFailed)
                ));
                assert_eq!(damaged.len(), wire.len());
            }
        }
    }
}

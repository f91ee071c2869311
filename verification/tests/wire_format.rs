use fsociety::wire::{
    be32_encode, be64_encode, close_payload, file_chunk_payload, file_complete_payload,
    file_start_payload, frame_header, frame_length, handshake_key, parse_payload, text_payload,
    username_payload, write_step, PeerMessage, WriteOutcome, WriteStep,
};

#[test]
fn text_payload_is_tag_then_utf8() {
    assert_eq!(text_payload("hi"), vec![0x01, b'h', b'i']);
    assert_eq!(text_payload("é"), vec![0x01, 0xC3, 0xA9]);
}

#[test]
fn username_payload_is_tag_then_utf8() {
    assert_eq!(username_payload("bob"), vec![0x06, b'b', b'o', b'b']);
}

#[test]
fn file_start_payload_layout() {
    let p = file_start_payload(0x0102030405060708, "a.txt");
    assert_eq!(
        p,
        vec![0x02, 1, 2, 3, 4, 5, 6, 7, 8, b'a', b'.', b't', b'x', b't']
    );
}

#[test]
fn chunk_payload_layout() {
    let p = file_chunk_payload(258, &[9, 8, 7]);
    assert_eq!(p, vec![0x03, 0, 0, 1, 2, 9, 8, 7]);
}

#[test]
fn single_byte_payloads() {
    assert_eq!(file_complete_payload(), vec![0x04]);
    assert_eq!(close_payload(), vec![0x05]);
}

#[test]
fn big_endian_integers() {
    assert_eq!(be32_encode(0xDEADBEEF), [0xDE, 0xAD, 0xBE, 0xEF]);
    assert_eq!(be64_encode(1), [0, 0, 0, 0, 0, 0, 0, 1]);
}

#[test]
fn every_message_survives_encoding() {
    match parse_payload(&text_payload("hello, world")) {
        Some(PeerMessage::Text(t)) => assert_eq!(t, "hello, world"),
        _ => panic!("text message lost"),
    }
    match parse_payload(&username_payload("Zoë")) {
        Some(PeerMessage::Username(n)) => assert_eq!(n, "Zoë"),
        _ => panic!("user name lost"),
    }
    match parse_payload(&file_start_payload(262144, "report.pdf")) {
        Some(PeerMessage::FileStart { size, filename }) => {
            assert_eq!(size, 262144);
            assert_eq!(filename, "report.pdf");
        }
        _ => panic!("file announcement lost"),
    }
    match parse_payload(&file_chunk_payload(7, &[1, 2, 3])) {
        Some(PeerMessage::FileChunk { index, data }) => {
            assert_eq!(index, 7);
            assert_eq!(data, vec![1, 2, 3]);
        }
        _ => panic!("chunk lost"),
    }
    assert!(matches!(parse_payload(&file_complete_payload()), Some(PeerMessage::FileComplete)));
    assert!(matches!(parse_payload(&close_payload()), Some(PeerMessage::Close)));
}

#[test]
fn malformed_payloads_carry_nothing() {
    assert!(parse_payload(&[]).is_none());
    assert!(parse_payload(&[0x07, 1, 2]).is_none());
    assert!(parse_payload(&[0x01, 0xFF, 0xFE]).is_none());
    assert!(parse_payload(&[0x02, 0, 0, 0, 0, 0, 0, 1]).is_none());
    assert!(parse_payload(&[0x03, 0, 0, 0]).is_none());
}

#[test]
fn completion_and_close_ignore_trailing_bytes() {
    assert!(matches!(parse_payload(&[0x04, 9, 9]), Some(PeerMessage::FileComplete)));
    assert!(matches!(parse_payload(&[0x05, 1]), Some(PeerMessage::Close)));
}

#[test]
fn chunk_with_empty_data() {
    match parse_payload(&[0x03, 0, 0, 0, 0]) {
        Some(PeerMessage::FileChunk { index, data }) => {
            assert_eq!(index, 0);
            assert!(data.is_empty());
        }
        _ => panic!("empty chunk lost"),
    }
}

#[test]
fn frame_header_roundtrip() {
    assert_eq!(frame_header(5), [0, 0, 0, 5]);
    assert_eq!(frame_header(70000), [0, 1, 0x11, 0x70]);
    assert_eq!(frame_length(frame_header(123456)), 123456);
    assert_eq!(frame_length([0xFF, 0xFF, 0xFF, 0xFF]), u32::MAX as usize);
}

#[test]
fn handshake_frame_must_be_a_key() {
    let key = [7u8; 32];
    assert_eq!(handshake_key(&key), Some(key));
    assert_eq!(handshake_key(&[1u8; 31]), None);
    assert_eq!(handshake_key(&[1u8; 33]), None);
}

#[test]
fn write_retry_decisions() {
    assert!(write_step(10, WriteOutcome::Written(4)) == WriteStep::Advance { remaining: 6 });
    assert!(write_step(4, WriteOutcome::Written(4)) == WriteStep::Advance { remaining: 0 });
    assert!(write_step(4, WriteOutcome::Written(0)) == WriteStep::WriteZero);
    assert!(write_step(4, WriteOutcome::WouldBlock) == WriteStep::Retry);
    assert!(write_step(4, WriteOutcome::Failed) == WriteStep::Fail);
}

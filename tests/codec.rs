use project_toot::codec::{decode_request, decode_response, encode_request, encode_response, CodecError};
use project_toot::types::{IncomingMessage, MessageWithId, OutcomingMessage, SendMessageArgs};

fn sample_args() -> SendMessageArgs {
    SendMessageArgs {
        sender_x: [1u8; 32],
        sender_p: 0,
        receiver_x: [2u8; 32],
        receiver_p: 1,
        signature: [3u8; 64],
        timestamp: -5,
        save_timestamp: true,
        data: vec![9, 8, 7],
    }
}

#[test]
fn request_round_trip_send_message() {
    let m = MessageWithId { id: 42, message: IncomingMessage::SendMessage(sample_args()) };
    let bytes = encode_request(&m);
    assert_eq!(bytes.len(), 8 + 1 + 143 + 3);
    assert_eq!(decode_request(&bytes).unwrap(), m);
}

#[test]
fn request_round_trip_list_messages() {
    let m = MessageWithId { id: u64::MAX, message: IncomingMessage::ListMessages };
    let bytes = encode_request(&m);
    assert_eq!(bytes, vec![0xff, 0xff, 0xff, 0xff, 0xff, 0xff, 0xff, 0xff, 1]);
    assert_eq!(decode_request(&bytes).unwrap(), m);
}

#[test]
fn request_layout_matches_borsh() {
    let a = sample_args();
    let expected = borsh::to_vec(&(
        42u64,
        0u8,
        a.sender_x,
        a.sender_p,
        a.receiver_x,
        a.receiver_p,
        a.signature,
        a.timestamp,
        a.save_timestamp,
        a.data.clone(),
    ))
    .unwrap();
    let m = MessageWithId { id: 42, message: IncomingMessage::SendMessage(a) };
    assert_eq!(encode_request(&m), expected);
}

#[test]
fn response_layout_matches_borsh() {
    let m = MessageWithId { id: 7, message: OutcomingMessage::Error("unsigned data".to_string()) };
    let expected = borsh::to_vec(&(7u64, 1u8, "unsigned data".to_string())).unwrap();
    assert_eq!(encode_response(&m), expected);
    let ok = MessageWithId { id: 7, message: OutcomingMessage::Success };
    assert_eq!(encode_response(&ok), borsh::to_vec(&(7u64, 0u8)).unwrap());
}

#[test]
fn response_round_trip() {
    for m in [
        MessageWithId { id: 1, message: OutcomingMessage::Success },
        MessageWithId { id: 2, message: OutcomingMessage::Error("héllo ✓".to_string()) },
        MessageWithId { id: 3, message: OutcomingMessage::Error(String::new()) },
    ] {
        assert_eq!(decode_response(&encode_response(&m)).unwrap(), m);
    }
}

#[test]
fn decode_rejects_truncated_input() {
    let m = MessageWithId { id: 42, message: IncomingMessage::SendMessage(sample_args()) };
    let bytes = encode_request(&m);
    for n in 0..bytes.len() {
        assert_eq!(decode_request(&bytes[..n]), Err(CodecError::MalformedEnvelope));
    }
}

#[test]
fn decode_rejects_trailing_bytes() {
    let m = MessageWithId { id: 42, message: IncomingMessage::SendMessage(sample_args()) };
    let mut bytes = encode_request(&m);
    bytes.push(0);
    assert_eq!(decode_request(&bytes), Err(CodecError::MalformedEnvelope));
    let mut list = encode_request(&MessageWithId { id: 1, message: IncomingMessage::ListMessages });
    list.push(0);
    assert_eq!(decode_request(&list), Err(CodecError::MalformedEnvelope));
}

#[test]
fn decode_rejects_unknown_tag_and_bad_bool() {
    let m = MessageWithId { id: 42, message: IncomingMessage::SendMessage(sample_args()) };
    let bytes = encode_request(&m);
    let mut tag = bytes.clone();
    tag[8] = 2;
    assert_eq!(decode_request(&tag), Err(CodecError::MalformedEnvelope));
    let mut flag = bytes.clone();
    flag[9 + 138] = 2;
    assert_eq!(decode_request(&flag), Err(CodecError::MalformedEnvelope));
}

#[test]
fn decode_response_rejects_invalid_utf8() {
    let mut bytes = vec![0u8; 8];
    bytes.extend_from_slice(&[1, 2, 0, 0, 0, 0xff, 0xfe]);
    assert_eq!(decode_response(&bytes), Err(CodecError::MalformedEnvelope));
}

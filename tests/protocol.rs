use aes::cipher::generic_array::GenericArray;
use aes::cipher::{BlockEncrypt, KeyInit};
use project_toot::chain::{signed_data, ChainStore};
use project_toot::cipher::encrypt_payload;
use project_toot::client::{Client, ClientError};
use project_toot::codec::{decode_request, decode_response, encode_request};
use project_toot::identity::PublicKey;
use project_toot::server::{
    prepare_with_entry,
    commit, handle_send_message, handle_send_message_at, is_fresh, prepare_accept, Rejection,
    EPOCH_MS, FRESHNESS_WINDOW_MS,
};
use project_toot::session::{dispatch, handle_frame, CloseReason, Dispatch, Frame, SessionAction};
use project_toot::types::{IncomingMessage, MessageWithId, OutcomingMessage, SendMessageArgs};

const NOW: i64 = 1_700_000_000_000;

fn alice() -> Client {
    let mut c = Client::with_secret_key([1u8; 32]).unwrap();
    c.connect().unwrap();
    c
}

fn bob_key() -> PublicKey {
    Client::with_secret_key([2u8; 32]).unwrap().public_key()
}

fn args_of(bytes: &[u8]) -> (u64, SendMessageArgs) {
    match decode_request(bytes).unwrap() {
        MessageWithId { id, message: IncomingMessage::SendMessage(a) } => (id, a),
        _ => panic!("not a SendMessage request"),
    }
}

fn answer(store: &mut ChainStore, bytes: Vec<u8>, now: i64) -> MessageWithId<OutcomingMessage> {
    match handle_frame(store, Frame::Binary(bytes), now) {
        SessionAction::Reply(r) => decode_response(&r).unwrap(),
        other => panic!("no reply: {:?}", other),
    }
}

fn error(id: u64, text: &str) -> MessageWithId<OutcomingMessage> {
    MessageWithId { id, message: OutcomingMessage::Error(text.to_string()) }
}

#[test]
fn end_to_end_hello() {
    let mut a = alice();
    let mut store = ChainStore::new();
    let first = a.send_message_at(&bob_key(), true, &b"hello".to_vec(), NOW).unwrap();
    let (id0, args0) = args_of(&first);
    assert_eq!(id0, 0);
    assert_eq!(args0.data.len(), 16);
    let r = answer(&mut store, first, NOW);
    assert_eq!(r, MessageWithId { id: 0, message: OutcomingMessage::Success });
    let key = a.public_key().serialize();
    assert_eq!(store.get_last_signature(&key), Some(args0.signature));
    assert_eq!(store.messages().len(), 1);
    assert_eq!(store.messages()[0].timestamp, NOW);
    assert_eq!(store.messages()[0].data, args0.data);
    assert_eq!(store.messages()[0].receiver_x, bob_key().x);

    a.handle_response(&r);
    let second = a.send_message_at(&bob_key(), false, &b"again".to_vec(), NOW + 5).unwrap();
    let (id1, args1) = args_of(&second);
    assert_eq!(id1, 1);
    let r = answer(&mut store, second, NOW + 10);
    assert_eq!(r, MessageWithId { id: 1, message: OutcomingMessage::Success });
    assert_eq!(store.get_last_signature(&key), Some(args1.signature));
    assert_eq!(store.messages().len(), 2);
    assert_eq!(store.messages()[1].timestamp, EPOCH_MS);
}

#[test]
fn replay_of_accepted_message_is_unsigned() {
    let mut a = alice();
    let mut store = ChainStore::new();
    let mut sent = Vec::new();
    for i in 0..3 {
        let bytes = a.send_message_at(&bob_key(), true, &vec![i as u8; 20], NOW).unwrap();
        sent.push(bytes.clone());
        let r = answer(&mut store, bytes, NOW);
        assert_eq!(r.message, OutcomingMessage::Success);
        a.handle_response(&r);
    }
    let (_, last) = args_of(&sent[2]);
    let key = a.public_key().serialize();
    assert_eq!(store.get_last_signature(&key), Some(last.signature));
    for (i, bytes) in sent.iter().enumerate() {
        let r = answer(&mut store, bytes.clone(), NOW);
        assert_eq!(r, error(i as u64, "unsigned data"));
    }
    assert_eq!(store.get_last_signature(&key), Some(last.signature));
    assert_eq!(store.messages().len(), 3);
}

#[test]
fn second_message_over_zero_anchor_is_refused() {
    let mut store = ChainStore::new();
    let mut a = alice();
    let r = answer(&mut store, a.send_message_at(&bob_key(), true, &vec![1], NOW).unwrap(), NOW);
    assert_eq!(r.message, OutcomingMessage::Success);
    // a fresh client with the same key still signs over the zero anchor
    let mut again = alice();
    let r = answer(&mut store, again.send_message_at(&bob_key(), true, &vec![2], NOW).unwrap(), NOW);
    assert_eq!(r, error(0, "unsigned data"));
    assert_eq!(store.messages().len(), 1);
}

#[test]
fn freshness_window_bounds() {
    assert_eq!(FRESHNESS_WINDOW_MS, 30_000);
    assert!(!is_fresh(NOW - 30_001, NOW));
    assert!(is_fresh(NOW - 30_000, NOW));
    assert!(is_fresh(NOW - 29_999, NOW));
    assert!(is_fresh(NOW + 29_999, NOW));
    assert!(is_fresh(NOW + 30_000, NOW));
    assert!(!is_fresh(NOW + 30_001, NOW));
    assert!(!is_fresh(i64::MIN, i64::MAX));
    assert!(is_fresh(i64::MAX, i64::MAX));
}

#[test]
fn stale_and_future_timestamps_are_refused() {
    for (ts, ok) in [
        (NOW - FRESHNESS_WINDOW_MS - 1, false),
        (NOW - FRESHNESS_WINDOW_MS + 1, true),
        (NOW + FRESHNESS_WINDOW_MS + 1, false),
        (NOW + FRESHNESS_WINDOW_MS - 1, true),
    ] {
        let mut a = alice();
        let mut store = ChainStore::new();
        let (id, args) = args_of(&a.send_message_at(&bob_key(), true, &vec![5], ts).unwrap());
        let r = handle_send_message_at(&mut store, id, &args, NOW);
        if ok {
            assert_eq!(r.message, OutcomingMessage::Success);
            assert_eq!(store.messages().len(), 1);
        } else {
            assert_eq!(r, error(0, "timestamp out of window"));
            assert_eq!(store.messages().len(), 0);
            assert_eq!(store.get_last_signature(&a.public_key().serialize()), None);
        }
    }
}

#[test]
fn concurrent_attempts_on_same_anchor() {
    let mut a = alice();
    let mut store = ChainStore::new();
    // two requests sent before either answer: both signed over the zero anchor
    let (_, a1) = args_of(&a.send_message_at(&bob_key(), true, &vec![1], NOW).unwrap());
    let (_, a2) = args_of(&a.send_message_at(&bob_key(), true, &vec![2], NOW).unwrap());
    let first = prepare_accept(&store, &a1, NOW).unwrap();
    let second = prepare_accept(&store, &a2, NOW).unwrap();
    assert_eq!(commit(&mut store, first), Ok(()));
    assert_eq!(commit(&mut store, second), Err(Rejection::UnsignedData));
    assert_eq!(store.get_last_signature(&a.public_key().serialize()), Some(a1.signature));
    assert_eq!(store.messages().len(), 1);
}

#[test]
fn malformed_sender_parity() {
    let mut a = alice();
    let mut store = ChainStore::new();
    let (id, mut args) = args_of(&a.send_message_at(&bob_key(), true, &vec![1], NOW).unwrap());
    args.sender_p = 2;
    let r = handle_send_message_at(&mut store, id, &args, NOW);
    assert_eq!(r, error(0, "invalid sender parity"));
    assert_eq!(store.messages().len(), 0);
    assert_eq!(store.get_last_signature(&a.public_key().serialize()), None);
}

#[test]
fn malformed_receiver_and_signature() {
    let mut a = alice();
    let mut store = ChainStore::new();
    let (id, args) = args_of(&a.send_message_at(&bob_key(), true, &vec![1], NOW).unwrap());
    let mut bad_receiver = args.clone();
    bad_receiver.receiver_p = 7;
    assert_eq!(
        handle_send_message_at(&mut store, id, &bad_receiver, NOW),
        error(0, "invalid receiver parity")
    );
    let mut bad_x = args.clone();
    bad_x.sender_x = [0xff; 32];
    assert_eq!(handle_send_message_at(&mut store, id, &bad_x, NOW), error(0, "invalid sender parity"));
    let mut bad_sig = args.clone();
    bad_sig.signature = [0xff; 64];
    assert_eq!(handle_send_message_at(&mut store, id, &bad_sig, NOW), error(0, "malformed signature"));
    let mut tampered = args.clone();
    tampered.data[0] ^= 1;
    assert_eq!(handle_send_message_at(&mut store, id, &tampered, NOW), error(0, "unsigned data"));
    assert_eq!(store.messages().len(), 0);
}

#[test]
fn send_at_current_time_is_accepted() {
    let mut a = alice();
    let mut store = ChainStore::new();
    let (id, args) = args_of(&a.send_message(&bob_key(), true, &b"now".to_vec()).unwrap());
    assert_eq!(handle_send_message(&mut store, id, &args).message, OutcomingMessage::Success);
}

#[test]
fn session_frames() {
    let mut store = ChainStore::new();
    assert_eq!(handle_frame(&mut store, Frame::Ping, NOW), SessionAction::Pong);
    assert_eq!(handle_frame(&mut store, Frame::Other, NOW), SessionAction::Ignore);
    assert_eq!(handle_frame(&mut store, Frame::Closed(None), NOW), SessionAction::Close(None));
    let reason = CloseReason { code: 1001, description: Some("going away".to_string()) };
    assert_eq!(
        handle_frame(&mut store, Frame::Closed(Some(reason.clone())), NOW),
        SessionAction::Close(Some(reason))
    );
    assert_eq!(handle_frame(&mut store, Frame::Binary(vec![1, 2, 3]), NOW), SessionAction::Ignore);
    let list = encode_request(&MessageWithId { id: 9, message: IncomingMessage::ListMessages });
    assert_eq!(answer(&mut store, list.clone(), NOW), error(9, "unsupported request"));
    match dispatch(Frame::Binary(list)) {
        Dispatch::Reply(_) => {},
        other => panic!("unexpected {:?}", other),
    }
}

#[test]
fn client_connection_states() {
    let mut c = Client::with_secret_key([3u8; 32]).unwrap();
    assert!(matches!(c.send_message_at(&bob_key(), true, &vec![1], NOW), Err(ClientError::NotConnected)));
    assert!(c.connect().is_ok());
    assert!(matches!(c.connect(), Err(ClientError::AlreadyConnected)));
    c.disconnect();
    assert!(c.connect().is_ok());
}

#[test]
fn rejected_answer_keeps_client_anchor() {
    let mut a = alice();
    let mut store = ChainStore::new();
    let r = answer(&mut store, a.send_message_at(&bob_key(), true, &vec![1], NOW - 60_000).unwrap(), NOW);
    assert_eq!(r, error(0, "timestamp out of window"));
    a.handle_response(&r);
    let r = answer(&mut store, a.send_message_at(&bob_key(), true, &vec![1], NOW).unwrap(), NOW);
    assert_eq!(r.message, OutcomingMessage::Success);
}

#[test]
fn payload_padding_and_encryption() {
    let key = [4u8; 32];
    assert_eq!(encrypt_payload(&key, &b"hello".to_vec()).len(), 16);
    assert_eq!(encrypt_payload(&key, &vec![0u8; 15]).len(), 16);
    assert_eq!(encrypt_payload(&key, &vec![0u8; 16]).len(), 32);
    assert_eq!(encrypt_payload(&key, &Vec::new()).len(), 16);
    let c = encrypt_payload(&key, &vec![0u8; 32]);
    // blocks are encrypted independently under the same key
    assert_eq!(c[0..16], c[16..32]);
    let mut padded = b"hello".to_vec();
    padded.extend_from_slice(&[11u8; 11]);
    assert_ne!(encrypt_payload(&key, &b"hello".to_vec()), padded);
}

#[test]
fn payload_matches_aes_block_cipher() {
    let key = [4u8; 32];
    let mut block = GenericArray::clone_from_slice(&[16u8; 16]);
    aes::Aes256Enc::new(GenericArray::from_slice(&key)).encrypt_block(&mut block);
    assert_eq!(encrypt_payload(&key, &Vec::new()), block.to_vec());
}

#[test]
fn shared_secret_is_symmetric() {
    // both sides encrypt an empty payload the same way only if they derive the same key
    let mut a = alice();
    let mut b = Client::with_secret_key([2u8; 32]).unwrap();
    b.connect().unwrap();
    let a_key = a.public_key();
    let (_, from_a) = args_of(&a.send_message_at(&bob_key(), true, &Vec::new(), NOW).unwrap());
    let (_, from_b) = args_of(&b.send_message_at(&a_key, true, &Vec::new(), NOW).unwrap());
    assert_eq!(from_a.data, from_b.data);
}

#[test]
fn signed_bytes_layout() {
    let d = signed_data(&[7u8; 64], -2, &vec![1, 2]);
    let mut expected = vec![7u8; 64];
    expected.extend_from_slice(&(-2i64).to_le_bytes());
    expected.extend_from_slice(&[1, 2]);
    assert_eq!(d, expected);
}

#[test]
fn send_to_checks_receiver_bytes() {
    let mut c = Client::with_secret_key([3u8; 32]).unwrap();
    let b = bob_key();
    assert!(matches!(c.send_message_to(b.x, 0, true, &vec![1]), Err(ClientError::NotConnected)));
    c.connect().unwrap();
    assert!(matches!(c.send_message_to(b.x, 2, true, &vec![1]), Err(ClientError::InvalidReceiver)));
    assert!(matches!(c.send_message_to([0xff; 32], 0, true, &vec![1]), Err(ClientError::InvalidReceiver)));
    assert_eq!(c.counter(), 0);
    let (x, p) = b.to_x_parity();
    let bytes = c.send_message_to(x, p, true, &b"hello".to_vec()).unwrap();
    let (id, args) = args_of(&bytes);
    assert_eq!(id, 0);
    assert_eq!(args.receiver_x, b.x);
    assert_eq!(args.data.len(), 16);
    assert_eq!(c.counter(), 1);
    let mut store = ChainStore::new();
    assert_eq!(handle_send_message(&mut store, id, &args).message, OutcomingMessage::Success);
}

#[test]
fn prepare_with_looked_up_entry() {
    let mut a = alice();
    let (_, first) = args_of(&a.send_message_at(&bob_key(), true, &vec![1], NOW).unwrap());
    let p = prepare_with_entry(&first, &None, NOW).unwrap();
    assert_eq!(p.key, a.public_key().serialize());
    assert_eq!(p.expected, None);
    assert_eq!(p.signature, first.signature);
    assert_eq!(prepare_with_entry(&first, &Some([9u8; 64]), NOW).err(), Some(Rejection::UnsignedData));
    assert_eq!(prepare_with_entry(&first, &None, NOW + 40_000).err(), Some(Rejection::StaleTimestamp));
}

//! The server's decision for each inbound `SendMessage`: freshness, key and
//! signature checks, verification against the sender's chain anchor, and the
//! all-or-nothing update of chain and log.
use crate::chain::{
    lookup, opt_sig, signed_bytes, signed_data, zero_anchor, ChainStore, MessageRecord,
    RecordModel, StoreModel,
};
use crate::clock::now_millis;
use crate::codec::response_wf;
use crate::crypto::{check_signature, ecdsa_accepts, signature_parses, verify_ecdsa};
use crate::identity::{compressed, key_from_x_parity, KeyModel, PublicKey};
use crate::types::{
    ArgsModel, EnvelopeModel, MessageWithId, OutcomingMessage, ResponseModel, SendMessageArgs,
};
use vstd::prelude::*;
use vstd::utf8::{encode_utf8, is_ascii_chars, is_ascii_chars_encode_utf8};

verus! {

/// How far, in milliseconds, a message's timestamp may lie from the server's clock.
pub const FRESHNESS_WINDOW_MS: i64 = 30_000;

/// The timestamp stored for a message whose sender asked not to keep it.
pub const EPOCH_MS: i64 = 0;

/// Why a request was refused.
#[derive(Debug, Clone, Copy, PartialEq, Eq, Structural)]
pub enum Rejection {
    StaleTimestamp,
    InvalidSenderParity,
    InvalidReceiverParity,
    MalformedSignature,
    UnsignedData,
    Unsupported,
}

/// The text sent back for each refusal.
pub open spec fn reason_text(r: Rejection) -> Seq<char> {
    match r {
        Rejection::StaleTimestamp => "timestamp out of window"@,
        Rejection::InvalidSenderParity => "invalid sender parity"@,
        Rejection::InvalidReceiverParity => "invalid receiver parity"@,
        Rejection::MalformedSignature => "malformed signature"@,
        Rejection::UnsignedData => "unsigned data"@,
        Rejection::Unsupported => "unsupported request"@,
    }
}

/// The text of a refusal.
pub fn reason(r: &Rejection) -> (s: String)
    ensures
        s@ == reason_text(*r),
        encode_utf8(s@).len() <= 64,
{
    let s = match r {
        Rejection::StaleTimestamp => "timestamp out of window".to_owned(),
        Rejection::InvalidSenderParity => "invalid sender parity".to_owned(),
        Rejection::InvalidReceiverParity => "invalid receiver parity".to_owned(),
        Rejection::MalformedSignature => "malformed signature".to_owned(),
        Rejection::UnsignedData => "unsigned data".to_owned(),
        Rejection::Unsupported => "unsupported request".to_owned(),
    };
    proof {
        reveal_strlit("timestamp out of window");
        reveal_strlit("invalid sender parity");
        reveal_strlit("invalid receiver parity");
        reveal_strlit("malformed signature");
        reveal_strlit("unsigned data");
        reveal_strlit("unsupported request");
        assert(is_ascii_chars(s@));
        is_ascii_chars_encode_utf8(s@);
    }
    s
}


/// Whether `timestamp` lies within the window around `now` (bounds included).
pub open spec fn fresh(timestamp: i64, now: i64) -> bool {
    now - FRESHNESS_WINDOW_MS <= timestamp <= now + FRESHNESS_WINDOW_MS
}

/// Checks a timestamp against the server clock.
pub fn is_fresh(timestamp: i64, now: i64) -> (r: bool)
    ensures
        r == fresh(timestamp, now),
{
    let t = timestamp as i128;
    let n = now as i128;
    n - FRESHNESS_WINDOW_MS as i128 <= t && t <= n + FRESHNESS_WINDOW_MS as i128
}

/// The checks that need no store, in order: freshness, sender key, receiver
/// key, signature encoding. On success, the sender's key.
pub open spec fn precheck(a: ArgsModel, now: i64) -> Result<KeyModel, Rejection> {
    if !fresh(a.timestamp, now) {
        Err(Rejection::StaleTimestamp)
    } else if key_from_x_parity(a.sender_x, a.sender_p) is None {
        Err(Rejection::InvalidSenderParity)
    } else if key_from_x_parity(a.receiver_x, a.receiver_p) is None {
        Err(Rejection::InvalidReceiverParity)
    } else if !signature_parses(a.signature) {
        Err(Rejection::MalformedSignature)
    } else {
        Ok(key_from_x_parity(a.sender_x, a.sender_p).unwrap())
    }
}

pub open spec fn key_result(r: Result<PublicKey, Rejection>) -> Result<KeyModel, Rejection> {
    match r {
        Ok(k) => Ok(k@),
        Err(e) => Err(e),
    }
}

/// Runs the checks that need no store.
pub fn check_request(args: &SendMessageArgs, now: i64) -> (r: Result<PublicKey, Rejection>)
    ensures
        key_result(r) == precheck(args@, now),
{
    if !is_fresh(args.timestamp, now) {
        return Err(Rejection::StaleTimestamp);
    }
    let sender = match PublicKey::from_x_parity(args.sender_x, args.sender_p) {
        Ok(k) => k,
        Err(_) => return Err(Rejection::InvalidSenderParity),
    };
    if PublicKey::from_x_parity(args.receiver_x, args.receiver_p).is_err() {
        return Err(Rejection::InvalidReceiverParity);
    }
    if !check_signature(&args.signature) {
        return Err(Rejection::MalformedSignature);
    }
    Ok(sender)
}

/// Whether the signature of `args` is valid for the compressed sender key
/// `key` over the anchor `anchor` (64 zero bytes when there is no entry).
pub open spec fn signed_over(key: Seq<u8>, anchor: Seq<u8>, a: ArgsModel) -> bool {
    ecdsa_accepts(key, signed_bytes(anchor, a.timestamp, a.data), a.signature)
}

/// Verifies the signature of `args` against the chain entry `entry` of the
/// compressed sender key `key`.
pub fn verify_against_anchor(
    args: &SendMessageArgs,
    key: &[u8; 33],
    entry: &Option<[u8; 64]>,
) -> (r: bool)
    ensures
        r == signed_over(
            key@,
            match opt_sig(*entry) {
                Some(s) => s,
                None => zero_anchor(),
            },
            args@,
        ),
{
    let anchor: [u8; 64] = match entry {
        Some(s) => *s,
        None => [0u8; 64],
    };
    assert(anchor@ =~= match opt_sig(*entry) {
        Some(s) => s,
        None => zero_anchor(),
    });
    let data = signed_data(&anchor, args.timestamp, &args.data);
    verify_ecdsa(key, data.as_slice(), &args.signature)
}

/// The record stored for an accepted message.
pub open spec fn record_of(a: ArgsModel) -> RecordModel {
    RecordModel {
        sender_x: a.sender_x,
        sender_p: a.sender_p,
        receiver_x: a.receiver_x,
        receiver_p: a.receiver_p,
        timestamp: if a.save_timestamp { a.timestamp } else { EPOCH_MS },
        data: a.data,
    }
}

/// Builds the record stored for an accepted message.
pub fn message_record(args: &SendMessageArgs) -> (r: MessageRecord)
    ensures
        r@ == record_of(args@),
{
    MessageRecord {
        sender_x: args.sender_x,
        sender_p: args.sender_p,
        receiver_x: args.receiver_x,
        receiver_p: args.receiver_p,
        timestamp: if args.save_timestamp { args.timestamp } else { EPOCH_MS },
        data: args.data.clone(),
    }
}

/// A verified message waiting to be committed: the chain entry to move from
/// `expected` to `signature`, and the record to append.
#[derive(Debug, Clone, PartialEq, Eq)]
pub struct PendingAccept {
    pub key: [u8; 33],
    pub signature: [u8; 64],
    pub expected: Option<[u8; 64]>,
    pub record: MessageRecord,
}

pub struct PendingModel {
    pub key: Seq<u8>,
    pub signature: Seq<u8>,
    pub expected: Option<Seq<u8>>,
    pub record: RecordModel,
}

impl View for PendingAccept {
    type V = PendingModel;

    open spec fn view(&self) -> PendingModel {
        PendingModel {
            key: self.key@,
            signature: self.signature@,
            expected: opt_sig(self.expected),
            record: self.record@,
        }
    }
}

/// Checks a request given the chain entry of its sender (`None`: no entry).
pub open spec fn prepare_from(a: ArgsModel, entry: Option<Seq<u8>>, now: i64) -> Result<
    PendingModel,
    Rejection,
> {
    match precheck(a, now) {
        Err(e) => Err(e),
        Ok(k) => {
            let key = compressed(k);
            let anchor = match entry {
                Some(s) => s,
                None => zero_anchor(),
            };
            if signed_over(key, anchor, a) {
                Ok(
                    PendingModel {
                        key,
                        signature: a.signature,
                        expected: entry,
                        record: record_of(a),
                    },
                )
            } else {
                Err(Rejection::UnsignedData)
            }
        },
    }
}

/// Checks a request against the store as it stands, without changing it.
pub open spec fn prepare_spec(s: StoreModel, a: ArgsModel, now: i64) -> Result<
    PendingModel,
    Rejection,
> {
    match precheck(a, now) {
        Err(e) => Err(e),
        Ok(k) => prepare_from(a, lookup(s.chain, compressed(k)), now),
    }
}

pub open spec fn pending_result(r: Result<PendingAccept, Rejection>) -> Result<
    PendingModel,
    Rejection,
> {
    match r {
        Ok(p) => Ok(p@),
        Err(e) => Err(e),
    }
}

/// Commits a verified message: the chain entry moves only if it still holds
/// the anchor the message was verified against, and then the record is
/// appended; otherwise nothing changes and the message counts as unsigned.
pub open spec fn commit_spec(s: StoreModel, p: PendingModel) -> (Result<(), Rejection>, StoreModel) {
    if lookup(s.chain, p.key) == p.expected {
        (Ok(()), StoreModel { chain: s.chain.insert(p.key, p.signature), log: s.log.push(p.record) })
    } else {
        (Err(Rejection::UnsignedData), s)
    }
}

/// The result of a `SendMessage` request and the store after it.
pub open spec fn send_outcome(s: StoreModel, a: ArgsModel, now: i64) -> (
    Result<(), Rejection>,
    StoreModel,
) {
    match prepare_spec(s, a, now) {
        Err(e) => (Err(e), s),
        Ok(p) => commit_spec(s, p),
    }
}

/// Runs every check of a `SendMessage` request, given the chain entry that
/// the store holds for its sender's compressed key (see `check_request`).
pub fn prepare_with_entry(args: &SendMessageArgs, entry: &Option<[u8; 64]>, now: i64) -> (r:
    Result<PendingAccept, Rejection>)
    ensures
        pending_result(r) == prepare_from(args@, opt_sig(*entry), now),
{
    let sender = match check_request(args, now) {
        Ok(k) => k,
        Err(e) => return Err(e),
    };
    let key = sender.serialize();
    if !verify_against_anchor(args, &key, entry) {
        return Err(Rejection::UnsignedData);
    }
    Ok(PendingAccept { key, signature: args.signature, expected: *entry, record: message_record(args) })
}

/// Runs every check of a `SendMessage` request against the store.
pub fn prepare_accept(store: &ChainStore, args: &SendMessageArgs, now: i64) -> (r: Result<
    PendingAccept,
    Rejection,
>)
    requires
        store.wf(),
    ensures
        pending_result(r) == prepare_spec(store@, args@, now),
{
    let sender = match check_request(args, now) {
        Ok(k) => k,
        Err(e) => return Err(e),
    };
    let entry = store.get_last_signature(&sender.serialize());
    prepare_with_entry(args, &entry, now)
}

/// Commits a verified message to the store.
pub fn commit(store: &mut ChainStore, p: PendingAccept) -> (r: Result<(), Rejection>)
    requires
        old(store).wf(),
    ensures
        final(store).wf(),
        (r, final(store)@) == commit_spec(old(store)@, p@),
{
    if store.upsert_last_signature(&p.key, &p.signature, &p.expected) {
        store.append_message(p.record);
        Ok(())
    } else {
        Err(Rejection::UnsignedData)
    }
}

/// The response to a request with correlation number `id`.
pub open spec fn reply_model(id: u64, r: Result<(), Rejection>) -> EnvelopeModel<ResponseModel> {
    EnvelopeModel {
        id,
        message: match r {
            Ok(()) => ResponseModel::Success,
            Err(e) => ResponseModel::Error(reason_text(e)),
        },
    }
}

/// Builds the response to a request with correlation number `id`.
pub fn reply(id: u64, r: &Result<(), Rejection>) -> (m: MessageWithId<OutcomingMessage>)
    ensures
        m@ == reply_model(id, *r),
        response_wf(m@),
{
    match r {
        Ok(()) => MessageWithId { id, message: OutcomingMessage::Success },
        Err(e) => MessageWithId { id, message: OutcomingMessage::Error(reason(e)) },
    }
}

/// Handles a `SendMessage` request at server time `now`: verifies it, updates
/// chain and log on success, and answers with the request's `id`.
pub fn handle_send_message_at(
    store: &mut ChainStore,
    id: u64,
    args: &SendMessageArgs,
    now: i64,
) -> (m: MessageWithId<OutcomingMessage>)
    requires
        old(store).wf(),
    ensures
        final(store).wf(),
        final(store)@ == send_outcome(old(store)@, args@, now).1,
        m@ == reply_model(id, send_outcome(old(store)@, args@, now).0),
        response_wf(m@),
{
    let r = match prepare_accept(store, args, now) {
        Ok(p) => commit(store, p),
        Err(e) => Err(e),
    };
    reply(id, &r)
}

/// Handles a `SendMessage` request at the current time.
pub fn handle_send_message(store: &mut ChainStore, id: u64, args: &SendMessageArgs) -> (m:
    MessageWithId<OutcomingMessage>)
    requires
        old(store).wf(),
    ensures
        final(store).wf(),
        exists|now: i64|
            final(store)@ == send_outcome(old(store)@, args@, now).1 && m@ == reply_model(
                id,
                send_outcome(old(store)@, args@, now).0,
            ),
{
    let now = now_millis();
    handle_send_message_at(store, id, args, now)
}

} // verus!

//! Binary envelope format, little-endian and tag-then-payload:
//!
//! ```text
//! envelope  := id:u64 tag:u8 payload
//! request   := 0 send_args | 1                       (SendMessage | ListMessages)
//! response  := 0 | 1 len:u32 utf8-bytes              (Success | Error)
//! send_args := sender_x:[32] sender_p:u8 receiver_x:[32] receiver_p:u8
//!              signature:[64] timestamp:i64 save:u8(0|1) len:u32 data
//! ```
use crate::types::{
    ArgsModel, EnvelopeModel, IncomingMessage, MessageWithId, OutcomingMessage, RequestModel,
    ResponseModel, SendMessageArgs,
};
use vstd::bytes::*;
use vstd::prelude::*;
use vstd::utf8::*;

verus! {

/// Why a byte string is not an envelope.
#[derive(Debug, Clone, Copy, PartialEq, Eq)]
pub enum CodecError {
    MalformedEnvelope,
}

/// Length of the fixed-width part of the `SendMessage` arguments.
pub const ARGS_FIXED_LEN: usize = 143;

pub open spec fn bool_byte(b: bool) -> u8 {
    if b { 1 } else { 0 }
}

pub open spec fn args_wf(a: ArgsModel) -> bool {
    &&& a.sender_x.len() == 32
    &&& a.receiver_x.len() == 32
    &&& a.signature.len() == 64
    &&& a.data.len() <= u32::MAX
}

pub open spec fn request_wf(e: EnvelopeModel<RequestModel>) -> bool {
    match e.message {
        RequestModel::SendMessage(a) => args_wf(a),
        RequestModel::ListMessages => true,
    }
}

pub open spec fn response_wf(e: EnvelopeModel<ResponseModel>) -> bool {
    match e.message {
        ResponseModel::Success => true,
        ResponseModel::Error(s) => encode_utf8(s).len() <= u32::MAX,
    }
}

pub open spec fn encode_args(a: ArgsModel) -> Seq<u8> {
    a.sender_x + seq![a.sender_p] + a.receiver_x + seq![a.receiver_p] + a.signature
        + spec_u64_to_le_bytes(a.timestamp as u64) + seq![bool_byte(a.save_timestamp)]
        + spec_u32_to_le_bytes(a.data.len() as u32) + a.data
}

pub open spec fn encode_request_spec(e: EnvelopeModel<RequestModel>) -> Seq<u8> {
    spec_u64_to_le_bytes(e.id) + match e.message {
        RequestModel::SendMessage(a) => seq![0u8] + encode_args(a),
        RequestModel::ListMessages => seq![1u8],
    }
}

pub open spec fn encode_response_spec(e: EnvelopeModel<ResponseModel>) -> Seq<u8> {
    spec_u64_to_le_bytes(e.id) + match e.message {
        ResponseModel::Success => seq![0u8],
        ResponseModel::Error(s) => seq![1u8] + spec_u32_to_le_bytes(
            encode_utf8(s).len() as u32,
        ) + encode_utf8(s),
    }
}

pub open spec fn decode_args(r: Seq<u8>) -> Option<ArgsModel> {
    if r.len() < ARGS_FIXED_LEN || r[138] > 1 {
        None
    } else if r.len() != ARGS_FIXED_LEN + spec_u32_from_le_bytes(r.subrange(139, 143)) {
        None
    } else {
        Some(
            ArgsModel {
                sender_x: r.subrange(0, 32),
                sender_p: r[32],
                receiver_x: r.subrange(33, 65),
                receiver_p: r[65],
                signature: r.subrange(66, 130),
                timestamp: spec_u64_from_le_bytes(r.subrange(130, 138)) as i64,
                save_timestamp: r[138] == 1,
                data: r.subrange(143, r.len() as int),
            },
        )
    }
}

pub open spec fn decode_request_spec(b: Seq<u8>) -> Option<EnvelopeModel<RequestModel>> {
    if b.len() < 9 {
        None
    } else if b[8] == 0 {
        match decode_args(b.subrange(9, b.len() as int)) {
            Some(a) => Some(
                EnvelopeModel {
                    id: spec_u64_from_le_bytes(b.subrange(0, 8)),
                    message: RequestModel::SendMessage(a),
                },
            ),
            None => None,
        }
    } else if b[8] == 1 && b.len() == 9 {
        Some(
            EnvelopeModel {
                id: spec_u64_from_le_bytes(b.subrange(0, 8)),
                message: RequestModel::ListMessages,
            },
        )
    } else {
        None
    }
}

pub open spec fn decode_response_spec(b: Seq<u8>) -> Option<EnvelopeModel<ResponseModel>> {
    let id = spec_u64_from_le_bytes(b.subrange(0, 8));
    if b.len() < 9 {
        None
    } else if b[8] == 0 && b.len() == 9 {
        Some(EnvelopeModel { id, message: ResponseModel::Success })
    } else if b[8] == 1 && b.len() >= 13 && b.len() == 13 + spec_u32_from_le_bytes(
        b.subrange(9, 13),
    ) && valid_utf8(b.subrange(13, b.len() as int)) {
        Some(
            EnvelopeModel {
                id,
                message: ResponseModel::Error(decode_utf8(b.subrange(13, b.len() as int))),
            },
        )
    } else {
        None
    }
}

/// Copies `N` bytes starting at `off` into an array.
pub(crate) fn read_array<const N: usize>(b: &[u8], off: usize) -> (r: [u8; N])
    requires
        off + N <= b@.len(),
    ensures
        r@ == b@.subrange(off as int, off + N),
{
    let mut r: [u8; N] = [0u8; N];
    let n = b.len();
    let mut i: usize = 0;
    while i < N
        invariant
            n == b@.len(),
            off + N <= b@.len(),
            i <= N,
            r@.len() == N,
            forall|j: int| 0 <= j < i ==> r@[j] == b@[off + j],
        decreases N - i,
    {
        r[i] = b[off + i];
        i = i + 1;
    }
    assert(r@ =~= b@.subrange(off as int, off + N));
    r
}

fn push_u64(out: &mut Vec<u8>, x: u64)
    ensures
        final(out)@ == old(out)@ + spec_u64_to_le_bytes(x),
{
    let v = u64_to_le_bytes(x);
    out.extend_from_slice(v.as_slice());
}

fn push_u32(out: &mut Vec<u8>, x: u32)
    ensures
        final(out)@ == old(out)@ + spec_u32_to_le_bytes(x),
{
    let v = u32_to_le_bytes(x);
    out.extend_from_slice(v.as_slice());
}

fn push_byte(out: &mut Vec<u8>, x: u8)
    ensures
        final(out)@ == old(out)@ + seq![x],
{
    out.push(x);
    assert(final(out)@ =~= old(out)@ + seq![x]);
}

/// Encodes a request envelope.
pub fn encode_request(m: &MessageWithId<IncomingMessage>) -> (r: Vec<u8>)
    requires
        request_wf(m@),
    ensures
        r@ == encode_request_spec(m@),
{
    let mut out: Vec<u8> = Vec::new();
    push_u64(&mut out, m.id);
    match &m.message {
        IncomingMessage::SendMessage(a) => {
            push_byte(&mut out, 0);
            out.extend_from_slice(a.sender_x.as_slice());
            push_byte(&mut out, a.sender_p);
            out.extend_from_slice(a.receiver_x.as_slice());
            push_byte(&mut out, a.receiver_p);
            out.extend_from_slice(a.signature.as_slice());
            push_u64(&mut out, a.timestamp as u64);
            push_byte(&mut out, if a.save_timestamp { 1 } else { 0 });
            push_u32(&mut out, a.data.len() as u32);
            out.extend_from_slice(a.data.as_slice());
            assert(out@ =~= encode_request_spec(m@));
        },
        IncomingMessage::ListMessages => {
            push_byte(&mut out, 1);
            assert(out@ =~= encode_request_spec(m@));
        },
    }
    out
}


/// Copies `b[from..to]` into a fresh vector.
fn copy_range(b: &[u8], from: usize, to: usize) -> (r: Vec<u8>)
    requires
        from <= to <= b@.len(),
    ensures
        r@ == b@.subrange(from as int, to as int),
{
    let mut r: Vec<u8> = Vec::new();
    let mut i: usize = from;
    while i < to
        invariant
            from <= i <= to <= b@.len(),
            r@ == b@.subrange(from as int, i as int),
        decreases to - i,
    {
        r.push(b[i]);
        i = i + 1;
        assert(r@ =~= b@.subrange(from as int, i as int));
    }
    r
}

/// Decodes a request envelope; fails on truncated input, an unknown tag,
/// a boolean byte other than 0 or 1, or trailing bytes.
pub fn decode_request(b: &[u8]) -> (r: Result<MessageWithId<IncomingMessage>, CodecError>)
    ensures
        r is Ok <==> decode_request_spec(b@) is Some,
        r matches Ok(m) ==> decode_request_spec(b@) == Some(m@),
{
    let n = b.len();
    if n < 9 {
        return Err(CodecError::MalformedEnvelope);
    }
    let id = u64_from_le_bytes(&b[0..8]);
    let tag = b[8];
    let ghost r = b@.subrange(9, n as int);
    if tag == 0 {
        if n - 9 < ARGS_FIXED_LEN || b[147] > 1 {
            return Err(CodecError::MalformedEnvelope);
        }
        let len = u32_from_le_bytes(&b[148..152]);
        assert(r.subrange(139, 143) =~= b@.subrange(148, 152));
        if n - 152 != len as usize {
            return Err(CodecError::MalformedEnvelope);
        }
        let args = SendMessageArgs {
            sender_x: read_array::<32>(b, 9),
            sender_p: b[41],
            receiver_x: read_array::<32>(b, 42),
            receiver_p: b[74],
            signature: read_array::<64>(b, 75),
            timestamp: u64_from_le_bytes(&b[139..147]) as i64,
            save_timestamp: b[147] == 1,
            data: copy_range(b, 152, n),
        };
        assert(r.subrange(0, 32) =~= b@.subrange(9, 41));
        assert(r.subrange(33, 65) =~= b@.subrange(42, 74));
        assert(r.subrange(66, 130) =~= b@.subrange(75, 139));
        assert(r.subrange(130, 138) =~= b@.subrange(139, 147));
        assert(r.subrange(143, r.len() as int) =~= b@.subrange(152, n as int));
        Ok(MessageWithId { id, message: IncomingMessage::SendMessage(args) })
    } else if tag == 1 && n == 9 {
        Ok(MessageWithId { id, message: IncomingMessage::ListMessages })
    } else {
        Err(CodecError::MalformedEnvelope)
    }
}

/// Encodes a response envelope.
pub fn encode_response(m: &MessageWithId<OutcomingMessage>) -> (r: Vec<u8>)
    requires
        response_wf(m@),
    ensures
        r@ == encode_response_spec(m@),
{
    let mut out: Vec<u8> = Vec::new();
    push_u64(&mut out, m.id);
    match &m.message {
        OutcomingMessage::Success => {
            push_byte(&mut out, 0);
            assert(out@ =~= encode_response_spec(m@));
        },
        OutcomingMessage::Error(reason) => {
            let bytes = reason.as_str().as_bytes();
            push_byte(&mut out, 1);
            push_u32(&mut out, bytes.len() as u32);
            out.extend_from_slice(bytes);
            assert(out@ =~= encode_response_spec(m@));
        },
    }
    out
}

/// Relies on `String::from_utf8`: it succeeds exactly on valid UTF-8, and
/// the string then holds the text those bytes encode.
#[verifier::external_body]
fn string_from_utf8(b: Vec<u8>) -> (r: Option<String>)
    ensures
        r is Some <==> valid_utf8(b@),
        r matches Some(s) ==> s@ == decode_utf8(b@),
{
    String::from_utf8(b).ok()
}

/// Decodes a response envelope; fails on truncated input, an unknown tag,
/// text that is not UTF-8, or trailing bytes.
pub fn decode_response(b: &[u8]) -> (r: Result<MessageWithId<OutcomingMessage>, CodecError>)
    ensures
        r is Ok <==> decode_response_spec(b@) is Some,
        r matches Ok(m) ==> decode_response_spec(b@) == Some(m@),
{
    let n = b.len();
    if n < 9 {
        return Err(CodecError::MalformedEnvelope);
    }
    let id = u64_from_le_bytes(&b[0..8]);
    let tag = b[8];
    if tag == 0 && n == 9 {
        Ok(MessageWithId { id, message: OutcomingMessage::Success })
    } else if tag == 1 && n >= 13 {
        let len = u32_from_le_bytes(&b[9..13]);
        if n - 13 != len as usize {
            return Err(CodecError::MalformedEnvelope);
        }
        match string_from_utf8(copy_range(b, 13, n)) {
            Some(s) => Ok(MessageWithId { id, message: OutcomingMessage::Error(s) }),
            None => Err(CodecError::MalformedEnvelope),
        }
    } else {
        Err(CodecError::MalformedEnvelope)
    }
}

/// Decoding an encoded request gives back the request.
pub proof fn lemma_request_round_trip(e: EnvelopeModel<RequestModel>)
    requires
        request_wf(e),
    ensures
        decode_request_spec(encode_request_spec(e)) == Some(e),
{
    lemma_auto_spec_u64_to_from_le_bytes();
    lemma_auto_spec_u32_to_from_le_bytes();
    let b = encode_request_spec(e);
    assert(b.subrange(0, 8) =~= spec_u64_to_le_bytes(e.id));
    match e.message {
        RequestModel::SendMessage(a) => {
            let r = encode_args(a);
            assert(b.subrange(9, b.len() as int) =~= r);
            let t = a.timestamp;
            assert((t as u64) as i64 == t) by (bit_vector);
            assert(r.subrange(0, 32) =~= a.sender_x);
            assert(r.subrange(33, 65) =~= a.receiver_x);
            assert(r.subrange(66, 130) =~= a.signature);
            assert(r.subrange(130, 138) =~= spec_u64_to_le_bytes(t as u64));
            assert(r.subrange(139, 143) =~= spec_u32_to_le_bytes(a.data.len() as u32));
            assert(r.subrange(143, r.len() as int) =~= a.data);
            assert(decode_args(r).unwrap() == a);
        },
        RequestModel::ListMessages => {},
    }
}

/// Decoding an encoded response gives back the response.
pub proof fn lemma_response_round_trip(e: EnvelopeModel<ResponseModel>)
    requires
        response_wf(e),
    ensures
        decode_response_spec(encode_response_spec(e)) == Some(e),
{
    broadcast use encode_utf8_valid_utf8, encode_utf8_decode_utf8;

    lemma_auto_spec_u64_to_from_le_bytes();
    lemma_auto_spec_u32_to_from_le_bytes();
    let b = encode_response_spec(e);
    assert(b.subrange(0, 8) =~= spec_u64_to_le_bytes(e.id));
    match e.message {
        ResponseModel::Success => {},
        ResponseModel::Error(s) => {
            let u = encode_utf8(s);
            assert(b.subrange(9, 13) =~= spec_u32_to_le_bytes(u.len() as u32));
            assert(b.subrange(13, b.len() as int) =~= u);
        },
    }
}

} // verus!

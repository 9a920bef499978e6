//! The per-connection session: what to do with each inbound frame.
use crate::chain::ChainStore;
use crate::codec::{decode_request, decode_request_spec, encode_response, encode_response_spec};
use crate::server::{handle_send_message_at, reply, reply_model, send_outcome, Rejection};
use crate::types::{IncomingMessage, RequestModel, SendMessageArgs};
use vstd::prelude::*;

verus! {

/// Why a connection closes: a websocket close code and an optional text.
#[derive(Debug, Clone, PartialEq, Eq)]
pub struct CloseReason {
    pub code: u16,
    pub description: Option<String>,
}

/// A frame received from the transport. `Closed` stands for a close frame,
/// the end of the stream or a transport error, with the reason observed.
#[derive(Debug, Clone, PartialEq, Eq)]
pub enum Frame {
    Binary(Vec<u8>),
    Ping,
    Other,
    Closed(Option<CloseReason>),
}

/// What a frame asks of the session.
#[derive(Debug, Clone, PartialEq, Eq)]
pub enum Dispatch {
    /// Garbage or a frame kind with no meaning here: stay open.
    Ignore,
    Pong,
    /// Close the connection with this reason.
    Close(Option<CloseReason>),
    /// Send these bytes back.
    Reply(Vec<u8>),
    /// Run the verify/persist procedure and answer with this `id`.
    SendMessage(u64, SendMessageArgs),
}

/// Classifies a frame: a binary frame that does not decode is ignored, a
/// `ListMessages` request is refused as unsupported.
pub fn dispatch(frame: Frame) -> (r: Dispatch)
    ensures
        match frame {
            Frame::Binary(b) => match decode_request_spec(b@) {
                None => r is Ignore,
                Some(e) => match e.message {
                    RequestModel::SendMessage(a) => r matches Dispatch::SendMessage(id, args) && id
                        == e.id && args@ == a,
                    RequestModel::ListMessages => r matches Dispatch::Reply(bytes) && bytes@
                        == encode_response_spec(reply_model(e.id, Err(Rejection::Unsupported))),
                },
            },
            Frame::Ping => r is Pong,
            Frame::Other => r is Ignore,
            Frame::Closed(reason) => r == Dispatch::Close(reason),
        },
{
    match frame {
        Frame::Binary(b) => match decode_request(b.as_slice()) {
            Err(_) => Dispatch::Ignore,
            Ok(m) => match m.message {
                IncomingMessage::SendMessage(args) => Dispatch::SendMessage(m.id, args),
                IncomingMessage::ListMessages => {
                    let resp = reply(m.id, &Err(Rejection::Unsupported));
                    Dispatch::Reply(encode_response(&resp))
                },
            },
        },
        Frame::Ping => Dispatch::Pong,
        Frame::Other => Dispatch::Ignore,
        Frame::Closed(reason) => Dispatch::Close(reason),
    }
}

/// What the session sends or does after a frame.
#[derive(Debug, Clone, PartialEq, Eq)]
pub enum SessionAction {
    Ignore,
    Pong,
    Close(Option<CloseReason>),
    Reply(Vec<u8>),
}

/// Handles one frame against an in-memory store at server time `now`.
pub fn handle_frame(store: &mut ChainStore, frame: Frame, now: i64) -> (r: SessionAction)
    requires
        old(store).wf(),
    ensures
        final(store).wf(),
        match frame {
            Frame::Binary(b) => match decode_request_spec(b@) {
                None => r is Ignore && final(store)@ == old(store)@,
                Some(e) => match e.message {
                    RequestModel::SendMessage(a) => {
                        let (res, after) = send_outcome(old(store)@, a, now);
                        &&& final(store)@ == after
                        &&& r matches SessionAction::Reply(bytes) && bytes@ == encode_response_spec(
                            reply_model(e.id, res),
                        )
                    },
                    RequestModel::ListMessages => {
                        &&& final(store)@ == old(store)@
                        &&& r matches SessionAction::Reply(bytes) && bytes@ == encode_response_spec(
                            reply_model(e.id, Err(Rejection::Unsupported)),
                        )
                    },
                },
            },
            Frame::Ping => r is Pong && final(store)@ == old(store)@,
            Frame::Other => r is Ignore && final(store)@ == old(store)@,
            Frame::Closed(reason) => r == SessionAction::Close(reason) && final(store)@ == old(
                store,
            )@,
        },
{
    match dispatch(frame) {
        Dispatch::Ignore => SessionAction::Ignore,
        Dispatch::Pong => SessionAction::Pong,
        Dispatch::Close(reason) => SessionAction::Close(reason),
        Dispatch::Reply(bytes) => SessionAction::Reply(bytes),
        Dispatch::SendMessage(id, args) => {
            let resp = handle_send_message_at(store, id, &args, now);
            SessionAction::Reply(encode_response(&resp))
        },
    }
}

} // verus!

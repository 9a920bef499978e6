use vstd::prelude::*;

verus! {

/// Arguments of a `SendMessage` request.
#[derive(Debug, Clone, PartialEq, Eq)]
pub struct SendMessageArgs {
    /// The sender's x-coordinate and parity byte (0 even, 1 odd).
    pub sender_x: [u8; 32],
    pub sender_p: u8,
    /// The receiver's x-coordinate and parity byte.
    pub receiver_x: [u8; 32],
    pub receiver_p: u8,
    /// Compact ECDSA signature over anchor, timestamp and ciphertext.
    pub signature: [u8; 64],
    /// Client wall-clock time at sending, in milliseconds since the Unix epoch.
    pub timestamp: i64,
    /// Whether the server stores `timestamp` or the epoch in its place.
    pub save_timestamp: bool,
    /// The ciphertext.
    pub data: Vec<u8>,
}

/// Mathematical model of `SendMessageArgs`.
pub struct ArgsModel {
    pub sender_x: Seq<u8>,
    pub sender_p: u8,
    pub receiver_x: Seq<u8>,
    pub receiver_p: u8,
    pub signature: Seq<u8>,
    pub timestamp: i64,
    pub save_timestamp: bool,
    pub data: Seq<u8>,
}

impl View for SendMessageArgs {
    type V = ArgsModel;

    open spec fn view(&self) -> ArgsModel {
        ArgsModel {
            sender_x: self.sender_x@,
            sender_p: self.sender_p,
            receiver_x: self.receiver_x@,
            receiver_p: self.receiver_p,
            signature: self.signature@,
            timestamp: self.timestamp,
            save_timestamp: self.save_timestamp,
            data: self.data@,
        }
    }
}

/// Requests a client sends to the server.
#[derive(Debug, Clone, PartialEq, Eq)]
pub enum IncomingMessage {
    SendMessage(SendMessageArgs),
    ListMessages,
}

pub enum RequestModel {
    SendMessage(ArgsModel),
    ListMessages,
}

impl View for IncomingMessage {
    type V = RequestModel;

    open spec fn view(&self) -> RequestModel {
        match self {
            IncomingMessage::SendMessage(a) => RequestModel::SendMessage(a@),
            IncomingMessage::ListMessages => RequestModel::ListMessages,
        }
    }
}

/// Responses the server sends back.
#[derive(Debug, Clone, PartialEq, Eq)]
pub enum OutcomingMessage {
    Success,
    Error(String),
}

pub enum ResponseModel {
    Success,
    Error(Seq<char>),
}

impl View for OutcomingMessage {
    type V = ResponseModel;

    open spec fn view(&self) -> ResponseModel {
        match self {
            OutcomingMessage::Success => ResponseModel::Success,
            OutcomingMessage::Error(s) => ResponseModel::Error(s@),
        }
    }
}

/// An envelope: a payload with the correlation number the response echoes.
#[derive(Debug, Clone, PartialEq, Eq)]
pub struct MessageWithId<T> {
    pub id: u64,
    pub message: T,
}

pub struct EnvelopeModel<V> {
    pub id: u64,
    pub message: V,
}

impl<T: View> View for MessageWithId<T> {
    type V = EnvelopeModel<T::V>;

    open spec fn view(&self) -> EnvelopeModel<T::V> {
        EnvelopeModel { id: self.id, message: self.message@ }
    }
}

} // verus!

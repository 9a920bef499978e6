//! The client: builds signed, encrypted `SendMessage` requests and follows
//! its own signature chain from the server's answers.
use crate::chain::{signed_bytes, signed_data, zero_anchor};
use crate::cipher::{encrypt_payload, encrypt_spec, padded};
use crate::clock::now_millis;
use crate::codec::{encode_request, encode_request_spec};
use crate::crypto::{
    check_secret, ecdh_secret, ecdsa_accepts, ecdsa_signature, public_of_secret, public_x_parity,
    secret_valid, shared_secret, sign_ecdsa, signature_parses,
};
use crate::identity::{compressed, key_from_x_parity, key_wf, parity_byte, KeyModel, PublicKey};
use crate::types::{
    ArgsModel, EnvelopeModel, IncomingMessage, MessageWithId, OutcomingMessage, RequestModel,
    ResponseModel, SendMessageArgs,
};
use vstd::prelude::*;

verus! {

#[verifier::external_type_specification]
#[verifier::external_body]
pub struct ExWsError(tungstenite::Error);

/// Why the client could not act.
#[derive(Debug)]
pub enum ClientError {
    WebSocketError(tungstenite::Error),
    AlreadyConnected,
    NotConnected,
    /// The receiver's x-coordinate and parity byte are not a public key.
    InvalidReceiver,
    /// The plaintext is too long for the wire format.
    MessageTooLong,
    /// Every request id of this client has been used.
    IdsExhausted,
}

/// A participant: its key pair, the counter of request ids, whether a
/// transport is attached, the anchor its next signature covers, and the
/// message (id and signature) awaiting the server's answer.
pub struct Client {
    counter: u64,
    secret: [u8; 32],
    public: PublicKey,
    connected: bool,
    anchor: [u8; 64],
    pending: Option<(u64, [u8; 64])>,
}

pub struct ClientModel {
    pub counter: u64,
    pub secret: Seq<u8>,
    pub public: KeyModel,
    pub connected: bool,
    pub anchor: Seq<u8>,
    pub pending: Option<(u64, Seq<u8>)>,
}

impl View for Client {
    type V = ClientModel;

    closed spec fn view(&self) -> ClientModel {
        ClientModel {
            counter: self.counter,
            secret: self.secret@,
            public: self.public@,
            connected: self.connected,
            anchor: self.anchor@,
            pending: match self.pending {
                Some((id, sig)) => Some((id, sig@)),
                None => None,
            },
        }
    }
}

/// The secret is valid, the public key is its own, and the anchor is a signature's length.
pub open spec fn client_wf(c: ClientModel) -> bool {
    &&& c.secret.len() == 32
    &&& secret_valid(c.secret)
    &&& key_wf(c.public)
    &&& compressed(c.public) == public_of_secret(c.secret)
    &&& c.anchor.len() == 64
}

/// The ciphertext of `plain` for `receiver`.
pub open spec fn ciphertext(c: ClientModel, receiver: KeyModel, plain: Seq<u8>) -> Seq<u8> {
    encrypt_spec(ecdh_secret(compressed(receiver), c.secret), plain)
}

/// The arguments of the request `c` sends.
pub open spec fn sent_args(
    c: ClientModel,
    receiver: KeyModel,
    save_send_date: bool,
    plain: Seq<u8>,
    timestamp: i64,
) -> ArgsModel {
    let data = ciphertext(c, receiver, plain);
    ArgsModel {
        sender_x: c.public.x,
        sender_p: parity_byte(c.public.odd),
        receiver_x: receiver.x,
        receiver_p: parity_byte(receiver.odd),
        signature: ecdsa_signature(c.secret, signed_bytes(c.anchor, timestamp, data)),
        timestamp,
        save_timestamp: save_send_date,
        data,
    }
}

/// What the server checks of a request `c` built: whole cipher blocks for
/// `plain`, and a signature that parses and verifies under `c`'s key over
/// `c`'s anchor, the timestamp and the ciphertext.
pub open spec fn well_formed_request(c: ClientModel, plain: Seq<u8>, a: ArgsModel) -> bool {
    &&& a.data.len() == padded(plain).len()
    &&& a.data.len() % 16 == 0
    &&& signature_parses(a.signature)
    &&& ecdsa_accepts(compressed(c.public), signed_bytes(c.anchor, a.timestamp, a.data), a.signature)
}

/// The client after sending: the counter moves on and the message awaits its answer.
pub open spec fn after_send(c: ClientModel, args: ArgsModel) -> ClientModel {
    ClientModel {
        counter: (c.counter + 1) as u64,
        pending: Some((c.counter, args.signature)),
        ..c
    }
}

/// The client after the answer `m`: the anchor moves to the pending
/// signature on `Success` for the pending id; an answer for the pending id
/// clears it; any other answer changes nothing.
pub open spec fn after_response(c: ClientModel, m: EnvelopeModel<ResponseModel>) -> ClientModel {
    match c.pending {
        Some((id, sig)) => if m.id == id {
            ClientModel {
                anchor: if m.message is Success { sig } else { c.anchor },
                pending: None,
                ..c
            }
        } else {
            c
        },
        None => c,
    }
}

impl Client {
    /// A client for a secret key, or `None` if the key is not a valid secret.
    pub fn with_secret_key(sk: [u8; 32]) -> (r: Option<Client>)
        ensures
            r is Some <==> secret_valid(sk@),
            r matches Some(c) ==> {
                &&& client_wf(c@)
                &&& c@.secret == sk@
                &&& c@.counter == 0
                &&& !c@.connected
                &&& c@.anchor == zero_anchor()
                &&& c@.pending is None
            },
    {
        if !check_secret(&sk) {
            return None;
        }
        let (x, odd) = public_x_parity(&sk);
        let public = PublicKey { x, odd };
        assert(compressed(public@) =~= public_of_secret(sk@));
        let c = Client { counter: 0, secret: sk, public, connected: false, anchor: [0u8; 64], pending: None };
        assert(c@.anchor =~= zero_anchor());
        Some(c)
    }

    /// The client's public key.
    pub fn public_key(&self) -> (r: PublicKey)
        ensures
            r@ == self@.public,
    {
        PublicKey { x: self.public.x, odd: self.public.odd }
    }

    /// The id the next request will carry.
    pub fn counter(&self) -> (r: u64)
        ensures
            r == self@.counter,
    {
        self.counter
    }

    /// Marks a transport as attached; fails if one already is.
    pub fn connect(&mut self) -> (r: Result<(), ClientError>)
        ensures
            old(self)@.connected ==> (r matches Err(ClientError::AlreadyConnected)),
            old(self)@.connected ==> final(self)@ == old(self)@,
            !old(self)@.connected ==> r is Ok && final(self)@ == (ClientModel {
                connected: true,
                ..old(self)@
            }),
    {
        if self.connected {
            return Err(ClientError::AlreadyConnected);
        }
        self.connected = true;
        Ok(())
    }

    /// Marks the transport as gone.
    pub fn disconnect(&mut self)
        ensures
            final(self)@ == (ClientModel { connected: false, ..old(self)@ }),
    {
        self.connected = false;
    }

    /// Builds the encoded request that sends `raw` to `receiver` at
    /// `timestamp`: allocates the next id, encrypts under the shared secret,
    /// signs anchor, timestamp and ciphertext, and awaits the answer.
    pub fn send_message_at(
        &mut self,
        receiver: &PublicKey,
        save_send_date: bool,
        raw: &Vec<u8>,
        timestamp: i64,
    ) -> (r: Result<Vec<u8>, ClientError>)
        requires
            client_wf(old(self)@),
            key_wf(receiver@),
            raw@.len() + 16 <= u32::MAX,
            old(self)@.counter < u64::MAX,
        ensures
            client_wf(final(self)@),
            !old(self)@.connected ==> (r matches Err(ClientError::NotConnected)),
            !old(self)@.connected ==> final(self)@ == old(self)@,
            old(self)@.connected ==> {
                let args = sent_args(old(self)@, receiver@, save_send_date, raw@, timestamp);
                &&& well_formed_request(old(self)@, raw@, args)
                &&& r matches Ok(bytes) && bytes@ == encode_request_spec(
                    EnvelopeModel { id: old(self)@.counter, message: RequestModel::SendMessage(args) },
                )
                &&& final(self)@ == after_send(old(self)@, args)
            },
    {
        if !self.connected {
            return Err(ClientError::NotConnected);
        }
        let id = self.counter;
        self.counter = self.counter + 1;
        let key = receiver.serialize();
        assert(key@.subrange(1, 33) =~= receiver@.x);
        let shared = shared_secret(&key, &self.secret);
        let data = encrypt_payload(&shared, raw);
        let signed = signed_data(&self.anchor, timestamp, &data);
        let signature = sign_ecdsa(&self.secret, signed.as_slice());
        assert(padded(raw@).len() % 16 == 0);
        let (sender_x, sender_p) = self.public.to_x_parity();
        let (receiver_x, receiver_p) = receiver.to_x_parity();
        let args = SendMessageArgs {
            sender_x,
            sender_p,
            receiver_x,
            receiver_p,
            signature,
            timestamp,
            save_timestamp: save_send_date,
            data,
        };
        let m = MessageWithId { id, message: IncomingMessage::SendMessage(args) };
        let bytes = encode_request(&m);
        self.pending = Some((id, signature));
        Ok(bytes)
    }

    /// Builds the encoded request that sends `raw` to `receiver` now.
    pub fn send_message(&mut self, receiver: &PublicKey, save_send_date: bool, raw: &Vec<u8>) -> (r:
        Result<Vec<u8>, ClientError>)
        requires
            client_wf(old(self)@),
            key_wf(receiver@),
            raw@.len() + 16 <= u32::MAX,
            old(self)@.counter < u64::MAX,
        ensures
            client_wf(final(self)@),
            !old(self)@.connected ==> (r matches Err(ClientError::NotConnected)),
            !old(self)@.connected ==> final(self)@ == old(self)@,
            old(self)@.connected ==> exists|timestamp: i64|
                {
                    let args = #[trigger] sent_args(
                        old(self)@,
                        receiver@,
                        save_send_date,
                        raw@,
                        timestamp,
                    );
                    &&& well_formed_request(old(self)@, raw@, args)
                    &&& r matches Ok(bytes) && bytes@ == encode_request_spec(
                        EnvelopeModel {
                            id: old(self)@.counter,
                            message: RequestModel::SendMessage(args),
                        },
                    )
                    &&& final(self)@ == after_send(old(self)@, args)
                },
    {
        let timestamp = now_millis();
        self.send_message_at(receiver, save_send_date, raw, timestamp)
    }

    /// Builds the encoded request that sends `raw` now to the key given by
    /// its x-coordinate and parity byte; fails when there is no transport,
    /// when those bytes are not a key, when `raw` is too long for the wire
    /// format, or when the request ids are used up.
    pub fn send_message_to(
        &mut self,
        receiver_x: [u8; 32],
        receiver_p: u8,
        save_send_date: bool,
        raw: &Vec<u8>,
    ) -> (r: Result<Vec<u8>, ClientError>)
        requires
            client_wf(old(self)@),
        ensures
            client_wf(final(self)@),
            r is Err ==> final(self)@ == old(self)@,
            !old(self)@.connected ==> (r matches Err(ClientError::NotConnected)),
            old(self)@.connected && key_from_x_parity(receiver_x@, receiver_p) is None ==> (r matches Err(
                ClientError::InvalidReceiver,
            )),
            old(self)@.connected && key_from_x_parity(receiver_x@, receiver_p) is Some && raw@.len()
                + 16 > u32::MAX ==> (r matches Err(ClientError::MessageTooLong)),
            old(self)@.connected && key_from_x_parity(receiver_x@, receiver_p) is Some && raw@.len()
                + 16 <= u32::MAX && old(self)@.counter == u64::MAX ==> (r matches Err(
                ClientError::IdsExhausted,
            )),
            old(self)@.connected && key_from_x_parity(receiver_x@, receiver_p) is Some && raw@.len()
                + 16 <= u32::MAX && old(self)@.counter < u64::MAX ==> exists|timestamp: i64|
                {
                    let args = #[trigger] sent_args(
                        old(self)@,
                        key_from_x_parity(receiver_x@, receiver_p).unwrap(),
                        save_send_date,
                        raw@,
                        timestamp,
                    );
                    &&& well_formed_request(old(self)@, raw@, args)
                    &&& r matches Ok(bytes) && bytes@ == encode_request_spec(
                        EnvelopeModel {
                            id: old(self)@.counter,
                            message: RequestModel::SendMessage(args),
                        },
                    )
                    &&& final(self)@ == after_send(old(self)@, args)
                },
    {
        if !self.connected {
            return Err(ClientError::NotConnected);
        }
        let receiver = match PublicKey::from_x_parity(receiver_x, receiver_p) {
            Ok(k) => k,
            Err(_) => return Err(ClientError::InvalidReceiver),
        };
        if raw.len() > u32::MAX as usize - 16 {
            return Err(ClientError::MessageTooLong);
        }
        if self.counter == u64::MAX {
            return Err(ClientError::IdsExhausted);
        }
        assert(receiver@ == key_from_x_parity(receiver_x@, receiver_p).unwrap());
        self.send_message(&receiver, save_send_date, raw)
    }

    /// Takes the server's answer into account.
    pub fn handle_response(&mut self, m: &MessageWithId<OutcomingMessage>)
        requires
            client_wf(old(self)@),
        ensures
            client_wf(final(self)@),
            final(self)@ == after_response(old(self)@, m@),
    {
        match self.pending {
            Some((id, sig)) => {
                if m.id == id {
                    if let OutcomingMessage::Success = m.message {
                        self.anchor = sig;
                    }
                    self.pending = None;
                }
            },
            None => {},
        }
    }
}

} // verus!

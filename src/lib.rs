//! An end-to-end-encrypted message relay: identities, the binary envelope
//! codec, the client's sign-and-encrypt path and the server's
//! verify-and-persist decision over a per-sender signature chain.
pub mod chain;
pub mod client;
pub mod cipher;
pub mod clock;
pub mod codec;
pub mod crypto;
pub mod identity;
pub mod laws;
pub mod server;
pub mod session;
pub mod types;

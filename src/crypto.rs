//! The elliptic-curve and block-cipher primitives the protocol relies on.
//! Each result is named by a spec function of its arguments; the functions
//! below are the only places that call into `secp256k1` and `aes`.
use aes::cipher::generic_array::GenericArray;
use aes::cipher::{BlockEncrypt, KeyInit};
use secp256k1::hashes::sha256;
use vstd::prelude::*;

verus! {


/// 2 to the 64th.
pub open spec fn limb() -> int {
    0x1_0000_0000 as int * 0x1_0000_0000 as int
}

/// The order of the secp256k1 group,
/// 0xFFFFFFFF_FFFFFFFF_FFFFFFFF_FFFFFFFE_BAAEDCE6_AF48A03B_BFD25E8C_D0364141.
pub open spec fn curve_order() -> int {
    ((0xFFFF_FFFF_FFFF_FFFFu64 as int * limb() + 0xFFFF_FFFF_FFFF_FFFEu64 as int) * limb()
        + 0xBAAE_DCE6_AF48_A03Bu64 as int) * limb() + 0xBFD2_5E8C_D036_4141u64 as int
}

/// The big-endian value of a byte string.
pub open spec fn be_value(s: Seq<u8>) -> int
    decreases s.len(),
{
    if s.len() == 0 {
        0
    } else {
        be_value(s.drop_last()) * 256 + s.last()
    }
}

/// The prime of the secp256k1 field,
/// 0xFFFFFFFF_FFFFFFFF_FFFFFFFF_FFFFFFFF_FFFFFFFF_FFFFFFFF_FFFFFFFE_FFFFFC2F.
pub open spec fn field_prime() -> int {
    ((0xFFFF_FFFF_FFFF_FFFFu64 as int * limb() + 0xFFFF_FFFF_FFFF_FFFFu64 as int) * limb()
        + 0xFFFF_FFFF_FFFF_FFFFu64 as int) * limb() + 0xFFFF_FFFF_FFFF_FC2Fu64 as int
}

/// Whether 32 bytes are the x-coordinate of a point on secp256k1
/// (y^2 = x^3 + 7 over the field): x, read big-endian, is below the field
/// prime and x^3 + 7 is a square modulo it.
pub open spec fn x_coord_valid(x: Seq<u8>) -> bool {
    let v = be_value(x);
    &&& x.len() == 32
    &&& v < field_prime()
    &&& exists|y: int|
        0 <= y < field_prime() && #[trigger] ((y * y) % field_prime()) == (v * v * v + 7)
            % field_prime()
}

/// A valid secret scalar: 32 bytes, neither zero nor at or above the group order.
pub open spec fn secret_valid(secret: Seq<u8>) -> bool {
    secret.len() == 32 && 0 < be_value(secret) < curve_order()
}

/// A compact signature that parses: both 32-byte halves below the group order.
pub open spec fn signature_parses(sig: Seq<u8>) -> bool {
    sig.len() == 64 && be_value(sig.subrange(0, 32)) < curve_order() && be_value(
        sig.subrange(32, 64),
    ) < curve_order()
}

/// Whether `sig` is a valid ECDSA signature by the compressed key `key` over
/// the SHA-256 digest of `data`.
pub uninterp spec fn ecdsa_accepts(key: Seq<u8>, data: Seq<u8>, sig: Seq<u8>) -> bool;

/// The compact ECDSA signature by `secret` over the SHA-256 digest of `data`.
pub uninterp spec fn ecdsa_signature(secret: Seq<u8>, data: Seq<u8>) -> Seq<u8>;

/// The compressed public key of a secret scalar.
pub uninterp spec fn public_of_secret(secret: Seq<u8>) -> Seq<u8>;

/// The Diffie-Hellman shared secret of a compressed public key and a secret scalar.
pub uninterp spec fn ecdh_secret(key: Seq<u8>, secret: Seq<u8>) -> Seq<u8>;

/// AES-256 encryption of one 16-byte block.
pub uninterp spec fn aes256_block(key: Seq<u8>, block: Seq<u8>) -> Seq<u8>;

/// Relies on `secp256k1::XOnlyPublicKey::from_slice`, which accepts 32 bytes
/// exactly when they are, big-endian, a curve x-coordinate below the field
/// prime (`secp256k1_xonly_pubkey_parse`).
#[verifier::external_body]
pub(crate) fn check_x_coord(x: &[u8; 32]) -> (r: bool)
    ensures
        r == x_coord_valid(x@),
{
    secp256k1::XOnlyPublicKey::from_slice(x).is_ok()
}

/// Relies on `secp256k1::SecretKey::from_slice`, which accepts 32 bytes
/// exactly when their big-endian value is neither zero nor at or above the
/// group order (`secp256k1_ec_seckey_verify`).
#[verifier::external_body]
pub(crate) fn check_secret(secret: &[u8; 32]) -> (r: bool)
    ensures
        r == secret_valid(secret@),
{
    secp256k1::SecretKey::from_slice(secret).is_ok()
}

/// Relies on `secp256k1::ecdsa::Signature::from_compact`, which accepts 64
/// bytes exactly when neither 32-byte half, read big-endian, reaches the
/// group order (`secp256k1_ecdsa_signature_parse_compact`).
#[verifier::external_body]
pub(crate) fn check_signature(sig: &[u8; 64]) -> (r: bool)
    ensures
        r == signature_parses(sig@),
{
    secp256k1::ecdsa::Signature::from_compact(sig).is_ok()
}

/// Relies on `secp256k1::Secp256k1::verify_ecdsa` over
/// `Message::from_hashed_data::<sha256::Hash>`; a key or signature that does
/// not parse is not accepted.
#[verifier::external_body]
pub(crate) fn verify_ecdsa(key: &[u8; 33], data: &[u8], sig: &[u8; 64]) -> (r: bool)
    ensures
        r == ecdsa_accepts(key@, data@, sig@),
{
    let secp = secp256k1::Secp256k1::verification_only();
    match (secp256k1::PublicKey::from_slice(key), secp256k1::ecdsa::Signature::from_compact(sig)) {
        (Ok(pk), Ok(s)) => {
            let msg = secp256k1::Message::from_hashed_data::<sha256::Hash>(data);
            secp.verify_ecdsa(&msg, &s, &pk).is_ok()
        },
        _ => false,
    }
}

/// Relies on `secp256k1::Secp256k1::sign_ecdsa` over
/// `Message::from_hashed_data::<sha256::Hash>`, serialized compact; signing
/// is deterministic (RFC 6979), and the signature parses and verifies under
/// the signer's public key.
#[verifier::external_body]
pub(crate) fn sign_ecdsa(secret: &[u8; 32], data: &[u8]) -> (r: [u8; 64])
    requires
        secret_valid(secret@),
    ensures
        r@ == ecdsa_signature(secret@, data@),
        signature_parses(r@),
        ecdsa_accepts(public_of_secret(secret@), data@, r@),
{
    let sk = secp256k1::SecretKey::from_slice(secret).expect("valid secret key");
    let msg = secp256k1::Message::from_hashed_data::<sha256::Hash>(data);
    secp256k1::Secp256k1::signing_only().sign_ecdsa(&msg, &sk).serialize_compact()
}

/// Relies on `secp256k1::KeyPair::x_only_public_key`: the x-coordinate and
/// parity (odd as `true`) of the public key of `secret`, whose compressed
/// form is the parity prefix 2 or 3 followed by the x-coordinate, which lies
/// on the curve.
#[verifier::external_body]
pub(crate) fn public_x_parity(secret: &[u8; 32]) -> (r: ([u8; 32], bool))
    requires
        secret_valid(secret@),
    ensures
        seq![if r.1 { 3u8 } else { 2u8 }] + r.0@ == public_of_secret(secret@),
        x_coord_valid(r.0@),
{
    let secp = secp256k1::Secp256k1::signing_only();
    let kp = secp256k1::KeyPair::from_seckey_slice(&secp, secret).expect("valid secret key");
    let (x, parity) = kp.x_only_public_key();
    (x.serialize(), parity == secp256k1::Parity::Odd)
}

/// Relies on `secp256k1::ecdh::SharedSecret::new`: the shared secret of a
/// compressed public key (parity prefix and a valid x-coordinate) and a secret.
#[verifier::external_body]
pub(crate) fn shared_secret(key: &[u8; 33], secret: &[u8; 32]) -> (r: [u8; 32])
    requires
        key@[0] == 2 || key@[0] == 3,
        x_coord_valid(key@.subrange(1, 33)),
        secret_valid(secret@),
    ensures
        r@ == ecdh_secret(key@, secret@),
{
    let pk = secp256k1::PublicKey::from_slice(key).expect("valid public key");
    let sk = secp256k1::SecretKey::from_slice(secret).expect("valid secret key");
    secp256k1::ecdh::SharedSecret::new(&pk, &sk).secret_bytes()
}

/// Relies on `aes::Aes256Enc::encrypt_block`: one block encrypted under a
/// 256-bit key.
#[verifier::external_body]
pub(crate) fn aes256_encrypt_block(key: &[u8; 32], block: &[u8; 16]) -> (r: [u8; 16])
    ensures
        r@ == aes256_block(key@, block@),
{
    let cipher = aes::Aes256Enc::new(GenericArray::from_slice(key));
    let mut b = GenericArray::clone_from_slice(block);
    cipher.encrypt_block(&mut b);
    b.into()
}

} // verus!

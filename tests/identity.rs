use project_toot::client::Client;
use project_toot::identity::{KeyError, PublicKey};

#[test]
fn key_round_trip_through_x_parity() {
    for secret in [[1u8; 32], [2u8; 32], [7u8; 32]] {
        let k = Client::with_secret_key(secret).unwrap().public_key();
        let (x, p) = k.to_x_parity();
        assert!(p <= 1);
        assert_eq!(PublicKey::from_x_parity(x, p), Ok(k));
    }
}

#[test]
fn parity_outside_zero_one_is_malformed() {
    let k = Client::with_secret_key([1u8; 32]).unwrap().public_key();
    assert_eq!(PublicKey::from_x_parity(k.x, 2), Err(KeyError::MalformedKey));
    assert_eq!(PublicKey::from_x_parity(k.x, 255), Err(KeyError::MalformedKey));
}

#[test]
fn x_off_the_curve_is_malformed() {
    assert_eq!(PublicKey::from_x_parity([0xffu8; 32], 0), Err(KeyError::MalformedKey));
}

#[test]
fn compressed_form_is_prefix_then_x() {
    let k = Client::with_secret_key([1u8; 32]).unwrap().public_key();
    let c = k.serialize();
    assert_eq!(c[0], if k.odd { 3 } else { 2 });
    assert_eq!(&c[1..], &k.x[..]);
}

#[test]
fn secret_one_gives_the_generator() {
    let mut one = [0u8; 32];
    one[31] = 1;
    let k = Client::with_secret_key(one).unwrap().public_key();
    assert_eq!(
        k.serialize().to_vec(),
        vec![
            0x02, 0x79, 0xbe, 0x66, 0x7e, 0xf9, 0xdc, 0xbb, 0xac, 0x55, 0xa0, 0x62, 0x95, 0xce,
            0x87, 0x0b, 0x07, 0x02, 0x9b, 0xfc, 0xdb, 0x2d, 0xce, 0x28, 0xd9, 0x59, 0xf2, 0x81,
            0x5b, 0x16, 0xf8, 0x17, 0x98,
        ]
    );
}

#[test]
fn invalid_secret_gives_no_client() {
    assert!(Client::with_secret_key([0u8; 32]).is_none());
    assert!(Client::with_secret_key([0xffu8; 32]).is_none());
}

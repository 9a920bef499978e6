//! Public keys in x-coordinate-plus-parity form.
use crate::crypto::{check_x_coord, x_coord_valid};
use vstd::prelude::*;

verus! {

/// A public key as its 32-byte x-coordinate and the parity of its y-coordinate.
#[derive(Debug, Clone, Copy, PartialEq, Eq)]
pub struct PublicKey {
    pub x: [u8; 32],
    pub odd: bool,
}

pub struct KeyModel {
    pub x: Seq<u8>,
    pub odd: bool,
}

impl View for PublicKey {
    type V = KeyModel;

    open spec fn view(&self) -> KeyModel {
        KeyModel { x: self.x@, odd: self.odd }
    }
}

/// A key that cannot be built from the bytes given.
#[derive(Debug, Clone, Copy, PartialEq, Eq)]
pub enum KeyError {
    MalformedKey,
}

/// A valid key: its x-coordinate lies on the curve.
pub open spec fn key_wf(k: KeyModel) -> bool {
    k.x.len() == 32 && x_coord_valid(k.x)
}

pub open spec fn parity_byte(odd: bool) -> u8 {
    if odd { 1 } else { 0 }
}

/// The key that an x-coordinate and a parity byte denote, if any.
pub open spec fn key_from_x_parity(x: Seq<u8>, parity: u8) -> Option<KeyModel> {
    if parity <= 1 && x.len() == 32 && x_coord_valid(x) {
        Some(KeyModel { x, odd: parity == 1 })
    } else {
        None
    }
}

/// The 33-byte compressed encoding: prefix 2 (even) or 3 (odd), then x.
pub open spec fn compressed(k: KeyModel) -> Seq<u8> {
    seq![if k.odd { 3u8 } else { 2u8 }] + k.x
}

impl PublicKey {
    /// Builds a key from its x-coordinate and parity byte (0 even, 1 odd).
    pub fn from_x_parity(x: [u8; 32], parity: u8) -> (r: Result<PublicKey, KeyError>)
        ensures
            r is Ok <==> key_from_x_parity(x@, parity) is Some,
            r matches Ok(k) ==> key_from_x_parity(x@, parity) == Some(k@),
    {
        if parity > 1 || !check_x_coord(&x) {
            Err(KeyError::MalformedKey)
        } else {
            Ok(PublicKey { x, odd: parity == 1 })
        }
    }

    /// The x-coordinate and parity byte of the key.
    pub fn to_x_parity(&self) -> (r: ([u8; 32], u8))
        ensures
            r.0@ == self.x@,
            r.1 == parity_byte(self.odd),
    {
        (self.x, if self.odd { 1 } else { 0 })
    }

    /// The compressed encoding, which keys the chain store.
    pub fn serialize(&self) -> (r: [u8; 33])
        ensures
            r@ == compressed(self@),
    {
        let mut r: [u8; 33] = [0u8; 33];
        r[0] = if self.odd { 3 } else { 2 };
        let mut i: usize = 0;
        while i < 32
            invariant
                i <= 32,
                r@.len() == 33,
                r@[0] == (if self.odd { 3u8 } else { 2u8 }),
                forall|j: int| 0 <= j < i ==> r@[j + 1] == self.x@[j],
            decreases 32 - i,
        {
            r[i + 1] = self.x[i];
            i = i + 1;
        }
        assert(r@ =~= compressed(self@));
        r
    }
}

/// Converting a valid key to x-coordinate and parity and back gives the key.
pub proof fn lemma_key_round_trip(k: KeyModel)
    requires
        key_wf(k),
    ensures
        key_from_x_parity(k.x, parity_byte(k.odd)) == Some(k),
{
}

} // verus!

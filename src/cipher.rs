//! Payload encryption: the plaintext is padded to whole 16-byte blocks with
//! PKCS#7 (every pad byte holds the pad length, 1 to 16, so a full block is
//! added when the length is already a multiple of 16), then each block is
//! encrypted independently with AES-256 under the shared secret.
use crate::codec::read_array;
use crate::crypto::{aes256_block, aes256_encrypt_block};
use vstd::prelude::*;

verus! {

pub const BLOCK_LEN: usize = 16;

pub open spec fn pad_len(n: nat) -> nat {
    (16 - (n % 16)) as nat
}

pub open spec fn padded(p: Seq<u8>) -> Seq<u8> {
    p + Seq::new(pad_len(p.len()), |i: int| pad_len(p.len()) as u8)
}

/// Block `i` of `p`.
pub open spec fn block(p: Seq<u8>, i: int) -> Seq<u8> {
    p.subrange(16 * i, 16 * i + 16)
}

/// The encryptions of the first `k` blocks of `p`, concatenated.
pub open spec fn encrypt_prefix(key: Seq<u8>, p: Seq<u8>, k: nat) -> Seq<u8>
    decreases k,
{
    if k == 0 {
        Seq::empty()
    } else {
        encrypt_prefix(key, p, (k - 1) as nat) + aes256_block(key, block(p, k - 1))
    }
}

/// The ciphertext of a plaintext under a 32-byte key.
pub open spec fn encrypt_spec(key: Seq<u8>, plain: Seq<u8>) -> Seq<u8> {
    encrypt_prefix(key, padded(plain), padded(plain).len() / 16)
}

/// Pads `p` to whole blocks.
fn pad(p: &Vec<u8>) -> (r: Vec<u8>)
    requires
        p@.len() + 16 <= usize::MAX,
    ensures
        r@ == padded(p@),
        r@.len() % 16 == 0,
{
    let n = BLOCK_LEN - p.len() % BLOCK_LEN;
    let mut r: Vec<u8> = p.clone();
    let mut i: usize = 0;
    while i < n
        invariant
            n == pad_len(p@.len()),
            1 <= n <= 16,
            i <= n,
            r@ == p@ + Seq::new(i as nat, |j: int| n as u8),
        decreases n - i,
    {
        r.push(n as u8);
        i = i + 1;
        assert(r@ =~= p@ + Seq::new(i as nat, |j: int| n as u8));
    }
    assert(r@ =~= padded(p@));
    r
}

/// Encrypts a payload under a 32-byte key.
pub fn encrypt_payload(key: &[u8; 32], plain: &Vec<u8>) -> (r: Vec<u8>)
    requires
        plain@.len() + 16 <= usize::MAX,
    ensures
        r@ == encrypt_spec(key@, plain@),
        r@.len() == padded(plain@).len(),
{
    let p = pad(plain);
    let blocks = p.len() / BLOCK_LEN;
    let mut out: Vec<u8> = Vec::new();
    let mut i: usize = 0;
    while i < blocks
        invariant
            p@ == padded(plain@),
            p@.len() % 16 == 0,
            blocks == p@.len() / 16,
            p@.len() <= usize::MAX,
            i <= blocks,
            out@ == encrypt_prefix(key@, p@, i as nat),
            out@.len() == 16 * i,
        decreases blocks - i,
    {
        proof {
            assert(16 * i + 16 <= p@.len()) by (nonlinear_arith)
                requires
                    i < blocks,
                    blocks == p@.len() / 16,
                    p@.len() % 16 == 0,
            ;
        }
        let b = read_array::<16>(p.as_slice(), i * BLOCK_LEN);
        let c = aes256_encrypt_block(key, &b);
        out.extend_from_slice(c.as_slice());
        proof {
            assert(b@ == block(p@, i as int));
        }
        i = i + 1;
    }
    assert(out@.len() == p@.len());
    out
}

} // verus!

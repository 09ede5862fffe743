//! Cryptographic and encoding utilities shared by both sides of the
//! bridge: the transaction digest, the hex rendering of cross-chain ids,
//! and placeholder signature primitives.

use vstd::prelude::*;
use sha2::{Digest, Sha256};

verus! {

broadcast use vstd::array::group_array_axioms;

/// The SHA-256 digest of a byte sequence: a function of the input bytes
/// alone, left without a definition here — nothing in this crate computes
/// it except the call below.
pub uninterp spec fn sha256_of(data: Seq<u8>) -> Seq<u8>;

/// Relies on sha2's `Sha256`: the digest is 32 bytes and depends on the
/// input bytes alone.
#[verifier::external_body]
pub fn hash(data: &[u8]) -> (r: Vec<u8>)
    ensures
        r@ == sha256_of(data@),
        r@.len() == 32,
{
    let mut hasher = Sha256::new();
    hasher.update(data);
    hasher.finalize().to_vec()
}

/// The sixteen lowercase hex digits.
pub open spec fn hex_digits() -> Seq<char> {
    seq!['0', '1', '2', '3', '4', '5', '6', '7', '8', '9', 'a', 'b', 'c', 'd', 'e', 'f']
}

/// Lowercase hex encoding: two digits per byte, high nibble first.
pub open spec fn hex_of(data: Seq<u8>) -> Seq<char> {
    Seq::new(2 * data.len(), |i: int| if i % 2 == 0 {
        hex_digits()[data[i / 2] as int / 16]
    } else {
        hex_digits()[data[i / 2] as int % 16]
    })
}

/// Relies on hex::encode: lowercase hex, two digits per byte, high nibble
/// first.
#[verifier::external_body]
pub fn hex_encode32(data: &[u8; 32]) -> (r: String)
    ensures
        r@ == hex_of(data@),
{
    hex::encode(data)
}

/// Signature verification stub: accepts every signature. Where signatures
/// are actually checked and counted is the unlock threshold rule; how they
/// are produced and verified cryptographically is outside this crate.
pub fn verify_signature(data: &[u8], signature: &[u8], public_key: &[u8]) -> (r: bool)
    ensures
        r,
{
    true
}

/// A vector of `n` zero bytes.
pub fn zero_bytes(n: usize) -> (r: Vec<u8>)
    ensures
        r@.len() == n,
        forall|i: int| 0 <= i < n ==> r@[i] == 0u8,
{
    let mut v: Vec<u8> = Vec::new();
    let mut i: usize = 0;
    while i < n
        invariant
            i <= n,
            v@.len() == i,
            forall|k: int| 0 <= k < i ==> v@[k] == 0u8,
        decreases n - i,
    {
        v.push(0u8);
        i = i + 1;
    }
    v
}

/// Keypair generation stub: a zeroed 32-byte public/secret pair.
pub fn generate_keypair() -> (r: (Vec<u8>, Vec<u8>))
    ensures
        r.0@.len() == 32,
        r.1@.len() == 32,
        forall|i: int| 0 <= i < 32 ==> r.0@[i] == 0u8,
        forall|i: int| 0 <= i < 32 ==> r.1@[i] == 0u8,
{
    (zero_bytes(32), zero_bytes(32))
}

} // verus!

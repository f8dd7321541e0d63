use sha3::{Digest, Sha3_512};
use vstd::prelude::*;

use crate::text::{hex_lower, to_hex_lower};

verus! {

/// The SHA3-512 digest of `data`.
pub uninterp spec fn sha3_512(data: Seq<u8>) -> Seq<u8>;

/// `Sha3_512::digest` (sha3 0.10): the 64-byte SHA3-512 digest of `data`.
#[verifier::external_body]
fn sha3_512_digest(data: &[u8]) -> (digest: Vec<u8>)
    ensures
        digest@ == sha3_512(data@),
        digest@.len() == 64,
{
    Sha3_512::digest(data).to_vec()
}

/// The fingerprint recorded for an upload: its SHA3-512 digest as lowercase
/// hexadecimal text, 128 characters long.
pub fn file_hash(bytes: &[u8]) -> (hash: String)
    ensures
        hash@ == hex_lower(sha3_512(bytes@)),
        hash@.len() == 128,
{
    let digest = sha3_512_digest(bytes);
    to_hex_lower(digest.as_slice())
}

} // verus!

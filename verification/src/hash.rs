use vstd::prelude::*;

use crate::text::{all_ascii, hex_lower, hex_text, lemma_hex_lower_ascii};

verus! {

/// The SHA-256 digest of `data`.
pub uninterp spec fn sha256(data: Seq<u8>) -> Seq<u8>;

/// `sha2::Sha256::digest`: the 32-byte SHA-256 digest of `payload`. The
/// contract names the digest; that it has 32 bytes is the output size the
/// hasher declares.
#[verifier::external_body]
fn sha256_digest(payload: &[u8]) -> (r: Vec<u8>)
    ensures
        r@ == sha256(payload@),
        r@.len() == 32,
{
    <sha2::Sha256 as sha2::Digest>::digest(payload).to_vec()
}

/// The SHA-256 digest of `payload` as 64 lowercase hexadecimal digits.
pub fn sha256_hex(payload: &[u8]) -> (r: String)
    ensures
        r@ == hex_lower(sha256(payload@)),
        r@.len() == 64,
        all_ascii(r@),
{
    let digest = sha256_digest(payload);
    proof {
        lemma_hex_lower_ascii(digest@);
    }
    hex_text(digest.as_slice())
}

} // verus!

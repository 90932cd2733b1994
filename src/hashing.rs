//! The content hash that identifies a file's bytes to the server.

use vstd::prelude::*;

verus! {

/// The lowercase hexadecimal SHA-256 digest of `data`.
pub uninterp spec fn sha256_hex_of(data: Seq<u8>) -> Seq<char>;

/// Relies on `sha256::digest` for a `&Vec<u8>`: it returns `hex::encode` of the
/// SHA-256 digest of the bytes, 32 bytes written as 64 hexadecimal characters.
#[verifier::external_body]
pub(crate) fn content_hash(data: &Vec<u8>) -> (r: String)
    ensures
        r@ == sha256_hex_of(data@),
        r@.len() == 64,
{
    sha256::digest(data)
}

} // verus!

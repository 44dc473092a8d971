//! Content digest for upload chunks: MD5, rendered as lowercase hex.

use vstd::prelude::*;
use crate::text::{hex_of, to_hex_lower};

verus! {

/// The MD5 digest of a byte string. The digest is a function of the input
/// bytes alone; its 16-byte value is not spelled out here.
pub uninterp spec fn md5_of(bytes: Seq<u8>) -> Seq<u8>;

/// Relies on md5::compute: the 16-byte MD5 digest of the input bytes.
#[verifier::external_body]
fn md5_digest(bytes: &[u8]) -> (r: Vec<u8>)
    ensures
        r@ == md5_of(bytes@),
        r@.len() == 16,
{
    md5::compute(bytes).0.to_vec()
}

/// The lowercase hex rendering of the MD5 digest of a byte string: the
/// `filehash` value sent with an upload chunk.
pub open spec fn chunk_hash_of(bytes: Seq<u8>) -> Seq<char> {
    hex_of(md5_of(bytes))
}

/// Compute the `filehash` value for one chunk payload.
pub fn chunk_hash(bytes: &[u8]) -> (r: String)
    ensures
        r@ == chunk_hash_of(bytes@),
        r@.len() == 32,
{
    let digest = md5_digest(bytes);
    to_hex_lower(digest.as_slice())
}

} // verus!

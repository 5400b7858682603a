//! The one trusted boundary of the crate: the SHA-256 digest.
//!
//! Every cryptographic quantity in this library (key blocks, public key
//! blocks, term digests) is defined in terms of the single uninterpreted
//! function [`sha256_of`], which names the SHA-256 digest of a byte
//! sequence. The executable wrapper below is the only place the outside
//! hash implementation is called.

use vstd::prelude::*;

verus! {

/// The SHA-256 digest of a byte sequence: a pure function of its input,
/// 32 bytes long. Its value is never stated here; everything the library
/// proves about digests holds for any function in its place.
pub uninterp spec fn sha256_of(data: Seq<u8>) -> Seq<u8>;

/// Relies on `sha2::Sha256::digest`: the SHA-256 digest is a deterministic
/// function of the input bytes alone, and is always 32 bytes long.
#[verifier::external_body]
pub(crate) fn sha256(data: &Vec<u8>) -> (r: Vec<u8>)
    ensures
        r@ == sha256_of(data@),
        r@.len() == 32,
{
    <sha2::Sha256 as sha2::Digest>::digest(data.as_slice()).to_vec()
}

} // verus!

use vstd::prelude::*;

verus! {

/// The 32-byte SHA-256 digest of a byte sequence: a pure function of
/// the bytes, computed by the linked libsodium implementation.
pub uninterp spec fn sha256_of(data: Seq<u8>) -> Seq<u8>;

/// The 64-byte SHA-512 digest of a byte sequence: a pure function of
/// the bytes, computed by the linked libsodium implementation.
pub uninterp spec fn sha512_of(data: Seq<u8>) -> Seq<u8>;

/// Relies on `sodiumoxide::crypto::hash::sha256::hash`: it returns the
/// 32-byte SHA-256 digest of its input, depending on the input bytes
/// alone.
#[verifier::external_body]
pub(crate) fn sha256(data: &[u8]) -> (r: Vec<u8>)
    ensures
        r@ == sha256_of(data@),
        r@.len() == 32,
{
    sodiumoxide::crypto::hash::sha256::hash(data).0.to_vec()
}

/// Relies on `sodiumoxide::crypto::hash::sha512::hash`: it returns the
/// 64-byte SHA-512 digest of its input, depending on the input bytes
/// alone.
#[verifier::external_body]
pub(crate) fn sha512(data: &[u8]) -> (r: Vec<u8>)
    ensures
        r@ == sha512_of(data@),
        r@.len() == 64,
{
    sodiumoxide::crypto::hash::sha512::hash(data).0.to_vec()
}

} // verus!

use vstd::prelude::*;

use crate::error::ErrorKind;
use crate::multihash::{eq_bytes, MultiHash};
use crate::sha2::{sha256, sha256_of, sha512, sha512_of};
use crate::variant::MultiHashVariant;

verus! {

/// The outcome of holding a stored digest against a freshly computed
/// hash: equality with the same-length prefix of the hash, or
/// `DigestTooLong` when the stored digest is longer than the hash and
/// no prefix of that length exists.
pub open spec fn spec_validate(digest: Seq<u8>, hash: Seq<u8>) -> Result<bool, ErrorKind> {
    if digest.len() > hash.len() {
        Err(
            ErrorKind::DigestTooLong {
                length: digest.len() as usize,
                max_len: hash.len() as usize,
            },
        )
    } else {
        Ok(digest == hash.subrange(0, digest.len() as int))
    }
}

/// Prefix validation: any prefix of the recomputed hash — a truncated
/// digest — validates against that hash.
pub proof fn lemma_validate_prefix(hash: Seq<u8>, k: int)
    requires
        0 <= k <= hash.len(),
    ensures
        spec_validate(hash.subrange(0, k), hash) == Ok::<bool, ErrorKind>(true),
{
    let digest = hash.subrange(0, k);
    assert(digest =~= hash.subrange(0, digest.len() as int));
}

/// Prefix validation, the negative half: a digest that fits the hash
/// but differs from it in any single position fails the comparison.
pub proof fn lemma_validate_mismatch(digest: Seq<u8>, hash: Seq<u8>, j: int)
    requires
        digest.len() <= hash.len(),
        0 <= j < digest.len(),
        digest[j] != hash[j],
    ensures
        spec_validate(digest, hash) == Ok::<bool, ErrorKind>(false),
{
    assert(digest[j] != hash.subrange(0, digest.len() as int)[j]);
}

/// Compares a multihash's digest against the same-length prefix of a
/// recomputed hash.
pub fn validate_base(multihash: &MultiHash, hash: &[u8]) -> (r: Result<bool, ErrorKind>)
    ensures
        r == spec_validate(multihash.digest@, hash@),
{
    let len = multihash.len();
    if len > hash.len() {
        return Err(ErrorKind::DigestTooLong { length: len, max_len: hash.len() });
    }
    let prefix = vstd::slice::slice_subrange(hash, 0, len);
    Ok(eq_bytes(multihash.digest.as_slice(), prefix))
}

/// Validates the multihash's digest against the SHA-256 hash of
/// `data`.
pub fn validate_sha256(multihash: &MultiHash, data: &[u8]) -> (r: Option<Result<bool, ErrorKind>>)
    ensures
        r == Some(spec_validate(multihash.digest@, sha256_of(data@))),
{
    let hash = sha256(data);
    Some(validate_base(multihash, hash.as_slice()))
}

/// Validates the multihash's digest against the SHA-512 hash of
/// `data`.
pub fn validate_sha512(multihash: &MultiHash, data: &[u8]) -> (r: Option<Result<bool, ErrorKind>>)
    ensures
        r == Some(spec_validate(multihash.digest@, sha512_of(data@))),
{
    let hash = sha512(data);
    Some(validate_base(multihash, hash.as_slice()))
}

impl MultiHash {
    /// Recomputes the hash of `data` under this multihash's variant and
    /// compares the stored digest against a same-length prefix of it.
    /// Returns `None` — not an error — when no validator is bound to
    /// the variant, keeping "don't know" distinct from "mismatch".
    pub fn validate(&self, data: &[u8]) -> (r: Option<Result<bool, ErrorKind>>)
        ensures
            r == match self.variant {
                MultiHashVariant::Sha2_256 => Some(
                    spec_validate(self.digest@, sha256_of(data@)),
                ),
                MultiHashVariant::Sha2_512 => Some(
                    spec_validate(self.digest@, sha512_of(data@)),
                ),
                _ => None::<Result<bool, ErrorKind>>,
            },
    {
        match self.variant() {
            MultiHashVariant::Sha2_256 => validate_sha256(self, data),
            MultiHashVariant::Sha2_512 => validate_sha512(self, data),
            _ => None,
        }
    }
}

} // verus!

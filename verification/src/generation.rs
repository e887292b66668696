use vstd::prelude::*;

use crate::multihash::MultiHash;
use crate::sha2::{sha256, sha256_of, sha512, sha512_of};
use crate::variant::MultiHashVariant;

verus! {

/// Generate a SHA2-256 multihash for the given data: the full
/// native-length digest, wrapped through the validating constructor.
pub fn generate_sha256(data: &[u8]) -> (r: MultiHash)
    ensures
        r.variant == MultiHashVariant::Sha2_256,
        r.digest@ == sha256_of(data@),
        r.wf(),
{
    let digest = sha256(data);
    MultiHash::new(MultiHashVariant::Sha2_256, digest.as_slice()).unwrap()
}

/// Generate a SHA2-512 multihash for the given data: the full
/// native-length digest, wrapped through the validating constructor.
pub fn generate_sha512(data: &[u8]) -> (r: MultiHash)
    ensures
        r.variant == MultiHashVariant::Sha2_512,
        r.digest@ == sha512_of(data@),
        r.wf(),
{
    let digest = sha512(data);
    MultiHash::new(MultiHashVariant::Sha2_512, digest.as_slice()).unwrap()
}

/// The documented default variant used by `generate` for callers
/// indifferent to the algorithm choice.
pub const DEFAULT_GENERATION_VARIANT: MultiHashVariant = MultiHashVariant::Sha2_256;

/// Generate a multihash for the given data under an explicit variant,
/// or `None` when no generator is bound to that variant.
pub fn generate_with_variant(variant: MultiHashVariant, data: &[u8]) -> (r: Option<MultiHash>)
    ensures
        match variant {
            MultiHashVariant::Sha2_256 => r matches Some(m) && m.variant
                == MultiHashVariant::Sha2_256 && m.digest@ == sha256_of(data@) && m.wf(),
            MultiHashVariant::Sha2_512 => r matches Some(m) && m.variant
                == MultiHashVariant::Sha2_512 && m.digest@ == sha512_of(data@) && m.wf(),
            _ => r is None,
        },
{
    match variant {
        MultiHashVariant::Sha2_256 => Some(generate_sha256(data)),
        MultiHashVariant::Sha2_512 => Some(generate_sha512(data)),
        _ => None,
    }
}

/// Generate a multihash for the given data under the default variant,
/// `DEFAULT_GENERATION_VARIANT`.
pub fn generate(data: &[u8]) -> (r: MultiHash)
    ensures
        r.variant == DEFAULT_GENERATION_VARIANT,
        r.digest@ == sha256_of(data@),
        r.wf(),
{
    generate_sha256(data)
}

impl MultiHash {
    /// Generate a SHA2-256 multihash for the given data.
    pub fn generate_sha2_256(data: &[u8]) -> (r: MultiHash)
        ensures
            r.variant == MultiHashVariant::Sha2_256,
            r.digest@ == sha256_of(data@),
            r.wf(),
    {
        generate_sha256(data)
    }

    /// Generate a SHA2-512 multihash for the given data.
    pub fn generate_sha2_512(data: &[u8]) -> (r: MultiHash)
        ensures
            r.variant == MultiHashVariant::Sha2_512,
            r.digest@ == sha512_of(data@),
            r.wf(),
    {
        generate_sha512(data)
    }
}

} // verus!

use vstd::prelude::*;

verus! {

/// The Base58 text (Bitcoin alphabet) of a byte sequence: a pure
/// function of the bytes, computed by the linked `bs58` codec.
pub uninterp spec fn base58_of(bytes: Seq<u8>) -> Seq<char>;

/// The bytes a Base58 text (Bitcoin alphabet) denotes, or `None` when
/// the text is not valid Base58: a pure function of the text, computed
/// by the linked `bs58` codec.
pub uninterp spec fn base58_decoded(text: Seq<char>) -> Option<Seq<u8>>;

/// The error type of the linked `bs58` decoder.
#[verifier::external_type_specification]
#[verifier::external_body]
pub struct ExBs58DecodeFailure(bs58::decode::Error);

/// Relies on `bs58::encode` with its default Bitcoin alphabet: the
/// Base58 text of the input, depending on the input bytes alone.
#[verifier::external_body]
pub(crate) fn base58_encode(bytes: &[u8]) -> (r: String)
    ensures
        r@ == base58_of(bytes@),
{
    bs58::encode(bytes).into_string()
}

/// Relies on `bs58::decode` with its default Bitcoin alphabet: `Ok`
/// with the denoted bytes exactly on valid Base58 text, `Err` on any
/// other text, both depending on the text alone.
#[verifier::external_body]
pub(crate) fn base58_decode(text: &str) -> (r: Result<Vec<u8>, bs58::decode::Error>)
    ensures
        match r {
            Ok(v) => base58_decoded(text@) == Some(v@),
            Err(_) => base58_decoded(text@) is None,
        },
{
    bs58::decode(text).into_vec()
}

} // verus!

use vstd::prelude::*;

verus! {

/// Every way a multihash operation can fail.
///
/// Each fallible operation of this crate reports exactly one of these
/// kinds, so a caller can always tell apart a malformed code, an
/// over-long digest, and an ill-framed buffer.
#[derive(Clone, Copy, Debug, PartialEq, Eq, Structural)]
pub enum ErrorKind {
    /// The code is neither a documented hash code nor inside the
    /// application-specific range.
    UnknownCode {
        /// The offending code.
        code: usize,
    },
    /// The digest is longer than the variant allows.
    LengthTooLong {
        /// The offending digest length.
        length: usize,
        /// The maximum digest length of the variant.
        max_len: usize,
    },
    /// The input ended while a varint field or the digest was still
    /// being read.
    TruncatedInput,
    /// Strict whole-buffer decoding found a digest whose byte count
    /// differs from the declared length.
    TrailingOrMissingBytes {
        /// How many digest bytes the buffer actually holds.
        actual: usize,
        /// The length the buffer declares.
        declared: usize,
    },
    /// A varint field runs past the format's cap of ten bytes, or its
    /// value does not fit the platform's word.
    VarintTooLong,
    /// A digest handed to validation is longer than the recomputed
    /// native hash, so no prefix comparison is possible.
    DigestTooLong {
        /// The offending digest length.
        length: usize,
        /// The native output length of the algorithm.
        max_len: usize,
    },
    /// The text form is not valid Base58.
    TextDecode,
}

} // verus!

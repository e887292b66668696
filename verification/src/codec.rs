use vstd::prelude::*;

use crate::error::ErrorKind;
use crate::multihash::MultiHash;
use crate::variant::MultiHashVariant;
use crate::varint::{
    lemma_read_varint_encoding, lemma_take_varint_truncated, lemma_varint_bytes_continuation,
    lemma_varint_bytes_len, lemma_varint_len_max, read_varint, spec_read_varint, varint_bytes,
    varint_len, varint_size, write_varint,
};

verus! {

/// The wire form of a multihash: the variant's code as a minimal
/// varint, the digest length as a minimal varint, then the raw digest
/// bytes.
pub open spec fn spec_encoded(variant: MultiHashVariant, digest: Seq<u8>) -> Seq<u8> {
    varint_bytes(variant.spec_code() as nat) + varint_bytes(digest.len()) + digest
}

/// How many bytes the wire form of a multihash occupies.
pub open spec fn spec_output_len(variant: MultiHashVariant, digest: Seq<u8>) -> nat {
    varint_len(variant.spec_code() as nat) + varint_len(digest.len()) + digest.len()
}

/// Strict whole-buffer decoding of the wire form: the code varint,
/// then the length varint, then exactly that many digest bytes, with
/// nothing left over. Yields the variant and digest of the encoded
/// multihash, or the first error the fields give.
pub open spec fn spec_decoded(s: Seq<u8>) -> Result<(MultiHashVariant, Seq<u8>), ErrorKind> {
    match spec_read_varint(s) {
        Err(e) => Err(e),
        Ok((code, r1)) => match MultiHashVariant::spec_from_code(code as nat) {
            None => Err(ErrorKind::UnknownCode { code }),
            Some(v) => match spec_read_varint(r1) {
                Err(e) => Err(e),
                Ok((length, r2)) => if r2.len() != length {
                    Err(
                        ErrorKind::TrailingOrMissingBytes {
                            actual: r2.len() as usize,
                            declared: length,
                        },
                    )
                } else if length > v.spec_max_len() {
                    Err(ErrorKind::LengthTooLong { length, max_len: v.spec_max_len() })
                } else {
                    Ok((v, r2))
                },
            },
        },
    }
}

/// Round-trip: decoding the encoding of any well-formed multihash
/// yields back exactly its variant and digest.
pub proof fn lemma_round_trip(variant: MultiHashVariant, digest: Seq<u8>)
    requires
        variant.wf(),
        digest.len() <= variant.spec_max_len(),
    ensures
        spec_decoded(spec_encoded(variant, digest)) == Ok::<(MultiHashVariant, Seq<u8>), ErrorKind>(
            (variant, digest),
        ),
{
    let code = variant.spec_code();
    let length = digest.len() as usize;
    assert(spec_encoded(variant, digest) =~= varint_bytes(code as nat) + (varint_bytes(
        length as nat,
    ) + digest));
    lemma_read_varint_encoding(code, varint_bytes(length as nat) + digest);
    crate::variant::lemma_from_code_of_code(variant);
    lemma_read_varint_encoding(length, digest);
}

/// Length accuracy: the wire form is exactly as long as
/// `spec_output_len` reports.
pub proof fn lemma_encoded_len(variant: MultiHashVariant, digest: Seq<u8>)
    ensures
        spec_encoded(variant, digest).len() == spec_output_len(variant, digest),
{
    lemma_varint_bytes_len(variant.spec_code() as nat);
    lemma_varint_bytes_len(digest.len());
}

/// Unknown-code rejection: a buffer whose leading code varint denotes
/// a code outside the known and reserved ranges fails with
/// `UnknownCode`, whatever bytes follow the code field.
pub proof fn lemma_unknown_code(code: usize, rest: Seq<u8>)
    requires
        MultiHashVariant::spec_from_code(code as nat) is None,
    ensures
        spec_decoded(varint_bytes(code as nat) + rest) == Err::<
            (MultiHashVariant, Seq<u8>),
            ErrorKind,
        >(ErrorKind::UnknownCode { code }),
{
    lemma_read_varint_encoding(code, rest);
}

/// Truncated input: cutting the encoding of a well-formed multihash
/// short always fails — inside a varint field with `TruncatedInput`,
/// inside the digest with `TrailingOrMissingBytes`.
pub proof fn lemma_truncated_input(variant: MultiHashVariant, digest: Seq<u8>, j: int)
    requires
        variant.wf(),
        digest.len() <= variant.spec_max_len(),
        0 <= j < spec_encoded(variant, digest).len(),
    ensures
        ({
            let header = varint_len(variant.spec_code() as nat) + varint_len(digest.len());
            spec_decoded(spec_encoded(variant, digest).take(j)) == if j < header {
                Err::<(MultiHashVariant, Seq<u8>), ErrorKind>(ErrorKind::TruncatedInput)
            } else {
                Err::<(MultiHashVariant, Seq<u8>), ErrorKind>(
                    ErrorKind::TrailingOrMissingBytes {
                        actual: (j - header) as usize,
                        declared: digest.len() as usize,
                    },
                )
            }
        }),
{
    let code = variant.spec_code();
    let cn = code as nat;
    let ln = digest.len();
    let cl = varint_len(cn) as int;
    let ll = varint_len(ln) as int;
    let s = spec_encoded(variant, digest).take(j);
    lemma_varint_bytes_len(cn);
    lemma_varint_bytes_len(ln);
    lemma_varint_len_max(cn);
    lemma_varint_len_max(ln);
    if j < cl {
        assert(s =~= varint_bytes(cn).take(j));
        lemma_varint_bytes_continuation(cn);
        lemma_take_varint_truncated(s, 0);
    } else if j < cl + ll {
        let tail = varint_bytes(ln).take(j - cl);
        assert(s =~= varint_bytes(cn) + tail);
        lemma_read_varint_encoding(code, tail);
        crate::variant::lemma_from_code_of_code(variant);
        lemma_varint_bytes_continuation(ln);
        lemma_take_varint_truncated(tail, 0);
    } else {
        let d2 = digest.take(j - cl - ll);
        assert(s =~= varint_bytes(cn) + (varint_bytes(ln) + d2));
        lemma_read_varint_encoding(code, varint_bytes(ln) + d2);
        crate::variant::lemma_from_code_of_code(variant);
        lemma_read_varint_encoding(ln as usize, d2);
    }
}

/// Extra input: appending anything to the encoding of a well-formed
/// multihash fails with `TrailingOrMissingBytes`, carrying how many
/// digest bytes the buffer holds against the declared length.
pub proof fn lemma_trailing_bytes(variant: MultiHashVariant, digest: Seq<u8>, extra: Seq<u8>)
    requires
        variant.wf(),
        digest.len() <= variant.spec_max_len(),
        extra.len() >= 1,
        digest.len() + extra.len() <= usize::MAX,
    ensures
        spec_decoded(spec_encoded(variant, digest) + extra) == Err::<
            (MultiHashVariant, Seq<u8>),
            ErrorKind,
        >(
            ErrorKind::TrailingOrMissingBytes {
                actual: (digest.len() + extra.len()) as usize,
                declared: digest.len() as usize,
            },
        ),
{
    let code = variant.spec_code();
    let ln = digest.len();
    let s = spec_encoded(variant, digest) + extra;
    assert(s =~= varint_bytes(code as nat) + (varint_bytes(ln) + (digest + extra)));
    lemma_read_varint_encoding(code, varint_bytes(ln) + (digest + extra));
    crate::variant::lemma_from_code_of_code(variant);
    lemma_read_varint_encoding(ln as usize, digest + extra);
}

impl MultiHash {
    /// Parse a binary encoded multihash. The whole buffer must be one
    /// multihash: leftover or missing digest bytes are an error.
    pub fn from_bytes(bytes: &[u8]) -> (r: Result<MultiHash, ErrorKind>)
        ensures
            match spec_decoded(bytes@) {
                Ok((v, d)) => r matches Ok(m) && m.variant == v && m.digest@ == d && m.wf(),
                Err(e) => r == Err::<MultiHash, ErrorKind>(e),
            },
    {
        proof {
            assert(bytes@.skip(0) =~= bytes@);
        }
        let (code, after_code) = match read_varint(bytes, 0) {
            Ok(p) => p,
            Err(e) => {
                return Err(e);
            },
        };
        let variant = match MultiHashVariant::from_code(code) {
            Ok(v) => v,
            Err(e) => {
                return Err(e);
            },
        };
        let (length, after_len) = match read_varint(bytes, after_code) {
            Ok(p) => p,
            Err(e) => {
                return Err(e);
            },
        };
        let remaining = bytes.len() - after_len;
        if remaining != length {
            return Err(ErrorKind::TrailingOrMissingBytes { actual: remaining, declared: length });
        }
        if let Err(e) = variant.check_length(length) {
            return Err(e);
        }
        let digest = vstd::slice::slice_to_vec(
            vstd::slice::slice_subrange(bytes, after_len, bytes.len()),
        );
        proof {
            assert(bytes@.subrange(after_len as int, bytes@.len() as int) =~= bytes@.skip(
                after_len as int,
            ));
        }
        Ok(MultiHash { variant, digest })
    }

    /// Create a `Vec<u8>` with the binary encoding of this multihash.
    pub fn to_bytes(&self) -> (r: Vec<u8>)
        requires
            self.wf(),
        ensures
            r@ == spec_encoded(self.variant, self.digest@),
            r@.len() == spec_output_len(self.variant, self.digest@),
    {
        let mut bytes: Vec<u8> = Vec::new();
        write_varint(&mut bytes, self.variant.code());
        write_varint(&mut bytes, self.digest.len());
        bytes.extend_from_slice(self.digest.as_slice());
        proof {
            assert(bytes@ =~= spec_encoded(self.variant, self.digest@));
            lemma_encoded_len(self.variant, self.digest@);
        }
        bytes
    }

    /// The length this multihash will use when serialized to a byte
    /// array/stream.
    pub fn output_len(&self) -> (r: usize)
        requires
            self.wf(),
            spec_output_len(self.variant, self.digest@) <= usize::MAX,
        ensures
            r == spec_output_len(self.variant, self.digest@),
    {
        let code_len = varint_size(self.variant.code());
        let len_len = varint_size(self.digest.len());
        code_len + len_len + self.digest.len()
    }
}

} // verus!

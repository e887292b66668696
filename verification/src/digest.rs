use vstd::prelude::*;

use crate::multihash::eq_bytes;

verus! {

broadcast use vstd::array::group_array_axioms;

/// The first `l` items of `s`, clamped to the length of `s`.
pub open spec fn clamped_take(s: Seq<u8>, l: nat) -> Seq<u8> {
    if l <= s.len() {
        s.take(l as int)
    } else {
        s
    }
}

/// The digest value of the older single-byte revision of the format,
/// kept for callers of that revision: one fixed stack array per
/// algorithm plus the logical digest length, so no heap allocation is
/// needed; application-specific digests carry owned bytes. The wire
/// codec of this crate commits to the varint revision instead.
#[allow(non_camel_case_types)]
#[derive(Debug, Clone, Eq)]
pub enum Digest {
    /// A SHA-1 digest prefix and its length.
    Sha1([u8; 20], usize),
    /// A SHA2-256 digest prefix and its length.
    Sha2_256([u8; 32], usize),
    /// A SHA2-512 digest prefix and its length.
    Sha2_512([u8; 64], usize),
    /// A SHA3-512 digest prefix and its length.
    Sha3_512([u8; 64], usize),
    /// A SHA3-384 digest prefix and its length.
    Sha3_384([u8; 48], usize),
    /// A SHA3-256 digest prefix and its length.
    Sha3_256([u8; 32], usize),
    /// A SHA3-224 digest prefix and its length.
    Sha3_224([u8; 28], usize),
    /// A SHAKE-128 digest prefix and its length.
    Shake128([u8; 16], usize),
    /// A SHAKE-256 digest prefix and its length.
    Shake256([u8; 32], usize),
    /// A BLAKE2b digest prefix and its length.
    Blake2B([u8; 64], usize),
    /// A BLAKE2s digest prefix and its length.
    Blake2S([u8; 32], usize),
    /// An application-specific digest.
    ApplicationSpecific {
        /// The application-specific code, below `0x10`.
        code: u8,
        /// The digest bytes.
        bytes: Vec<u8>,
    },
}

impl Digest {
    /// The capacity of the arm's stored array; application-specific
    /// digests store exactly their bytes.
    pub open spec fn spec_capacity(self) -> nat {
        match self {
            Digest::Sha1(..) => 20,
            Digest::Sha2_256(..) => 32,
            Digest::Sha2_512(..) => 64,
            Digest::Sha3_512(..) => 64,
            Digest::Sha3_384(..) => 48,
            Digest::Sha3_256(..) => 32,
            Digest::Sha3_224(..) => 28,
            Digest::Shake128(..) => 16,
            Digest::Shake256(..) => 32,
            Digest::Blake2B(..) => 64,
            Digest::Blake2S(..) => 32,
            Digest::ApplicationSpecific { bytes, .. } => bytes@.len(),
        }
    }

    /// The logical length of the digest.
    pub open spec fn spec_len(self) -> nat {
        match self {
            Digest::Sha1(_, l) => l as nat,
            Digest::Sha2_256(_, l) => l as nat,
            Digest::Sha2_512(_, l) => l as nat,
            Digest::Sha3_512(_, l) => l as nat,
            Digest::Sha3_384(_, l) => l as nat,
            Digest::Sha3_256(_, l) => l as nat,
            Digest::Sha3_224(_, l) => l as nat,
            Digest::Shake128(_, l) => l as nat,
            Digest::Shake256(_, l) => l as nat,
            Digest::Blake2B(_, l) => l as nat,
            Digest::Blake2S(_, l) => l as nat,
            Digest::ApplicationSpecific { bytes, .. } => bytes@.len(),
        }
    }

    /// The single-byte code of the digest's algorithm.
    pub open spec fn spec_code(self) -> u8 {
        match self {
            Digest::Sha1(..) => 0x11,
            Digest::Sha2_256(..) => 0x12,
            Digest::Sha2_512(..) => 0x13,
            Digest::Sha3_512(..) => 0x14,
            Digest::Sha3_384(..) => 0x15,
            Digest::Sha3_256(..) => 0x16,
            Digest::Sha3_224(..) => 0x17,
            Digest::Shake128(..) => 0x18,
            Digest::Shake256(..) => 0x19,
            Digest::Blake2B(..) => 0x40,
            Digest::Blake2S(..) => 0x41,
            Digest::ApplicationSpecific { code, .. } => code,
        }
    }

    /// The canonical name of the digest's algorithm.
    pub open spec fn spec_name(self) -> Seq<char> {
        match self {
            Digest::Sha1(..) => "sha1"@,
            Digest::Sha2_256(..) => "sha2-256"@,
            Digest::Sha2_512(..) => "sha2-512"@,
            Digest::Sha3_512(..) => "sha3-512"@,
            Digest::Sha3_384(..) => "sha3-384"@,
            Digest::Sha3_256(..) => "sha3-256"@,
            Digest::Sha3_224(..) => "sha3-224"@,
            Digest::Shake128(..) => "shake-128"@,
            Digest::Shake256(..) => "shake-256"@,
            Digest::Blake2B(..) => "blake2b"@,
            Digest::Blake2S(..) => "blake2s"@,
            Digest::ApplicationSpecific { .. } => "app-specific"@,
        }
    }

    /// The digest bytes: the stored prefix of the arm's array, or the
    /// owned bytes of an application-specific digest.
    pub open spec fn spec_data(self) -> Seq<u8> {
        match self {
            Digest::Sha1(b, l) => clamped_take(b@, l as nat),
            Digest::Sha2_256(b, l) => clamped_take(b@, l as nat),
            Digest::Sha2_512(b, l) => clamped_take(b@, l as nat),
            Digest::Sha3_512(b, l) => clamped_take(b@, l as nat),
            Digest::Sha3_384(b, l) => clamped_take(b@, l as nat),
            Digest::Sha3_256(b, l) => clamped_take(b@, l as nat),
            Digest::Sha3_224(b, l) => clamped_take(b@, l as nat),
            Digest::Shake128(b, l) => clamped_take(b@, l as nat),
            Digest::Shake256(b, l) => clamped_take(b@, l as nat),
            Digest::Blake2B(b, l) => clamped_take(b@, l as nat),
            Digest::Blake2S(b, l) => clamped_take(b@, l as nat),
            Digest::ApplicationSpecific { bytes, .. } => bytes@,
        }
    }

    /// Well-formedness: the logical length fits the arm's capacity,
    /// and an application-specific digest carries a code below `0x10`
    /// and fewer than `0x7f` bytes.
    pub open spec fn wf(self) -> bool {
        &&& self.spec_len() <= self.spec_capacity()
        &&& (self matches Digest::ApplicationSpecific { code, bytes } ==> code < 0x10
            && bytes@.len() < 0x7f)
    }

    /// Which `(code, length)` pairs `from_code_and_length` accepts: a
    /// documented code with a length up to its native size, or an
    /// application-specific code below `0x10` with a length below
    /// `0x7f`.
    pub open spec fn accepts(code: u8, length: nat) -> bool {
        ||| (code == 0x11 && length <= 20)
        ||| (code == 0x12 && length <= 32)
        ||| (code == 0x13 && length <= 64)
        ||| (code == 0x14 && length <= 64)
        ||| (code == 0x15 && length <= 48)
        ||| (code == 0x16 && length <= 32)
        ||| (code == 0x17 && length <= 28)
        ||| (code == 0x18 && length <= 16)
        ||| (code == 0x19 && length <= 32)
        ||| (code == 0x40 && length <= 64)
        ||| (code == 0x41 && length <= 32)
        ||| (code < 0x10 && length < 0x7f)
    }

    /// Returns an all-zero digest of the specified type; validates the
    /// code and the length.
    pub fn from_code_and_length(code: u8, length: usize) -> (r: Result<Digest, &'static str>)
        ensures
            Digest::accepts(code, length as nat) ==> (r matches Ok(d) && d.wf()
                && d.spec_code() == code && d.spec_len() == length && d.spec_data().len()
                == length && (forall|i: int| 0 <= i < length ==> d.spec_data()[i] == 0u8)),
            !Digest::accepts(code, length as nat) && code > 0x7f ==> (r matches Err(m) && m@
                == "Codes greater than 0x7f are an unsupported future feature"@),
            !Digest::accepts(code, length as nat) && code <= 0x7f ==> (r matches Err(m) && m@
                == "Digest length exceeds allowed length for specified type"@),
    {
        match code {
            0x11 if length <= 20 => Ok(Digest::Sha1([0; 20], length)),
            0x12 if length <= 32 => Ok(Digest::Sha2_256([0; 32], length)),
            0x13 if length <= 64 => Ok(Digest::Sha2_512([0; 64], length)),
            0x14 if length <= 64 => Ok(Digest::Sha3_512([0; 64], length)),
            0x15 if length <= 48 => Ok(Digest::Sha3_384([0; 48], length)),
            0x16 if length <= 32 => Ok(Digest::Sha3_256([0; 32], length)),
            0x17 if length <= 28 => Ok(Digest::Sha3_224([0; 28], length)),
            0x18 if length <= 16 => Ok(Digest::Shake128([0; 16], length)),
            0x19 if length <= 32 => Ok(Digest::Shake256([0; 32], length)),
            0x40 if length <= 64 => Ok(Digest::Blake2B([0; 64], length)),
            0x41 if length <= 32 => Ok(Digest::Blake2S([0; 32], length)),
            _ if code < 0x10 && length < 0x7f => Ok(
                Digest::ApplicationSpecific { code, bytes: vec![0u8; length] },
            ),
            _ if code > 0x7f => Err("Codes greater than 0x7f are an unsupported future feature"),
            _ => Err("Digest length exceeds allowed length for specified type"),
        }
    }

    /// The logical length of this digest.
    pub fn len(&self) -> (r: usize)
        ensures
            r == self.spec_len(),
    {
        match self {
            Digest::Sha1(_, l) => *l,
            Digest::Sha2_256(_, l) => *l,
            Digest::Sha2_512(_, l) => *l,
            Digest::Sha3_512(_, l) => *l,
            Digest::Sha3_384(_, l) => *l,
            Digest::Sha3_256(_, l) => *l,
            Digest::Sha3_224(_, l) => *l,
            Digest::Shake128(_, l) => *l,
            Digest::Shake256(_, l) => *l,
            Digest::Blake2B(_, l) => *l,
            Digest::Blake2S(_, l) => *l,
            Digest::ApplicationSpecific { bytes, .. } => bytes.len(),
        }
    }

    /// The single-byte code of this digest's algorithm.
    pub fn code(&self) -> (r: u8)
        requires
            self.wf(),
        ensures
            r == self.spec_code(),
    {
        match self {
            Digest::Sha1(..) => 0x11,
            Digest::Sha2_256(..) => 0x12,
            Digest::Sha2_512(..) => 0x13,
            Digest::Sha3_512(..) => 0x14,
            Digest::Sha3_384(..) => 0x15,
            Digest::Sha3_256(..) => 0x16,
            Digest::Sha3_224(..) => 0x17,
            Digest::Shake128(..) => 0x18,
            Digest::Shake256(..) => 0x19,
            Digest::Blake2B(..) => 0x40,
            Digest::Blake2S(..) => 0x41,
            Digest::ApplicationSpecific { code, .. } => *code,
        }
    }

    /// The canonical name of this digest's algorithm.
    pub fn name(&self) -> (r: &'static str)
        requires
            self.wf(),
        ensures
            r@ == self.spec_name(),
    {
        match self {
            Digest::Sha1(..) => "sha1",
            Digest::Sha2_256(..) => "sha2-256",
            Digest::Sha2_512(..) => "sha2-512",
            Digest::Sha3_512(..) => "sha3-512",
            Digest::Sha3_384(..) => "sha3-384",
            Digest::Sha3_256(..) => "sha3-256",
            Digest::Sha3_224(..) => "sha3-224",
            Digest::Shake128(..) => "shake-128",
            Digest::Shake256(..) => "shake-256",
            Digest::Blake2B(..) => "blake2b",
            Digest::Blake2S(..) => "blake2s",
            Digest::ApplicationSpecific { .. } => "app-specific",
        }
    }

    /// A copy of the digest bytes.
    pub fn digest_bytes(&self) -> (r: Vec<u8>)
        ensures
            r@ == self.spec_data(),
    {
        match self {
            Digest::Sha1(b, l) => prefix_vec(b.as_slice(), *l),
            Digest::Sha2_256(b, l) => prefix_vec(b.as_slice(), *l),
            Digest::Sha2_512(b, l) => prefix_vec(b.as_slice(), *l),
            Digest::Sha3_512(b, l) => prefix_vec(b.as_slice(), *l),
            Digest::Sha3_384(b, l) => prefix_vec(b.as_slice(), *l),
            Digest::Sha3_256(b, l) => prefix_vec(b.as_slice(), *l),
            Digest::Sha3_224(b, l) => prefix_vec(b.as_slice(), *l),
            Digest::Shake128(b, l) => prefix_vec(b.as_slice(), *l),
            Digest::Shake256(b, l) => prefix_vec(b.as_slice(), *l),
            Digest::Blake2B(b, l) => prefix_vec(b.as_slice(), *l),
            Digest::Blake2S(b, l) => prefix_vec(b.as_slice(), *l),
            Digest::ApplicationSpecific { bytes, .. } => vstd::slice::slice_to_vec(
                bytes.as_slice(),
            ),
        }
    }
}

/// A copy of the first `l` bytes of `a`, clamped to its length.
fn prefix_vec(a: &[u8], l: usize) -> (r: Vec<u8>)
    ensures
        r@ == clamped_take(a@, l as nat),
{
    let end = if l > a.len() {
        a.len()
    } else {
        l
    };
    let r = vstd::slice::slice_to_vec(vstd::slice::slice_subrange(a, 0, end));
    proof {
        assert(r@ =~= clamped_take(a@, l as nat));
    }
    r
}

/// Whether the first `la` bytes of `a` and the first `lb` bytes of `b`
/// are the same prefix: the lengths agree and so do the stored bytes,
/// clamped to the arrays' capacity.
fn prefix_eq(a: &[u8], b: &[u8], la: usize, lb: usize) -> (r: bool)
    requires
        a@.len() == b@.len(),
    ensures
        r == (la == lb && clamped_take(a@, la as nat) == clamped_take(b@, lb as nat)),
{
    if la != lb {
        return false;
    }
    let end = if la > a.len() {
        a.len()
    } else {
        la
    };
    let r = eq_bytes(
        vstd::slice::slice_subrange(a, 0, end),
        vstd::slice::slice_subrange(b, 0, end),
    );
    proof {
        assert(a@.subrange(0, end as int) =~= clamped_take(a@, la as nat));
        assert(b@.subrange(0, end as int) =~= clamped_take(b@, lb as nat));
    }
    r
}

impl PartialEq for Digest {
    /// Two digests are equal when they are of the same kind and hold
    /// the same prefix: the lengths agree and so do the stored bytes.
    fn eq(&self, other: &Digest) -> (r: bool) {
        match (self, other) {
            (Digest::Sha1(a, la), Digest::Sha1(b, lb)) => prefix_eq(
                a.as_slice(),
                b.as_slice(),
                *la,
                *lb,
            ),
            (Digest::Sha2_256(a, la), Digest::Sha2_256(b, lb)) => prefix_eq(
                a.as_slice(),
                b.as_slice(),
                *la,
                *lb,
            ),
            (Digest::Sha2_512(a, la), Digest::Sha2_512(b, lb)) => prefix_eq(
                a.as_slice(),
                b.as_slice(),
                *la,
                *lb,
            ),
            (Digest::Sha3_512(a, la), Digest::Sha3_512(b, lb)) => prefix_eq(
                a.as_slice(),
                b.as_slice(),
                *la,
                *lb,
            ),
            (Digest::Sha3_384(a, la), Digest::Sha3_384(b, lb)) => prefix_eq(
                a.as_slice(),
                b.as_slice(),
                *la,
                *lb,
            ),
            (Digest::Sha3_256(a, la), Digest::Sha3_256(b, lb)) => prefix_eq(
                a.as_slice(),
                b.as_slice(),
                *la,
                *lb,
            ),
            (Digest::Sha3_224(a, la), Digest::Sha3_224(b, lb)) => prefix_eq(
                a.as_slice(),
                b.as_slice(),
                *la,
                *lb,
            ),
            (Digest::Shake128(a, la), Digest::Shake128(b, lb)) => prefix_eq(
                a.as_slice(),
                b.as_slice(),
                *la,
                *lb,
            ),
            (Digest::Shake256(a, la), Digest::Shake256(b, lb)) => prefix_eq(
                a.as_slice(),
                b.as_slice(),
                *la,
                *lb,
            ),
            (Digest::Blake2B(a, la), Digest::Blake2B(b, lb)) => prefix_eq(
                a.as_slice(),
                b.as_slice(),
                *la,
                *lb,
            ),
            (Digest::Blake2S(a, la), Digest::Blake2S(b, lb)) => prefix_eq(
                a.as_slice(),
                b.as_slice(),
                *la,
                *lb,
            ),
            (
                Digest::ApplicationSpecific { code: ca, bytes: ba },
                Digest::ApplicationSpecific { code: cb, bytes: bb },
            ) => *ca == *cb && eq_bytes(ba.as_slice(), bb.as_slice()),
            _ => false,
        }
    }
}

impl vstd::std_specs::cmp::PartialEqSpecImpl for Digest {
    open spec fn obeys_eq_spec() -> bool {
        true
    }

    open spec fn eq_spec(&self, other: &Digest) -> bool {
        match (*self, *other) {
            (Digest::Sha1(a, la), Digest::Sha1(b, lb)) => la == lb && clamped_take(a@, la as nat)
                == clamped_take(b@, lb as nat),
            (Digest::Sha2_256(a, la), Digest::Sha2_256(b, lb)) => la == lb && clamped_take(
                a@,
                la as nat,
            ) == clamped_take(b@, lb as nat),
            (Digest::Sha2_512(a, la), Digest::Sha2_512(b, lb)) => la == lb && clamped_take(
                a@,
                la as nat,
            ) == clamped_take(b@, lb as nat),
            (Digest::Sha3_512(a, la), Digest::Sha3_512(b, lb)) => la == lb && clamped_take(
                a@,
                la as nat,
            ) == clamped_take(b@, lb as nat),
            (Digest::Sha3_384(a, la), Digest::Sha3_384(b, lb)) => la == lb && clamped_take(
                a@,
                la as nat,
            ) == clamped_take(b@, lb as nat),
            (Digest::Sha3_256(a, la), Digest::Sha3_256(b, lb)) => la == lb && clamped_take(
                a@,
                la as nat,
            ) == clamped_take(b@, lb as nat),
            (Digest::Sha3_224(a, la), Digest::Sha3_224(b, lb)) => la == lb && clamped_take(
                a@,
                la as nat,
            ) == clamped_take(b@, lb as nat),
            (Digest::Shake128(a, la), Digest::Shake128(b, lb)) => la == lb && clamped_take(
                a@,
                la as nat,
            ) == clamped_take(b@, lb as nat),
            (Digest::Shake256(a, la), Digest::Shake256(b, lb)) => la == lb && clamped_take(
                a@,
                la as nat,
            ) == clamped_take(b@, lb as nat),
            (Digest::Blake2B(a, la), Digest::Blake2B(b, lb)) => la == lb && clamped_take(
                a@,
                la as nat,
            ) == clamped_take(b@, lb as nat),
            (Digest::Blake2S(a, la), Digest::Blake2S(b, lb)) => la == lb && clamped_take(
                a@,
                la as nat,
            ) == clamped_take(b@, lb as nat),
            (
                Digest::ApplicationSpecific { code: ca, bytes: ba },
                Digest::ApplicationSpecific { code: cb, bytes: bb },
            ) => ca == cb && ba@ == bb@,
            _ => false,
        }
    }
}

} // verus!

use vstd::prelude::*;

use crate::error::ErrorKind;
use crate::variant::{MultiHashVariant, APP_CODE_MIN, APP_CODE_MAX};

verus! {

/// A decoded multihash: a hash variant together with the digest bytes.
///
/// The invariant `wf` — the variant's code lies in its allowed range
/// and the digest is no longer than the variant's maximum — holds of
/// every value built by `new`, `new_with_code`, `from_bytes` or the
/// generation functions: all of them funnel through the same checks.
#[derive(Debug, Clone, Hash, Eq)]
pub struct MultiHash {
    /// This multihash's variant.
    pub variant: MultiHashVariant,
    /// The digest bytes.
    pub digest: Vec<u8>,
}

/// Whether two byte slices hold the same bytes.
pub(crate) fn eq_bytes(a: &[u8], b: &[u8]) -> (r: bool)
    ensures
        r == (a@ == b@),
{
    if a.len() != b.len() {
        proof {
            assert(a@ != b@);
        }
        return false;
    }
    let n = a.len();
    let mut i: usize = 0;
    while i < n
        invariant
            n == a@.len() == b@.len(),
            i <= n,
            forall|j: int| 0 <= j < i ==> a@[j] == b@[j],
        decreases n - i,
    {
        if a[i] != b[i] {
            return false;
        }
        i = i + 1;
    }
    proof {
        assert(a@ =~= b@);
    }
    true
}

impl MultiHash {
    /// The well-formedness invariant: the variant is well formed and
    /// the digest fits its maximum length.
    pub open spec fn wf(self) -> bool {
        self.variant.wf() && self.digest@.len() <= self.variant.spec_max_len()
    }

    /// Create a new multihash with the specified variant and digest.
    /// Validates that an application-specific code lies in the reserved
    /// range and that the length of the digest is consistent with the
    /// multihash variant.
    pub fn new(variant: MultiHashVariant, digest: &[u8]) -> (r: Result<MultiHash, ErrorKind>)
        ensures
            if !variant.wf() {
                r == Err::<MultiHash, ErrorKind>(ErrorKind::UnknownCode { code: variant.spec_code() })
            } else if digest@.len() > variant.spec_max_len() {
                r == Err::<MultiHash, ErrorKind>(
                    ErrorKind::LengthTooLong {
                        length: digest@.len() as usize,
                        max_len: variant.spec_max_len(),
                    },
                )
            } else {
                r matches Ok(m) && m.variant == variant && m.digest@ == digest@ && m.wf()
            },
    {
        if let MultiHashVariant::ApplicationSpecific { code } = variant {
            if !(APP_CODE_MIN <= code && code <= APP_CODE_MAX) {
                return Err(ErrorKind::UnknownCode { code });
            }
        }
        match variant.check_length(digest.len()) {
            Ok(()) => Ok(MultiHash { variant, digest: vstd::slice::slice_to_vec(digest) }),
            Err(e) => Err(e),
        }
    }

    /// Create a new multihash with the specified code and digest.
    /// Validates that the code is known or an application-specific
    /// variant, and that the length of the digest is consistent with
    /// the multihash variant the code refers to.
    pub fn new_with_code(code: usize, digest: &[u8]) -> (r: Result<MultiHash, ErrorKind>)
        ensures
            match MultiHashVariant::spec_from_code(code as nat) {
                None => r == Err::<MultiHash, ErrorKind>(ErrorKind::UnknownCode { code }),
                Some(v) => if digest@.len() > v.spec_max_len() {
                    r == Err::<MultiHash, ErrorKind>(
                        ErrorKind::LengthTooLong {
                            length: digest@.len() as usize,
                            max_len: v.spec_max_len(),
                        },
                    )
                } else {
                    r matches Ok(m) && m.variant == v && m.digest@ == digest@ && m.wf()
                },
            },
    {
        let variant = match MultiHashVariant::from_code(code) {
            Ok(v) => v,
            Err(e) => {
                return Err(e);
            },
        };
        MultiHash::new(variant, digest)
    }

    /// The length of this multihash's digest.
    pub fn len(&self) -> (r: usize)
        ensures
            r == self.digest@.len(),
    {
        self.digest.len()
    }

    /// This multihash's variant.
    pub fn variant(&self) -> (r: MultiHashVariant)
        ensures
            r == self.variant,
    {
        self.variant
    }

    /// The code specifying this multihash variant.
    pub fn code(&self) -> (r: usize)
        requires
            self.wf(),
        ensures
            r == self.variant.spec_code(),
    {
        self.variant.code()
    }

    /// The string representation of this multihash type.
    pub fn name(&self) -> (r: &'static str)
        requires
            self.wf(),
        ensures
            r@ == self.variant.spec_name(),
    {
        self.variant.name()
    }

    /// A reference to the bytes making up the digest of this multihash.
    pub fn digest(&self) -> (r: &[u8])
        ensures
            r@ == self.digest@,
    {
        self.digest.as_slice()
    }
}

impl PartialEq for MultiHash {
    /// Two multihashes are equal when both the variant and the digest
    /// bytes — length included — coincide.
    fn eq(&self, other: &MultiHash) -> (r: bool) {
        let same_variant = self.variant == other.variant;
        let same_digest = eq_bytes(self.digest.as_slice(), other.digest.as_slice());
        same_variant && same_digest
    }
}

impl vstd::std_specs::cmp::PartialEqSpecImpl for MultiHash {
    open spec fn obeys_eq_spec() -> bool {
        true
    }

    open spec fn eq_spec(&self, other: &MultiHash) -> bool {
        self.variant == other.variant && self.digest@ == other.digest@
    }
}

} // verus!

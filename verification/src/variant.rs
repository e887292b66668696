use vstd::prelude::*;

use crate::error::ErrorKind;

verus! {

/// Lowest code of the application-specific range.
pub const APP_CODE_MIN: usize = 0x0400;

/// Highest code of the application-specific range.
pub const APP_CODE_MAX: usize = 0x040f;

/// The recognized multihash variants.
///
/// Twelve documented codes map one-to-one to known algorithms; the
/// varint range `[0x0400, 0x040f]` (inclusive on both ends) is reserved
/// for application-specific digests. This crate commits to that varint
/// revision of the format: codes are open-ended varints, not fixed
/// single bytes.
#[allow(non_camel_case_types)]
#[derive(Clone, Copy, Debug, PartialEq, Eq, Hash, Structural)]
pub enum MultiHashVariant {
    /// A straight copy (or prefix) of the data supposedly hashed.
    Identity,
    /// A 160-bit SHA-1 digest.
    Sha1,
    /// A 256-bit SHA-2 digest.
    Sha2_256,
    /// A 512-bit SHA-2 digest.
    Sha2_512,
    /// A 512-bit SHA-3 digest.
    Sha3_512,
    /// A 384-bit SHA-3 digest.
    Sha3_384,
    /// A 256-bit SHA-3 digest.
    Sha3_256,
    /// A 224-bit SHA-3 digest.
    Sha3_224,
    /// A variable size SHAKE-128 digest.
    Shake128,
    /// A variable size SHAKE-256 digest.
    Shake256,
    /// A 512-bit BLAKE2b digest.
    Blake2B,
    /// A 256-bit BLAKE2s digest.
    Blake2S,
    /// An application-specific variant; the code must lie in
    /// `[APP_CODE_MIN, APP_CODE_MAX]`.
    ApplicationSpecific {
        /// The application-specific code of this variant.
        code: usize,
    },
}

impl MultiHashVariant {
    /// A variant is well formed when an application-specific code lies
    /// inside the reserved range; every named variant is well formed.
    pub open spec fn wf(self) -> bool {
        match self {
            MultiHashVariant::ApplicationSpecific { code } =>
                APP_CODE_MIN <= code <= APP_CODE_MAX,
            _ => true,
        }
    }

    /// The numeric code of this variant on the wire.
    pub open spec fn spec_code(self) -> usize {
        match self {
            MultiHashVariant::Identity => 0x00,
            MultiHashVariant::Sha1 => 0x11,
            MultiHashVariant::Sha2_256 => 0x12,
            MultiHashVariant::Sha2_512 => 0x13,
            MultiHashVariant::Sha3_512 => 0x14,
            MultiHashVariant::Sha3_384 => 0x15,
            MultiHashVariant::Sha3_256 => 0x16,
            MultiHashVariant::Sha3_224 => 0x17,
            MultiHashVariant::Shake128 => 0x18,
            MultiHashVariant::Shake256 => 0x19,
            MultiHashVariant::Blake2B => 0x40,
            MultiHashVariant::Blake2S => 0x41,
            MultiHashVariant::ApplicationSpecific { code } => code,
        }
    }

    /// The maximum digest length of this variant. Variants without a
    /// fixed output size allow any length the machine can hold.
    pub open spec fn spec_max_len(self) -> usize {
        match self {
            MultiHashVariant::Identity => usize::MAX,
            MultiHashVariant::Sha1 => 20,
            MultiHashVariant::Sha2_256 => 32,
            MultiHashVariant::Sha2_512 => 64,
            MultiHashVariant::Sha3_512 => 64,
            MultiHashVariant::Sha3_384 => 48,
            MultiHashVariant::Sha3_256 => 32,
            MultiHashVariant::Sha3_224 => 28,
            MultiHashVariant::Shake128 => usize::MAX,
            MultiHashVariant::Shake256 => usize::MAX,
            MultiHashVariant::Blake2B => 64,
            MultiHashVariant::Blake2S => 32,
            MultiHashVariant::ApplicationSpecific { .. } => usize::MAX,
        }
    }

    /// The canonical name of this variant.
    pub open spec fn spec_name(self) -> Seq<char> {
        match self {
            MultiHashVariant::Identity => "identity"@,
            MultiHashVariant::Sha1 => "sha1"@,
            MultiHashVariant::Sha2_256 => "sha2-256"@,
            MultiHashVariant::Sha2_512 => "sha2-512"@,
            MultiHashVariant::Sha3_512 => "sha3-512"@,
            MultiHashVariant::Sha3_384 => "sha3-384"@,
            MultiHashVariant::Sha3_256 => "sha3-256"@,
            MultiHashVariant::Sha3_224 => "sha3-224"@,
            MultiHashVariant::Shake128 => "shake-128"@,
            MultiHashVariant::Shake256 => "shake-256"@,
            MultiHashVariant::Blake2B => "blake2b"@,
            MultiHashVariant::Blake2S => "blake2s"@,
            MultiHashVariant::ApplicationSpecific { .. } => "app-specific"@,
        }
    }

    /// The variant a numeric code refers to, or `None` when the code is
    /// neither documented nor inside the application-specific range.
    pub open spec fn spec_from_code(code: nat) -> Option<MultiHashVariant> {
        if code == 0x00 {
            Some(MultiHashVariant::Identity)
        } else if code == 0x11 {
            Some(MultiHashVariant::Sha1)
        } else if code == 0x12 {
            Some(MultiHashVariant::Sha2_256)
        } else if code == 0x13 {
            Some(MultiHashVariant::Sha2_512)
        } else if code == 0x14 {
            Some(MultiHashVariant::Sha3_512)
        } else if code == 0x15 {
            Some(MultiHashVariant::Sha3_384)
        } else if code == 0x16 {
            Some(MultiHashVariant::Sha3_256)
        } else if code == 0x17 {
            Some(MultiHashVariant::Sha3_224)
        } else if code == 0x18 {
            Some(MultiHashVariant::Shake128)
        } else if code == 0x19 {
            Some(MultiHashVariant::Shake256)
        } else if code == 0x40 {
            Some(MultiHashVariant::Blake2B)
        } else if code == 0x41 {
            Some(MultiHashVariant::Blake2S)
        } else if APP_CODE_MIN <= code <= APP_CODE_MAX {
            Some(MultiHashVariant::ApplicationSpecific { code: code as usize })
        } else {
            None
        }
    }

    /// Returns the multihash variant that the given code refers to, and
    /// validates that the code is known or an application-specific
    /// variant.
    pub fn from_code(code: usize) -> (r: Result<MultiHashVariant, ErrorKind>)
        ensures
            r == match MultiHashVariant::spec_from_code(code as nat) {
                Some(v) => Ok::<MultiHashVariant, ErrorKind>(v),
                None => Err::<MultiHashVariant, ErrorKind>(ErrorKind::UnknownCode { code }),
            },
    {
        match code {
            0x00 => Ok(MultiHashVariant::Identity),
            0x11 => Ok(MultiHashVariant::Sha1),
            0x12 => Ok(MultiHashVariant::Sha2_256),
            0x13 => Ok(MultiHashVariant::Sha2_512),
            0x14 => Ok(MultiHashVariant::Sha3_512),
            0x15 => Ok(MultiHashVariant::Sha3_384),
            0x16 => Ok(MultiHashVariant::Sha3_256),
            0x17 => Ok(MultiHashVariant::Sha3_224),
            0x18 => Ok(MultiHashVariant::Shake128),
            0x19 => Ok(MultiHashVariant::Shake256),
            0x40 => Ok(MultiHashVariant::Blake2B),
            0x41 => Ok(MultiHashVariant::Blake2S),
            _ => {
                if APP_CODE_MIN <= code && code <= APP_CODE_MAX {
                    Ok(MultiHashVariant::ApplicationSpecific { code })
                } else {
                    Err(ErrorKind::UnknownCode { code })
                }
            },
        }
    }

    /// Returns the multihash variant that the given code refers to, and
    /// validates both the code and that the length is consistent with
    /// that variant.
    pub fn from_code_and_length(code: usize, length: usize) -> (r: Result<
        MultiHashVariant,
        ErrorKind,
    >)
        ensures
            r == match MultiHashVariant::spec_from_code(code as nat) {
                Some(v) => if length > v.spec_max_len() {
                    Err::<MultiHashVariant, ErrorKind>(
                        ErrorKind::LengthTooLong { length, max_len: v.spec_max_len() },
                    )
                } else {
                    Ok::<MultiHashVariant, ErrorKind>(v)
                },
                None => Err::<MultiHashVariant, ErrorKind>(ErrorKind::UnknownCode { code }),
            },
    {
        let variant = MultiHashVariant::from_code(code)?;
        match variant.check_length(length) {
            Ok(()) => Ok(variant),
            Err(e) => Err(e),
        }
    }

    /// Validates that the length is consistent with this multihash
    /// variant.
    pub fn check_length(self, length: usize) -> (r: Result<(), ErrorKind>)
        ensures
            r == if length > self.spec_max_len() {
                Err::<(), ErrorKind>(ErrorKind::LengthTooLong { length, max_len: self.spec_max_len() })
            } else {
                Ok::<(), ErrorKind>(())
            },
    {
        let max = self.max_len();
        if length > max {
            Err(ErrorKind::LengthTooLong { length, max_len: max })
        } else {
            Ok(())
        }
    }

    /// The maximum digest length allowed for this multihash variant.
    pub fn max_len(self) -> (r: usize)
        ensures
            r == self.spec_max_len(),
    {
        match self {
            MultiHashVariant::Identity => usize::MAX,
            MultiHashVariant::Sha1 => 20,
            MultiHashVariant::Sha2_256 => 32,
            MultiHashVariant::Sha2_512 => 64,
            MultiHashVariant::Sha3_512 => 64,
            MultiHashVariant::Sha3_384 => 48,
            MultiHashVariant::Sha3_256 => 32,
            MultiHashVariant::Sha3_224 => 28,
            MultiHashVariant::Shake128 => usize::MAX,
            MultiHashVariant::Shake256 => usize::MAX,
            MultiHashVariant::Blake2B => 64,
            MultiHashVariant::Blake2S => 32,
            MultiHashVariant::ApplicationSpecific { .. } => usize::MAX,
        }
    }

    /// The code specifying this multihash variant.
    pub fn code(self) -> (r: usize)
        requires
            self.wf(),
        ensures
            r == self.spec_code(),
    {
        match self {
            MultiHashVariant::Identity => 0x00,
            MultiHashVariant::Sha1 => 0x11,
            MultiHashVariant::Sha2_256 => 0x12,
            MultiHashVariant::Sha2_512 => 0x13,
            MultiHashVariant::Sha3_512 => 0x14,
            MultiHashVariant::Sha3_384 => 0x15,
            MultiHashVariant::Sha3_256 => 0x16,
            MultiHashVariant::Sha3_224 => 0x17,
            MultiHashVariant::Shake128 => 0x18,
            MultiHashVariant::Shake256 => 0x19,
            MultiHashVariant::Blake2B => 0x40,
            MultiHashVariant::Blake2S => 0x41,
            MultiHashVariant::ApplicationSpecific { code } => code,
        }
    }

    /// The string representation of this multihash type.
    pub fn name(self) -> (r: &'static str)
        requires
            self.wf(),
        ensures
            r@ == self.spec_name(),
    {
        match self {
            MultiHashVariant::Identity => "identity",
            MultiHashVariant::Sha1 => "sha1",
            MultiHashVariant::Sha2_256 => "sha2-256",
            MultiHashVariant::Sha2_512 => "sha2-512",
            MultiHashVariant::Sha3_512 => "sha3-512",
            MultiHashVariant::Sha3_384 => "sha3-384",
            MultiHashVariant::Sha3_256 => "sha3-256",
            MultiHashVariant::Sha3_224 => "sha3-224",
            MultiHashVariant::Shake128 => "shake-128",
            MultiHashVariant::Shake256 => "shake-256",
            MultiHashVariant::Blake2B => "blake2b",
            MultiHashVariant::Blake2S => "blake2s",
            MultiHashVariant::ApplicationSpecific { .. } => "app-specific",
        }
    }
}

/// Looking a well-formed variant's own code back up yields that same
/// variant: the code is a faithful identity for the variant.
pub proof fn lemma_from_code_of_code(v: MultiHashVariant)
    requires
        v.wf(),
    ensures
        MultiHashVariant::spec_from_code(v.spec_code() as nat) == Some(v),
{
}

} // verus!

use vstd::prelude::*;
use vstd::string::StringExecFns;

verus! {

/// The block sizes the single-byte code table distinguishes.
#[derive(Debug, Copy, Clone, Eq, PartialEq, Hash, Structural)]
pub enum BlockSize {
    /// 128 bits.
    S128,
    /// 224 bits.
    S224,
    /// 256 bits.
    S256,
    /// 384 bits.
    S384,
    /// 512 bits.
    S512,
}

/// The SHA family members of the single-byte code table.
#[derive(Debug, Copy, Clone, Eq, PartialEq, Hash, Structural)]
pub enum ShaVariant {
    /// SHA-1.
    Sha1,
    /// SHA-2 with the given block size.
    Sha2(BlockSize),
    /// SHA-3 with the given block size.
    Sha3(BlockSize),
    /// SHAKE with the given block size.
    Shake(BlockSize),
    /// A code of the range reserved for SHA standard functions that
    /// maps to no documented member.
    UnknownSha(u8),
}

/// The BLAKE2 family members of the single-byte code table.
#[derive(Debug, Copy, Clone, Eq, PartialEq, Hash, Structural)]
pub enum Blake2Variant {
    /// BLAKE2b.
    B,
    /// BLAKE2s.
    S,
}

/// One entry of the older single-byte code table of the format, kept
/// for callers of that revision: every code is one byte below `0x7f`,
/// and the application-specific range sits at the low end, below
/// `0x0f`. The wire codec of this crate commits to the varint revision
/// instead; the two are not wire-compatible.
#[derive(Debug, Copy, Clone, Eq, PartialEq, Hash, Structural)]
pub enum Code {
    /// A SHA family function.
    Sha(ShaVariant),
    /// A BLAKE2 family function.
    Blake2(Blake2Variant),
    /// An application-specific code, below `0x10`.
    ApplicationSpecific(u8),
    /// A code that maps to no documented function, in `0x40..0x7f`.
    Unknown(u8),
}

impl Code {
    /// Whether this entry can be written back as a single byte: the
    /// carried code lies in the range its constructor stands for, and
    /// the block size is one the table documents.
    pub open spec fn wf(self) -> bool {
        match self {
            Code::Sha(ShaVariant::Sha1) => true,
            Code::Sha(ShaVariant::Sha2(size)) => size == BlockSize::S256 || size
                == BlockSize::S512,
            Code::Sha(ShaVariant::Sha3(size)) => size == BlockSize::S224 || size
                == BlockSize::S256 || size == BlockSize::S384 || size == BlockSize::S512,
            Code::Sha(ShaVariant::Shake(size)) => size == BlockSize::S128 || size
                == BlockSize::S256,
            Code::Sha(ShaVariant::UnknownSha(code)) => 0x0f < code < 0x4f,
            Code::Blake2(_) => true,
            Code::ApplicationSpecific(code) => code < 0x10,
            Code::Unknown(code) => 0x3f < code < 0x80,
        }
    }

    /// The single byte this entry is written as.
    pub open spec fn spec_byte(self) -> u8 {
        match self {
            Code::Sha(ShaVariant::Sha1) => 0x11,
            Code::Sha(ShaVariant::Sha2(size)) => if size == BlockSize::S256 {
                0x12
            } else {
                0x13
            },
            Code::Sha(ShaVariant::Sha3(size)) => if size == BlockSize::S512 {
                0x14
            } else if size == BlockSize::S384 {
                0x15
            } else if size == BlockSize::S256 {
                0x16
            } else {
                0x17
            },
            Code::Sha(ShaVariant::Shake(size)) => if size == BlockSize::S128 {
                0x18
            } else {
                0x19
            },
            Code::Sha(ShaVariant::UnknownSha(code)) => code,
            Code::Blake2(Blake2Variant::B) => 0x40,
            Code::Blake2(Blake2Variant::S) => 0x41,
            Code::ApplicationSpecific(code) => code,
            Code::Unknown(code) => code,
        }
    }

    /// The entry a single byte below `0x7f` denotes.
    pub open spec fn spec_from_byte(byte: u8) -> Code {
        if byte == 0x11 {
            Code::Sha(ShaVariant::Sha1)
        } else if byte == 0x12 {
            Code::Sha(ShaVariant::Sha2(BlockSize::S256))
        } else if byte == 0x13 {
            Code::Sha(ShaVariant::Sha2(BlockSize::S512))
        } else if byte == 0x14 {
            Code::Sha(ShaVariant::Sha3(BlockSize::S512))
        } else if byte == 0x15 {
            Code::Sha(ShaVariant::Sha3(BlockSize::S384))
        } else if byte == 0x16 {
            Code::Sha(ShaVariant::Sha3(BlockSize::S256))
        } else if byte == 0x17 {
            Code::Sha(ShaVariant::Sha3(BlockSize::S224))
        } else if byte == 0x18 {
            Code::Sha(ShaVariant::Shake(BlockSize::S128))
        } else if byte == 0x19 {
            Code::Sha(ShaVariant::Shake(BlockSize::S256))
        } else if byte == 0x40 {
            Code::Blake2(Blake2Variant::B)
        } else if byte == 0x41 {
            Code::Blake2(Blake2Variant::S)
        } else if byte < 0x0f {
            Code::ApplicationSpecific(byte)
        } else if byte < 0x3f {
            Code::Sha(ShaVariant::UnknownSha(byte))
        } else {
            Code::Unknown(byte)
        }
    }

    /// The entry a single byte denotes; bytes from `0x7f` up belong to
    /// no revision of the single-byte table and are refused.
    pub fn from_byte(byte: u8) -> (r: Result<Code, &'static str>)
        ensures
            byte < 0x7f ==> r == Ok::<Code, &'static str>(Code::spec_from_byte(byte)),
            byte >= 0x7f ==> (r matches Err(m) && m@
                == "Codes greater than 0x7f are an unsupported future feature"@),
    {
        match byte {
            0x11 => Ok(Code::Sha(ShaVariant::Sha1)),
            0x12 => Ok(Code::Sha(ShaVariant::Sha2(BlockSize::S256))),
            0x13 => Ok(Code::Sha(ShaVariant::Sha2(BlockSize::S512))),
            0x14 => Ok(Code::Sha(ShaVariant::Sha3(BlockSize::S512))),
            0x15 => Ok(Code::Sha(ShaVariant::Sha3(BlockSize::S384))),
            0x16 => Ok(Code::Sha(ShaVariant::Sha3(BlockSize::S256))),
            0x17 => Ok(Code::Sha(ShaVariant::Sha3(BlockSize::S224))),
            0x18 => Ok(Code::Sha(ShaVariant::Shake(BlockSize::S128))),
            0x19 => Ok(Code::Sha(ShaVariant::Shake(BlockSize::S256))),
            0x40 => Ok(Code::Blake2(Blake2Variant::B)),
            0x41 => Ok(Code::Blake2(Blake2Variant::S)),
            _ => {
                if byte < 0x0f {
                    Ok(Code::ApplicationSpecific(byte))
                } else if byte < 0x3f {
                    Ok(Code::Sha(ShaVariant::UnknownSha(byte)))
                } else if byte < 0x7f {
                    Ok(Code::Unknown(byte))
                } else {
                    Err("Codes greater than 0x7f are an unsupported future feature")
                }
            },
        }
    }

    /// The single byte this entry is written as.
    pub fn to_byte(&self) -> (r: u8)
        requires
            self.wf(),
        ensures
            r == self.spec_byte(),
    {
        match *self {
            Code::Sha(ShaVariant::Sha1) => 0x11,
            Code::Sha(ShaVariant::Sha2(BlockSize::S256)) => 0x12,
            Code::Sha(ShaVariant::Sha2(_)) => 0x13,
            Code::Sha(ShaVariant::Sha3(BlockSize::S512)) => 0x14,
            Code::Sha(ShaVariant::Sha3(BlockSize::S384)) => 0x15,
            Code::Sha(ShaVariant::Sha3(BlockSize::S256)) => 0x16,
            Code::Sha(ShaVariant::Sha3(_)) => 0x17,
            Code::Sha(ShaVariant::Shake(BlockSize::S128)) => 0x18,
            Code::Sha(ShaVariant::Shake(_)) => 0x19,
            Code::Sha(ShaVariant::UnknownSha(code)) => code,
            Code::Blake2(Blake2Variant::B) => 0x40,
            Code::Blake2(Blake2Variant::S) => 0x41,
            Code::ApplicationSpecific(code) => code,
            Code::Unknown(code) => code,
        }
    }
}

/// The lower-case hex digit of a value below sixteen.
pub open spec fn spec_hex_digit(n: u8) -> Seq<char> {
    if n == 0 {
        "0"@
    } else if n == 1 {
        "1"@
    } else if n == 2 {
        "2"@
    } else if n == 3 {
        "3"@
    } else if n == 4 {
        "4"@
    } else if n == 5 {
        "5"@
    } else if n == 6 {
        "6"@
    } else if n == 7 {
        "7"@
    } else if n == 8 {
        "8"@
    } else if n == 9 {
        "9"@
    } else if n == 10 {
        "a"@
    } else if n == 11 {
        "b"@
    } else if n == 12 {
        "c"@
    } else if n == 13 {
        "d"@
    } else if n == 14 {
        "e"@
    } else {
        "f"@
    }
}

/// The lower-case hex text of a byte, without a leading zero.
pub open spec fn spec_hex_u8(n: u8) -> Seq<char> {
    if n < 16 {
        spec_hex_digit(n)
    } else {
        spec_hex_digit(n / 16) + spec_hex_digit(n % 16)
    }
}

fn hex_digit(n: u8) -> (r: &'static str)
    requires
        n < 16,
    ensures
        r@ == spec_hex_digit(n),
{
    match n {
        0 => "0",
        1 => "1",
        2 => "2",
        3 => "3",
        4 => "4",
        5 => "5",
        6 => "6",
        7 => "7",
        8 => "8",
        9 => "9",
        10 => "a",
        11 => "b",
        12 => "c",
        13 => "d",
        14 => "e",
        _ => "f",
    }
}

/// The lower-case hex text of a byte, without a leading zero, as the
/// `{:#02x}` format writes it after its `0x` prefix.
fn hex_u8(n: u8) -> (r: String)
    ensures
        r@ == spec_hex_u8(n),
{
    let mut s = String::new();
    if n >= 16 {
        s.append(hex_digit(n / 16));
    }
    s.append(hex_digit(n % 16));
    proof {
        if n < 16 {
            assert(n % 16 == n);
            assert(s@ =~= spec_hex_digit(n));
        } else {
            assert(s@ =~= spec_hex_digit(n / 16) + spec_hex_digit(n % 16));
        }
    }
    s
}

impl Code {
    /// The human-readable description of this entry.
    pub open spec fn spec_string(self) -> Seq<char> {
        match self {
            Code::Sha(ShaVariant::Sha1) => "sha1"@,
            Code::Sha(ShaVariant::Sha2(size)) => if size == BlockSize::S256 {
                "sha2-256"@
            } else {
                "sha2-512"@
            },
            Code::Sha(ShaVariant::Sha3(size)) => if size == BlockSize::S512 {
                "sha3-512"@
            } else if size == BlockSize::S384 {
                "sha3-384"@
            } else if size == BlockSize::S256 {
                "sha3-256"@
            } else {
                "sha3-224"@
            },
            Code::Sha(ShaVariant::Shake(size)) => if size == BlockSize::S128 {
                "shake-128"@
            } else {
                "shake-256"@
            },
            Code::Sha(ShaVariant::UnknownSha(code)) => "unknown SHA standard function 0x"@
                + spec_hex_u8(code),
            Code::Blake2(Blake2Variant::B) => "blake2b"@,
            Code::Blake2(Blake2Variant::S) => "blake2s"@,
            Code::ApplicationSpecific(code) => "application specific function 0x"@
                + spec_hex_u8(code),
            Code::Unknown(code) => "unknown 0x"@ + spec_hex_u8(code),
        }
    }

    /// The human-readable description of this entry.
    pub fn to_string(&self) -> (r: String)
        requires
            self.wf(),
        ensures
            r@ == self.spec_string(),
    {
        match *self {
            Code::Sha(ShaVariant::Sha1) => String::from_str("sha1"),
            Code::Sha(ShaVariant::Sha2(BlockSize::S256)) => String::from_str("sha2-256"),
            Code::Sha(ShaVariant::Sha2(_)) => String::from_str("sha2-512"),
            Code::Sha(ShaVariant::Sha3(BlockSize::S512)) => String::from_str("sha3-512"),
            Code::Sha(ShaVariant::Sha3(BlockSize::S384)) => String::from_str("sha3-384"),
            Code::Sha(ShaVariant::Sha3(BlockSize::S256)) => String::from_str("sha3-256"),
            Code::Sha(ShaVariant::Sha3(_)) => String::from_str("sha3-224"),
            Code::Sha(ShaVariant::Shake(BlockSize::S128)) => String::from_str("shake-128"),
            Code::Sha(ShaVariant::Shake(_)) => String::from_str("shake-256"),
            Code::Sha(ShaVariant::UnknownSha(code)) => {
                let mut s = String::from_str("unknown SHA standard function 0x");
                let hex = hex_u8(code);
                s.append(hex.as_str());
                s
            },
            Code::Blake2(Blake2Variant::B) => String::from_str("blake2b"),
            Code::Blake2(Blake2Variant::S) => String::from_str("blake2s"),
            Code::ApplicationSpecific(code) => {
                let mut s = String::from_str("application specific function 0x");
                let hex = hex_u8(code);
                s.append(hex.as_str());
                s
            },
            Code::Unknown(code) => {
                let mut s = String::from_str("unknown 0x");
                let hex = hex_u8(code);
                s.append(hex.as_str());
                s
            },
        }
    }
}

} // verus!

use vstd::prelude::*;

use crate::base58::{base58_decode, base58_decoded, base58_encode, base58_of};
use crate::codec::{spec_decoded, spec_encoded};
use crate::error::ErrorKind;
use crate::multihash::MultiHash;

verus! {

impl MultiHash {
    /// Parse the Base58 text form of a binary encoded multihash,
    /// decoding the denoted bytes in strict whole-buffer mode.
    pub fn from_base58(text: &str) -> (r: Result<MultiHash, ErrorKind>)
        ensures
            match base58_decoded(text@) {
                None => r == Err::<MultiHash, ErrorKind>(ErrorKind::TextDecode),
                Some(bytes) => match spec_decoded(bytes) {
                    Ok((v, d)) => r matches Ok(m) && m.variant == v && m.digest@ == d
                        && m.wf(),
                    Err(e) => r == Err::<MultiHash, ErrorKind>(e),
                },
            },
    {
        match base58_decode(text) {
            Ok(bytes) => MultiHash::from_bytes(bytes.as_slice()),
            Err(_) => Err(ErrorKind::TextDecode),
        }
    }

    /// The Base58 text form of this multihash's binary encoding.
    pub fn to_base58_string(&self) -> (r: String)
        requires
            self.wf(),
        ensures
            r@ == base58_of(spec_encoded(self.variant, self.digest@)),
    {
        let bytes = self.to_bytes();
        base58_encode(bytes.as_slice())
    }
}

} // verus!

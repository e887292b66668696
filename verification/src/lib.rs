//! An implementation of the multihash format: a digest prefixed with a
//! varint function code and a varint length, so a reader can tell the
//! producing algorithm and digest size without external metadata.
//!
//! The wire codec commits to the varint revision of the format: both
//! the code and the length field are open-ended unsigned varints, and
//! the application-specific range is `[0x0400, 0x040f]`, inclusive on
//! both ends. The older single-byte table survives in the `code` and
//! `digest` modules for callers of that revision, but the two are not
//! wire-compatible and the codec reads and writes only the varint
//! form.

pub mod base58;
pub mod code;
pub mod codec;
pub mod digest;
pub mod error;
pub mod generation;
pub mod multihash;
pub mod sha2;
pub mod text;
pub mod validation;
pub mod varint;
pub mod variant;

pub use error::ErrorKind;
pub use multihash::MultiHash;
pub use variant::MultiHashVariant;

use mhash::{ErrorKind, MultiHash, MultiHashVariant};

#[test]
fn to_bytes() {
    assert_eq!(
        MultiHash::new(MultiHashVariant::Sha1, &[0xde, 0xad, 0xbe, 0xef])
            .unwrap()
            .to_bytes(),
        vec![0x11, 0x04, 0xde, 0xad, 0xbe, 0xef]
    );
}

#[test]
fn to_bytes_with_varint() {
    assert_eq!(
        MultiHash::new_with_code(0x401, &[0xde, 0xad, 0xbe, 0xef])
            .unwrap()
            .to_bytes(),
        vec![0x81, 0x08, 0x04, 0xde, 0xad, 0xbe, 0xef]
    );
}

#[test]
fn from_bytes() {
    assert_eq!(
        MultiHash::new(MultiHashVariant::Sha1, &[0xde, 0xad, 0xbe, 0xef]).unwrap(),
        MultiHash::from_bytes(&[0x11, 0x04, 0xde, 0xad, 0xbe, 0xef]).unwrap()
    );
}

#[test]
fn from_bytes_with_varint() {
    assert_eq!(
        MultiHash::new_with_code(0x401, &[0xde, 0xad, 0xbe, 0xef]).unwrap(),
        MultiHash::from_bytes(&[0x81, 0x08, 0x04, 0xde, 0xad, 0xbe, 0xef]).unwrap()
    );
}

#[test]
fn read_valid() {
    let buffer: &[u8] = &[0x11, 0x04, 0xde, 0xad, 0xbe, 0xef];
    let multihash = MultiHash::from_bytes(buffer).unwrap();
    assert_eq!(multihash.variant(), MultiHashVariant::Sha1);
    assert_eq!(multihash.digest(), &[0xde, 0xad, 0xbe, 0xef]);
}

#[test]
fn valid_varint() {
    let buffer: &[u8] = &[0x81, 0x08, 0x04, 0xde, 0xad, 0xbe, 0xef];
    let multihash = MultiHash::from_bytes(buffer).unwrap();
    assert_eq!(
        multihash.variant(),
        MultiHashVariant::ApplicationSpecific { code: 0x0401 }
    );
    assert_eq!(multihash.code(), 0x0401);
    assert_eq!(multihash.digest(), &[0xde, 0xad, 0xbe, 0xef]);
}

#[test]
fn no_code() {
    let buffer: &[u8] = &[];
    assert!(MultiHash::from_bytes(buffer).is_err());
    assert_eq!(
        MultiHash::from_bytes(buffer).unwrap_err(),
        ErrorKind::TruncatedInput
    );
}

#[test]
fn no_len() {
    let buffer: &[u8] = &[0x11];
    assert_eq!(
        MultiHash::from_bytes(buffer).unwrap_err(),
        ErrorKind::TruncatedInput
    );
}

#[test]
fn bad_code() {
    let buffer: &[u8] = &[0x01, 0x04, 0xde, 0xad, 0xbe, 0xef];
    assert_eq!(
        MultiHash::from_bytes(buffer).unwrap_err(),
        ErrorKind::UnknownCode { code: 0x01 }
    );
}

#[test]
fn short_digest() {
    let buffer: &[u8] = &[0x11, 0x05, 0xde, 0xad, 0xbe, 0xef];
    assert_eq!(
        MultiHash::from_bytes(buffer).unwrap_err(),
        ErrorKind::TrailingOrMissingBytes {
            actual: 4,
            declared: 5
        }
    );
}

#[test]
fn long_digest() {
    let buffer: &[u8] = &[
        0x11, 0x20, 0xde, 0xad, 0xbe, 0xef, 0x00, 0x00, 0x00, 0x00, 0x00, 0x00, 0x00, 0x00,
        0x00, 0x00, 0x00, 0x00, 0x00, 0x00, 0x00, 0x00, 0x00, 0x00, 0x00, 0x00, 0x00, 0x00,
        0x00, 0x00, 0x00, 0x00, 0x00, 0x00,
    ];
    assert_eq!(
        MultiHash::from_bytes(buffer).unwrap_err(),
        ErrorKind::LengthTooLong {
            length: 0x20,
            max_len: 20
        }
    );
}

#[test]
fn write_valid() {
    let multihash = MultiHash::new(MultiHashVariant::Sha1, &[0xde, 0xad, 0xbe, 0xef]).unwrap();
    let buffer = multihash.to_bytes();
    assert_eq!(buffer, vec![0x11, 0x04, 0xde, 0xad, 0xbe, 0xef]);
}

#[test]
fn varint() {
    let multihash = MultiHash::new_with_code(0x401, &[0xde, 0xad, 0xbe, 0xef]).unwrap();
    let buffer = multihash.to_bytes();
    assert_eq!(buffer, vec![0x81, 0x08, 0x04, 0xde, 0xad, 0xbe, 0xef]);
}

#[test]
fn unknown_code_multibyte_varint() {
    // 0x90 0x04 is the varint for 0x210, which no variant claims
    let buffer: &[u8] = &[0x90, 0x04, 0xde, 0xad, 0xbe, 0xef];
    assert_eq!(
        MultiHash::from_bytes(buffer).unwrap_err(),
        ErrorKind::UnknownCode { code: 0x210 }
    );
}

#[test]
fn round_trip_all_variants() {
    let variants = [
        MultiHashVariant::Identity,
        MultiHashVariant::Sha1,
        MultiHashVariant::Sha2_256,
        MultiHashVariant::Sha2_512,
        MultiHashVariant::Sha3_512,
        MultiHashVariant::Sha3_384,
        MultiHashVariant::Sha3_256,
        MultiHashVariant::Sha3_224,
        MultiHashVariant::Shake128,
        MultiHashVariant::Shake256,
        MultiHashVariant::Blake2B,
        MultiHashVariant::Blake2S,
        MultiHashVariant::ApplicationSpecific { code: 0x0400 },
        MultiHashVariant::ApplicationSpecific { code: 0x040f },
    ];
    for variant in variants {
        let multihash = MultiHash::new(variant, &[0x01, 0x02, 0x03]).unwrap();
        let decoded = MultiHash::from_bytes(&multihash.to_bytes()).unwrap();
        assert_eq!(multihash, decoded);
    }
}

#[test]
fn round_trip_empty_digest() {
    let multihash = MultiHash::new(MultiHashVariant::Sha2_256, &[]).unwrap();
    let bytes = multihash.to_bytes();
    assert_eq!(bytes, vec![0x12, 0x00]);
    assert_eq!(MultiHash::from_bytes(&bytes).unwrap(), multihash);
}

#[test]
fn output_len_matches_encoding() {
    let small = MultiHash::new(MultiHashVariant::Sha1, &[0xde, 0xad, 0xbe, 0xef]).unwrap();
    assert_eq!(small.output_len(), 6);
    assert_eq!(small.output_len(), small.to_bytes().len());
    let wide = MultiHash::new_with_code(0x0401, &[0u8; 200]).unwrap();
    assert_eq!(wide.output_len(), 2 + 2 + 200);
    assert_eq!(wide.output_len(), wide.to_bytes().len());
}

#[test]
fn varint_field_too_long() {
    // eleven continuation-marked bytes can denote no representable code
    let buffer: &[u8] = &[
        0x80, 0x80, 0x80, 0x80, 0x80, 0x80, 0x80, 0x80, 0x80, 0x80, 0x01,
    ];
    assert_eq!(
        MultiHash::from_bytes(buffer).unwrap_err(),
        ErrorKind::VarintTooLong
    );
}

#[test]
fn streaming_varint_steps() {
    // the field 0x81 0x08 denotes 0x0401; byte by byte the reader
    // first needs more input, then completes
    assert_eq!(mhash::varint::read_varint_step(&[0x81]), Ok(None));
    assert_eq!(mhash::varint::read_varint_step(&[0x81, 0x08]), Ok(Some(0x0401)));
    assert_eq!(mhash::varint::read_varint_step(&[0x11]), Ok(Some(0x11)));
    assert_eq!(
        mhash::varint::read_varint_step(&[
            0x80, 0x80, 0x80, 0x80, 0x80, 0x80, 0x80, 0x80, 0x80, 0x80
        ]),
        Err(ErrorKind::VarintTooLong)
    );
}

#[test]
fn multihash_equality() {
    let a = MultiHash::new(MultiHashVariant::Sha1, &[0xde, 0xad]).unwrap();
    let b = MultiHash::new(MultiHashVariant::Sha1, &[0xde, 0xad]).unwrap();
    let c = MultiHash::new(MultiHashVariant::Sha2_256, &[0xde, 0xad]).unwrap();
    let d = MultiHash::new(MultiHashVariant::Sha1, &[0xde, 0xad, 0x00]).unwrap();
    assert_eq!(a, b);
    assert_ne!(a, c);
    assert_ne!(a, d);
}

use mhash::{ErrorKind, MultiHash, MultiHashVariant};

#[test]
fn base58_known_value() {
    // the identity multihash of an empty digest encodes as 0x00 0x00,
    // which Base58 writes as two leading-zero marks
    let multihash = MultiHash::new(MultiHashVariant::Identity, &[]).unwrap();
    assert_eq!(multihash.to_base58_string(), "11");
    assert_eq!(MultiHash::from_base58("11").unwrap(), multihash);
}

#[test]
fn base58_round_trip() {
    let multihash = MultiHash::new(MultiHashVariant::Sha1, &[0xde, 0xad, 0xbe, 0xef]).unwrap();
    let text = multihash.to_base58_string();
    assert_eq!(MultiHash::from_base58(&text).unwrap(), multihash);
    let wide = MultiHash::new_with_code(0x0401, &[0x01, 0x02, 0x03]).unwrap();
    assert_eq!(
        MultiHash::from_base58(&wide.to_base58_string()).unwrap(),
        wide
    );
}

#[test]
fn base58_rejects_invalid_text() {
    // '0', 'O', 'I' and 'l' are outside the Base58 alphabet
    assert_eq!(
        MultiHash::from_base58("0OIl").unwrap_err(),
        ErrorKind::TextDecode
    );
}

#[test]
fn base58_of_malformed_encoding() {
    // "z" is valid Base58 for the single byte 0x39, which holds an
    // unclaimed code: the strict decoder's error comes through
    let err = MultiHash::from_base58("z").unwrap_err();
    assert_eq!(err, ErrorKind::UnknownCode { code: 0x39 });
}

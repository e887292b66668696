use mhash::validation::validate_base;
use mhash::{ErrorKind, MultiHash, MultiHashVariant};

const EMPTY_SHA256: [u8; 32] = [
    0xe3, 0xb0, 0xc4, 0x42, 0x98, 0xfc, 0x1c, 0x14, 0x9a, 0xfb, 0xf4, 0xc8, 0x99, 0x6f, 0xb9,
    0x24, 0x27, 0xae, 0x41, 0xe4, 0x64, 0x9b, 0x93, 0x4c, 0xa4, 0x95, 0x99, 0x1b, 0x78, 0x52,
    0xb8, 0x55,
];

#[test]
fn generate_sha256_known_vector() {
    let multihash = MultiHash::generate_sha2_256(&[]);
    assert_eq!(multihash.variant(), MultiHashVariant::Sha2_256);
    assert_eq!(multihash.len(), 32);
    assert_eq!(multihash.digest(), &EMPTY_SHA256);
}

#[test]
fn generate_sha512_known_vector() {
    // the SHA-512 digest of the empty message
    let expected: [u8; 64] = [
        0xcf, 0x83, 0xe1, 0x35, 0x7e, 0xef, 0xb8, 0xbd, 0xf1, 0x54, 0x28, 0x50, 0xd6, 0x6d,
        0x80, 0x07, 0xd6, 0x20, 0xe4, 0x05, 0x0b, 0x57, 0x15, 0xdc, 0x83, 0xf4, 0xa9, 0x21,
        0xd3, 0x6c, 0xe9, 0xce, 0x47, 0xd0, 0xd1, 0x3c, 0x5d, 0x85, 0xf2, 0xb0, 0xff, 0x83,
        0x18, 0xd2, 0x87, 0x7e, 0xec, 0x2f, 0x63, 0xb9, 0x31, 0xbd, 0x47, 0x41, 0x7a, 0x81,
        0xa5, 0x38, 0x32, 0x7a, 0xf9, 0x27, 0xda, 0x3e,
    ];
    let multihash = MultiHash::generate_sha2_512(&[]);
    assert_eq!(multihash.variant(), MultiHashVariant::Sha2_512);
    assert_eq!(multihash.digest(), &expected);
}

#[test]
fn validate_full_digest() {
    let data = b"some data to hash";
    let multihash = MultiHash::generate_sha2_256(data);
    assert_eq!(multihash.validate(data), Some(Ok(true)));
    assert_eq!(multihash.validate(b"some other data"), Some(Ok(false)));
}

#[test]
fn validate_truncated_prefix() {
    let data = b"prefix validation input";
    let full = MultiHash::generate_sha2_256(data);
    for k in 0..=32usize {
        let truncated = MultiHash::new(MultiHashVariant::Sha2_256, &full.digest()[..k]).unwrap();
        assert_eq!(truncated.validate(data), Some(Ok(true)));
    }
}

#[test]
fn validate_single_flipped_byte() {
    let data = b"mismatch detection input";
    let full = MultiHash::generate_sha2_256(data);
    for k in 0..16usize {
        let mut prefix = full.digest()[..16].to_vec();
        prefix[k] ^= 0x01;
        let tampered = MultiHash::new(MultiHashVariant::Sha2_256, &prefix).unwrap();
        assert_eq!(tampered.validate(data), Some(Ok(false)));
    }
}

#[test]
fn validate_sha512_prefix() {
    let data = b"the 512-bit flavour";
    let full = MultiHash::generate_sha2_512(data);
    let truncated = MultiHash::new(MultiHashVariant::Sha2_512, &full.digest()[..40]).unwrap();
    assert_eq!(truncated.validate(data), Some(Ok(true)));
}

#[test]
fn validate_without_validator() {
    let multihash = MultiHash::new(MultiHashVariant::Sha1, &[0xde, 0xad, 0xbe, 0xef]).unwrap();
    assert_eq!(multihash.validate(b"anything"), None);
    let app = MultiHash::new_with_code(0x0401, &[0x01, 0x02]).unwrap();
    assert_eq!(app.validate(b"anything"), None);
    let identity = MultiHash::new(MultiHashVariant::Identity, &[]).unwrap();
    assert_eq!(identity.validate(b""), None);
}

#[test]
fn validate_base_digest_too_long() {
    let multihash = MultiHash::new(MultiHashVariant::Sha2_256, &EMPTY_SHA256).unwrap();
    let short_hash = [0u8; 16];
    assert_eq!(
        validate_base(&multihash, &short_hash),
        Err(ErrorKind::DigestTooLong {
            length: 32,
            max_len: 16
        })
    );
}

#[test]
fn generated_hash_round_trips() {
    let data = b"generate, encode, decode";
    let multihash = MultiHash::generate_sha2_256(data);
    let decoded = MultiHash::from_bytes(&multihash.to_bytes()).unwrap();
    assert_eq!(decoded, multihash);
    assert_eq!(decoded.validate(data), Some(Ok(true)));
}

#[test]
fn generate_default_and_explicit() {
    let data = b"default generation";
    let by_default = mhash::generation::generate(data);
    assert_eq!(by_default.variant(), MultiHashVariant::Sha2_256);
    let explicit = mhash::generation::generate_with_variant(MultiHashVariant::Sha2_512, data)
        .unwrap();
    assert_eq!(explicit.variant(), MultiHashVariant::Sha2_512);
    assert_eq!(explicit.len(), 64);
    assert_eq!(
        mhash::generation::generate_with_variant(MultiHashVariant::Sha1, data),
        None
    );
}

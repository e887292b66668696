use mhash::{ErrorKind, MultiHash, MultiHashVariant};

#[test]
fn registry_codes() {
    assert_eq!(MultiHashVariant::Identity.code(), 0x00);
    assert_eq!(MultiHashVariant::Sha1.code(), 0x11);
    assert_eq!(MultiHashVariant::Sha2_256.code(), 0x12);
    assert_eq!(MultiHashVariant::Sha2_512.code(), 0x13);
    assert_eq!(MultiHashVariant::Sha3_512.code(), 0x14);
    assert_eq!(MultiHashVariant::Sha3_384.code(), 0x15);
    assert_eq!(MultiHashVariant::Sha3_256.code(), 0x16);
    assert_eq!(MultiHashVariant::Sha3_224.code(), 0x17);
    assert_eq!(MultiHashVariant::Shake128.code(), 0x18);
    assert_eq!(MultiHashVariant::Shake256.code(), 0x19);
    assert_eq!(MultiHashVariant::Blake2B.code(), 0x40);
    assert_eq!(MultiHashVariant::Blake2S.code(), 0x41);
}

#[test]
fn registry_names() {
    assert_eq!(MultiHashVariant::Identity.name(), "identity");
    assert_eq!(MultiHashVariant::Sha1.name(), "sha1");
    assert_eq!(MultiHashVariant::Sha2_256.name(), "sha2-256");
    assert_eq!(MultiHashVariant::Sha2_512.name(), "sha2-512");
    assert_eq!(MultiHashVariant::Sha3_512.name(), "sha3-512");
    assert_eq!(MultiHashVariant::Sha3_384.name(), "sha3-384");
    assert_eq!(MultiHashVariant::Sha3_256.name(), "sha3-256");
    assert_eq!(MultiHashVariant::Sha3_224.name(), "sha3-224");
    assert_eq!(MultiHashVariant::Shake128.name(), "shake-128");
    assert_eq!(MultiHashVariant::Shake256.name(), "shake-256");
    assert_eq!(MultiHashVariant::Blake2B.name(), "blake2b");
    assert_eq!(MultiHashVariant::Blake2S.name(), "blake2s");
    assert_eq!(
        MultiHashVariant::ApplicationSpecific { code: 0x0401 }.name(),
        "app-specific"
    );
}

#[test]
fn registry_max_lens() {
    assert_eq!(MultiHashVariant::Identity.max_len(), usize::MAX);
    assert_eq!(MultiHashVariant::Sha1.max_len(), 20);
    assert_eq!(MultiHashVariant::Sha2_256.max_len(), 32);
    assert_eq!(MultiHashVariant::Sha2_512.max_len(), 64);
    assert_eq!(MultiHashVariant::Sha3_512.max_len(), 64);
    assert_eq!(MultiHashVariant::Sha3_384.max_len(), 48);
    assert_eq!(MultiHashVariant::Sha3_256.max_len(), 32);
    assert_eq!(MultiHashVariant::Sha3_224.max_len(), 28);
    assert_eq!(MultiHashVariant::Shake128.max_len(), usize::MAX);
    assert_eq!(MultiHashVariant::Shake256.max_len(), usize::MAX);
    assert_eq!(MultiHashVariant::Blake2B.max_len(), 64);
    assert_eq!(MultiHashVariant::Blake2S.max_len(), 32);
}

#[test]
fn from_code_known() {
    assert_eq!(
        MultiHashVariant::from_code(0x12).unwrap(),
        MultiHashVariant::Sha2_256
    );
    assert_eq!(
        MultiHashVariant::from_code(0x0400).unwrap(),
        MultiHashVariant::ApplicationSpecific { code: 0x0400 }
    );
    assert_eq!(
        MultiHashVariant::from_code(0x040f).unwrap(),
        MultiHashVariant::ApplicationSpecific { code: 0x040f }
    );
}

#[test]
fn from_code_unknown() {
    assert_eq!(
        MultiHashVariant::from_code(0x42).unwrap_err(),
        ErrorKind::UnknownCode { code: 0x42 }
    );
    assert_eq!(
        MultiHashVariant::from_code(0x03ff).unwrap_err(),
        ErrorKind::UnknownCode { code: 0x03ff }
    );
    assert_eq!(
        MultiHashVariant::from_code(0x0410).unwrap_err(),
        ErrorKind::UnknownCode { code: 0x0410 }
    );
}

#[test]
fn from_code_and_length_checks_both() {
    assert_eq!(
        MultiHashVariant::from_code_and_length(0x11, 20).unwrap(),
        MultiHashVariant::Sha1
    );
    assert_eq!(
        MultiHashVariant::from_code_and_length(0x11, 21).unwrap_err(),
        ErrorKind::LengthTooLong {
            length: 21,
            max_len: 20
        }
    );
    assert_eq!(
        MultiHashVariant::from_code_and_length(0x42, 4).unwrap_err(),
        ErrorKind::UnknownCode { code: 0x42 }
    );
}

#[test]
fn check_length_boundary() {
    assert!(MultiHashVariant::Sha2_256.check_length(32).is_ok());
    assert_eq!(
        MultiHashVariant::Sha2_256.check_length(33).unwrap_err(),
        ErrorKind::LengthTooLong {
            length: 33,
            max_len: 32
        }
    );
    assert!(MultiHashVariant::Identity.check_length(usize::MAX).is_ok());
}

#[test]
fn construction_bound() {
    let digest = [0u8; 21];
    assert_eq!(
        MultiHash::new(MultiHashVariant::Sha1, &digest).unwrap_err(),
        ErrorKind::LengthTooLong {
            length: 21,
            max_len: 20
        }
    );
    assert!(MultiHash::new(MultiHashVariant::Sha1, &digest[..20]).is_ok());
}

#[test]
fn construction_rejects_stray_app_code() {
    // an application-specific variant built with a code outside the
    // reserved range is refused at construction, never later
    let variant = MultiHashVariant::ApplicationSpecific { code: 0x99 };
    assert_eq!(
        MultiHash::new(variant, &[0x01]).unwrap_err(),
        ErrorKind::UnknownCode { code: 0x99 }
    );
}

#[test]
fn accessors_expose_structure() {
    let multihash = MultiHash::new(MultiHashVariant::Sha1, &[0xde, 0xad, 0xbe, 0xef]).unwrap();
    assert_eq!(multihash.len(), 4);
    assert_eq!(multihash.variant(), MultiHashVariant::Sha1);
    assert_eq!(multihash.code(), 0x11);
    assert_eq!(multihash.name(), "sha1");
    assert_eq!(multihash.digest(), &[0xde, 0xad, 0xbe, 0xef]);
}

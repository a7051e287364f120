use dms_sdk::crypto::{
    dek_from_unwrapped, generate_dek, record_from_wrapped, unwrap_dek_for_principal,
    validate_dek_size, wrap_dek_for_principal, CryptoError, DataEncryptionKey, EncryptedDek,
    KeyWrapper, PrincipalType,
};

struct XorWrapper;

impl KeyWrapper for XorWrapper {
    fn algorithm(&self) -> &'static str {
        "test-xor"
    }

    fn wrap(&self, dek: &[u8], principal_public_key: &[u8]) -> Result<Vec<u8>, CryptoError> {
        if principal_public_key.is_empty() {
            return Err(CryptoError::Wrapper("empty key".into()));
        }
        Ok(dek
            .iter()
            .enumerate()
            .map(|(i, b)| b ^ principal_public_key[i % principal_public_key.len()])
            .collect())
    }

    fn unwrap(
        &self,
        encrypted_dek: &[u8],
        principal_private_key: &[u8],
    ) -> Result<Vec<u8>, CryptoError> {
        self.wrap(encrypted_dek, principal_private_key)
    }
}

/// A wrapper with a keyed tag: the pad of the exclusive-or wrapper, followed
/// by a four-byte check over key and plaintext.
struct TaggedWrapper;

fn tag(key: &[u8], data: &[u8]) -> [u8; 4] {
    let mut h: u32 = 0x811c_9dc5;
    for b in key.iter().chain(data.iter()) {
        h ^= u32::from(*b);
        h = h.wrapping_mul(0x0100_0193);
    }
    h.to_be_bytes()
}

impl KeyWrapper for TaggedWrapper {
    fn algorithm(&self) -> &'static str {
        "X"
    }

    fn wrap(&self, dek: &[u8], principal_public_key: &[u8]) -> Result<Vec<u8>, CryptoError> {
        let mut out = XorWrapper.wrap(dek, principal_public_key)?;
        out.extend_from_slice(&tag(principal_public_key, dek));
        Ok(out)
    }

    fn unwrap(
        &self,
        encrypted_dek: &[u8],
        principal_private_key: &[u8],
    ) -> Result<Vec<u8>, CryptoError> {
        if principal_private_key.is_empty() {
            return Err(CryptoError::Wrapper("empty key".into()));
        }
        if encrypted_dek.len() < 4 {
            return Err(CryptoError::Wrapper("ciphertext too short".into()));
        }
        let (body, check) = encrypted_dek.split_at(encrypted_dek.len() - 4);
        let plain = XorWrapper.unwrap(body, principal_private_key)?;
        if tag(principal_private_key, &plain) != check {
            return Err(CryptoError::Wrapper("authentication failed".into()));
        }
        Ok(plain)
    }
}

#[test]
fn roundtrip_wrap_unwrap() {
    let wrapper = XorWrapper;
    let dek = DataEncryptionKey(vec![1, 2, 3, 4]);
    let encrypted =
        wrap_dek_for_principal(&wrapper, &dek, PrincipalType::User, "u1", &[9, 9]).unwrap();
    let unwrapped = unwrap_dek_for_principal(&wrapper, &encrypted, &[9, 9]).unwrap();
    assert_eq!(dek, unwrapped);
}

#[test]
fn sizes_other_than_16_and_32_are_refused() {
    for size in [0usize, 1, 15, 17, 24, 31, 33, 64] {
        assert!(matches!(validate_dek_size(size), Err(CryptoError::InvalidKeyLength)));
        assert!(matches!(
            generate_dek(size, Ok(vec![7u8; size])),
            Err(CryptoError::InvalidKeyLength)
        ));
    }
}

#[test]
fn sizes_16_and_32_give_that_many_bytes() {
    for size in [16usize, 32] {
        assert!(validate_dek_size(size).is_ok());
        let entropy: Vec<u8> = (0..size).map(|i| (i * 7 + 3) as u8).collect();
        let dek = generate_dek(size, Ok(entropy.clone())).unwrap();
        assert_eq!(dek.0.len(), size);
        assert_eq!(dek.0, entropy);
    }
}

#[test]
fn a_buffer_of_another_length_is_no_key() {
    assert!(matches!(generate_dek(16, Ok(vec![0u8; 15])), Err(CryptoError::InvalidKeyLength)));
    assert!(matches!(generate_dek(16, Ok(vec![0u8; 32])), Err(CryptoError::InvalidKeyLength)));
    assert!(matches!(generate_dek(32, Ok(Vec::new())), Err(CryptoError::InvalidKeyLength)));
}

#[test]
fn a_failed_read_is_an_io_error() {
    let failed = std::io::Error::new(std::io::ErrorKind::UnexpectedEof, "short read");
    match generate_dek(32, Err(failed)) {
        Err(CryptoError::Io(e)) => {
            assert_eq!(e.kind(), std::io::ErrorKind::UnexpectedEof);
        }
        other => panic!("unexpected: {:?}", other),
    }
    let failed = std::io::Error::new(std::io::ErrorKind::UnexpectedEof, "short read");
    assert!(matches!(generate_dek(15, Err(failed)), Err(CryptoError::InvalidKeyLength)));
}

#[test]
fn io_error_converts_into_crypto_error() {
    let e = std::io::Error::new(std::io::ErrorKind::NotFound, "gone");
    assert!(matches!(CryptoError::from(e), CryptoError::Io(_)));
}

#[test]
fn crypto_error_messages() {
    let io = CryptoError::Io(std::io::Error::new(std::io::ErrorKind::Other, "boom"));
    assert_eq!(io.message(), "io error: boom");
    assert_eq!(CryptoError::InvalidKeyLength.message(), "invalid DEK length");
    assert_eq!(CryptoError::Wrapper("empty key".into()).message(), "wrapper error: empty key");
    assert_eq!(CryptoError::Wrapper(String::new()).message(), "wrapper error: ");
}

#[test]
fn record_carries_the_wrappers_algorithm() {
    let dek = DataEncryptionKey(vec![5u8; 16]);
    let record =
        wrap_dek_for_principal(&TaggedWrapper, &dek, PrincipalType::Group, "g7", &[1, 2, 3])
            .unwrap();
    assert_eq!(record.key_wrap_alg, "X");
    assert_eq!(record.principal_type, PrincipalType::Group);
    assert_eq!(record.principal_id, "g7");

    let record =
        wrap_dek_for_principal(&XorWrapper, &dek, PrincipalType::User, "u1", &[1]).unwrap();
    assert_eq!(record.key_wrap_alg, "test-xor");
}

#[test]
fn a_ciphertext_becomes_a_tagged_record() {
    let record =
        record_from_wrapped(&TaggedWrapper, Ok(vec![1, 2, 3]), PrincipalType::Group, "team")
            .unwrap();
    assert_eq!(
        record,
        EncryptedDek {
            principal_type: PrincipalType::Group,
            principal_id: "team".to_string(),
            key_wrap_alg: "X".to_string(),
            ciphertext: vec![1, 2, 3],
        }
    );
}

#[test]
fn a_wrap_error_is_handed_on_unchanged() {
    let failed = Err(CryptoError::Wrapper("bad key".into()));
    match record_from_wrapped(&XorWrapper, failed, PrincipalType::User, "u1") {
        Err(CryptoError::Wrapper(msg)) => assert_eq!(msg, "bad key"),
        other => panic!("unexpected: {:?}", other),
    }
    let failed = Err(CryptoError::Io(std::io::Error::new(std::io::ErrorKind::Other, "rng")));
    match record_from_wrapped(&XorWrapper, failed, PrincipalType::User, "u1") {
        Err(CryptoError::Io(e)) => assert_eq!(e.to_string(), "rng"),
        other => panic!("unexpected: {:?}", other),
    }
}

#[test]
fn empty_public_key_is_rejected() {
    let dek = DataEncryptionKey(vec![1u8; 32]);
    for wrapper in [&XorWrapper as &dyn KeyWrapper, &TaggedWrapper, &dms_sdk::xor::XorWrapper] {
        match wrap_dek_for_principal(wrapper, &dek, PrincipalType::User, "u1", &[]) {
            Err(CryptoError::Wrapper(msg)) => assert_eq!(msg, "empty key"),
            other => panic!("unexpected: {:?}", other),
        }
    }
}

#[test]
fn empty_private_key_is_rejected() {
    let record = EncryptedDek {
        principal_type: PrincipalType::User,
        principal_id: "u1".to_string(),
        key_wrap_alg: "test-xor".to_string(),
        ciphertext: vec![1, 2, 3, 4],
    };
    assert!(matches!(
        unwrap_dek_for_principal(&dms_sdk::xor::XorWrapper, &record, &[]),
        Err(CryptoError::Wrapper(_))
    ));
}

#[test]
fn an_unwrap_error_is_handed_on_unchanged() {
    match dek_from_unwrapped(Err(CryptoError::Wrapper("authentication failed".into()))) {
        Err(CryptoError::Wrapper(msg)) => assert_eq!(msg, "authentication failed"),
        other => panic!("unexpected: {:?}", other),
    }
    assert!(matches!(
        dek_from_unwrapped(Err(CryptoError::InvalidKeyLength)),
        Err(CryptoError::InvalidKeyLength)
    ));
    assert_eq!(dek_from_unwrapped(Ok(vec![9, 8, 7])).unwrap(), DataEncryptionKey(vec![9, 8, 7]));
}

#[test]
fn generated_key_survives_wrap_and_unwrap() {
    let entropy: Vec<u8> = (0..32u8).map(|i| i.wrapping_mul(37).wrapping_add(11)).collect();
    let d = generate_dek(32, Ok(entropy)).unwrap();
    let k_pub = [0x42u8, 0x17, 0x99, 0x03, 0xfe];
    let k_priv = k_pub;

    let record =
        wrap_dek_for_principal(&TaggedWrapper, &d, PrincipalType::User, "u1", &k_pub).unwrap();
    assert_eq!(record.principal_type, PrincipalType::User);
    assert_eq!(record.principal_id, "u1");
    assert_eq!(record.key_wrap_alg, "X");
    assert_ne!(record.ciphertext, d.0);

    let stored = record.clone();
    let recovered = unwrap_dek_for_principal(&TaggedWrapper, &stored, &k_priv).unwrap();
    assert_eq!(recovered, d);
}

#[test]
fn library_xor_wrapper_round_trips() {
    let wrapper = dms_sdk::xor::XorWrapper;
    assert_eq!(wrapper.algorithm(), "test-xor");
    for size in [16usize, 32] {
        let d = generate_dek(size, Ok((0..size).map(|i| (255 - i) as u8).collect())).unwrap();
        let key = [3u8, 1, 4, 1, 5, 9, 2];
        let record =
            wrap_dek_for_principal(&wrapper, &d, PrincipalType::Group, "g", &key).unwrap();
        assert_eq!(unwrap_dek_for_principal(&wrapper, &record, &key).unwrap(), d);
    }
}

#[test]
fn library_xor_wrapper_exact_bytes() {
    let wrapper = dms_sdk::xor::XorWrapper;
    assert_eq!(wrapper.wrap(&[1, 2, 3, 4], &[9, 9]).unwrap(), vec![8, 11, 10, 13]);
    assert_eq!(wrapper.wrap(&[0xff, 0x00, 0x0f], &[0x0f, 0xf0]).unwrap(), vec![0xf0, 0xf0, 0x00]);
    assert_eq!(wrapper.unwrap(&[8, 11, 10, 13], &[9, 9]).unwrap(), vec![1, 2, 3, 4]);
    assert_eq!(wrapper.wrap(&[], &[1]).unwrap(), Vec::<u8>::new());
}

#[test]
fn every_single_bit_flip_is_detected() {
    let d = DataEncryptionKey((0..16u8).collect());
    let key = [0xa5u8, 0x5a, 0x3c];
    let record =
        wrap_dek_for_principal(&TaggedWrapper, &d, PrincipalType::User, "u1", &key).unwrap();
    for index in 0..record.ciphertext.len() {
        for bit in 0..8 {
            let mut tampered = record.clone();
            tampered.ciphertext[index] ^= 1u8 << bit;
            match unwrap_dek_for_principal(&TaggedWrapper, &tampered, &key) {
                Err(CryptoError::Wrapper(_)) => {}
                other => panic!("bit {} of byte {} went unnoticed: {:?}", bit, index, other),
            }
        }
    }
}

#[test]
fn principals_cannot_unwrap_each_others_records() {
    let d = DataEncryptionKey((100..132u8).collect());
    let key_a = [1u8, 2, 3, 4];
    let key_b = [4u8, 3, 2, 1];
    let for_a =
        wrap_dek_for_principal(&TaggedWrapper, &d, PrincipalType::User, "alice", &key_a).unwrap();
    let for_b =
        wrap_dek_for_principal(&TaggedWrapper, &d, PrincipalType::Group, "staff", &key_b).unwrap();
    assert_ne!(for_a.ciphertext, for_b.ciphertext);

    assert!(matches!(
        unwrap_dek_for_principal(&TaggedWrapper, &for_a, &key_b),
        Err(CryptoError::Wrapper(_))
    ));
    assert!(matches!(
        unwrap_dek_for_principal(&TaggedWrapper, &for_b, &key_a),
        Err(CryptoError::Wrapper(_))
    ));
    assert_eq!(unwrap_dek_for_principal(&TaggedWrapper, &for_a, &key_a).unwrap(), d);
    assert_eq!(unwrap_dek_for_principal(&TaggedWrapper, &for_b, &key_b).unwrap(), d);
}

#[test]
fn library_xor_wrapper_is_not_authenticated() {
    let wrapper = dms_sdk::xor::XorWrapper;
    let d = DataEncryptionKey(vec![0x10u8; 16]);
    let mut record =
        wrap_dek_for_principal(&wrapper, &d, PrincipalType::User, "u1", &[1]).unwrap();

    let with_other_key = unwrap_dek_for_principal(&wrapper, &record, &[2]).unwrap();
    assert_eq!(with_other_key, DataEncryptionKey(vec![0x13u8; 16]));

    record.ciphertext[0] ^= 0x80;
    let tampered = unwrap_dek_for_principal(&wrapper, &record, &[1]).unwrap();
    assert_eq!(tampered.0[0], 0x90);
    assert_eq!(tampered.0[1..], d.0[1..]);
}

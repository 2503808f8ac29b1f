use lcr_dilithium::SignatureError;
use lcr_dilithium::lcr_dilithium_type;

/// The context type, which shares its name with the crate.
type Lcr = lcr_dilithium::lcr_dilithium;

/// An all-zero expanded secret key: every packed coefficient field is
/// zero, which the decoder accepts for any parameter set.
fn zero_sk(len: usize) -> Vec<u8> {
    vec![0u8; len]
}

#[test]
fn fresh_context_has_nothing() {
    let c = Lcr::new();
    let (pk, pk_st) = c.pk();
    assert_eq!(pk_st, Err(SignatureError::UninitializedContext));
    assert!(pk.is_empty());
    let (sk, sk_st) = c.sk();
    assert_eq!(sk_st, Err(SignatureError::UninitializedContext));
    assert!(sk.is_empty());
    let (sig, sig_st) = c.sig();
    assert_eq!(sig_st, Err(SignatureError::UninitializedContext));
    assert!(sig.is_empty());
}

#[test]
fn secret_key_round_trip() {
    let mut c = Lcr::new();
    let b = zero_sk(2560);
    assert_eq!(c.sk_load(&b), Ok(()));
    let (view, st) = c.sk();
    assert_eq!(st, Ok(()));
    assert_eq!(view, &b[..]);
}

#[test]
fn secret_key_round_trip_all_lengths() {
    for len in [2560usize, 4032, 4896] {
        let mut c = Lcr::new();
        let mut b = zero_sk(len);
        b[0] = 0x5a;
        b[31] = 0xc3;
        assert_eq!(c.sk_load(&b), Ok(()));
        let (view, st) = c.sk();
        assert_eq!(st, Ok(()));
        assert_eq!(view, &b[..]);
    }
}

#[test]
fn secret_key_reload_overwrites() {
    let mut c = Lcr::new();
    let b1 = zero_sk(2560);
    let mut b2 = zero_sk(2560);
    b2[5] = 0xab;
    assert_eq!(c.sk_load(&b1), Ok(()));
    assert_eq!(c.sk_load(&b2), Ok(()));
    let (view, st) = c.sk();
    assert_eq!(st, Ok(()));
    assert_eq!(view, &b2[..]);
}

#[test]
fn secret_key_bad_length_rejected() {
    let mut c = Lcr::new();
    let b = zero_sk(100);
    assert_eq!(c.sk_load(&b), Err(SignatureError::ProcessingError));
    let (_, st) = c.sk();
    assert_eq!(st, Err(SignatureError::UninitializedContext));
}

#[test]
fn secret_key_out_of_range_field_rejected() {
    // A three-bit coefficient field of 7 exceeds the range bound.
    let mut c = Lcr::new();
    let mut b = zero_sk(2560);
    b[128] = 0x07;
    assert_eq!(c.sk_load(&b), Err(SignatureError::ProcessingError));
    // A nibble of 15 exceeds the range bound of the middle set.
    let mut b = zero_sk(4032);
    b[128] = 0x0f;
    assert_eq!(c.sk_load(&b), Err(SignatureError::ProcessingError));
    // Nibbles of 8 are the largest the middle set accepts.
    let mut b = zero_sk(4032);
    b[128] = 0x88;
    assert_eq!(c.sk_load(&b), Ok(()));
}

#[test]
fn failed_reload_keeps_previous_key() {
    let mut c = Lcr::new();
    let b1 = zero_sk(2560);
    assert_eq!(c.sk_load(&b1), Ok(()));
    let mut bad = zero_sk(2560);
    bad[129] = 0xff;
    assert_eq!(c.sk_load(&bad), Err(SignatureError::ProcessingError));
    let (view, st) = c.sk();
    assert_eq!(st, Ok(()));
    assert_eq!(view, &b1[..]);
}

#[test]
fn public_key_round_trip() {
    for len in [1312usize, 1952, 2592] {
        let mut c = Lcr::new();
        let mut b = vec![0u8; len];
        b[0] = 0x11;
        assert_eq!(c.pk_load(&b), Ok(()));
        let (view, st) = c.pk();
        assert_eq!(st, Ok(()));
        assert_eq!(view, &b[..]);
    }
    let mut c = Lcr::new();
    assert_eq!(c.pk_load(&[0u8; 64]), Err(SignatureError::ProcessingError));
}

#[test]
fn signature_round_trip() {
    for len in [2420usize, 3309, 4627] {
        let mut c = Lcr::new();
        let b = vec![3u8; len];
        assert_eq!(c.sig_load(&b), Ok(()));
        let (view, st) = c.sig();
        assert_eq!(st, Ok(()));
        assert_eq!(view, &b[..]);
    }
    let mut c = Lcr::new();
    assert_eq!(c.sig_load(&[0u8; 99]), Err(SignatureError::ProcessingError));
}

#[test]
fn sign_without_key_is_uninitialized() {
    let mut c = Lcr::new();
    assert_eq!(c.sign(b"hello"), Err(SignatureError::UninitializedContext));
    assert_eq!(
        c.sign_deterministic(b"hello"),
        Err(SignatureError::UninitializedContext)
    );
}

#[test]
fn verify_without_signature_is_uninitialized() {
    let mut c = Lcr::new();
    let pk = vec![0u8; 1312];
    assert_eq!(c.pk_load(&pk), Ok(()));
    assert_eq!(c.verify(b"msg"), Err(SignatureError::UninitializedContext));
}

#[test]
fn verify_without_public_key_is_uninitialized() {
    let mut c = Lcr::new();
    let sig = vec![0u8; 2420];
    assert_eq!(c.sig_load(&sig), Ok(()));
    assert_eq!(c.verify(b"msg"), Err(SignatureError::UninitializedContext));
}

#[test]
fn keypair_sign_verify_all_variants() {
    let variants = [
        (lcr_dilithium_type::lcr_dilithium_44, 2420usize),
        (lcr_dilithium_type::lcr_dilithium_65, 3309),
        (lcr_dilithium_type::lcr_dilithium_87, 4627),
    ];
    for (v, sig_len) in variants {
        let mut c = Lcr::new();
        assert_eq!(c.keypair(v), Ok(()));
        let (_, sk_st) = c.sk();
        assert_eq!(sk_st, Ok(()));
        let (_, pk_st) = c.pk();
        assert_eq!(pk_st, Ok(()));
        let msg = b"an arbitrary message";
        assert_eq!(c.sign(msg), Ok(()));
        assert_eq!(c.sig().0.len(), sig_len);
        assert_eq!(c.verify(msg), Ok(()));
    }
}

#[test]
fn keypair_lengths_match_variant() {
    let mut c = Lcr::new();
    assert_eq!(c.keypair(lcr_dilithium_type::lcr_dilithium_44), Ok(()));
    assert_eq!(c.pk().0.len(), 1312);
    assert_eq!(c.sk().0.len(), 2560);
    assert_eq!(c.keypair(lcr_dilithium_type::lcr_dilithium_65), Ok(()));
    assert_eq!(c.pk().0.len(), 1952);
    assert_eq!(c.sk().0.len(), 4032);
    assert_eq!(c.keypair(lcr_dilithium_type::lcr_dilithium_87), Ok(()));
    assert_eq!(c.pk().0.len(), 2592);
    assert_eq!(c.sk().0.len(), 4896);
}

#[test]
fn deterministic_signatures_repeat() {
    let mut c1 = Lcr::new();
    assert_eq!(c1.keypair(lcr_dilithium_type::lcr_dilithium_44), Ok(()));
    let sk_bytes = c1.sk().0.to_vec();

    let mut c2 = Lcr::new();
    assert_eq!(c2.sk_load(&sk_bytes), Ok(()));

    let msg = b"reproducible transcript";
    assert_eq!(c1.sign_deterministic(msg), Ok(()));
    assert_eq!(c2.sign_deterministic(msg), Ok(()));
    assert_eq!(c1.sig().0, c2.sig().0);
}

#[test]
fn generated_keys_reload_and_sign_alike() {
    let variants = [
        lcr_dilithium_type::lcr_dilithium_44,
        lcr_dilithium_type::lcr_dilithium_65,
        lcr_dilithium_type::lcr_dilithium_87,
    ];
    for v in variants {
        let mut c1 = Lcr::new();
        assert_eq!(c1.keypair(v), Ok(()));
        let sk_bytes = c1.sk().0.to_vec();
        let pk_bytes = c1.pk().0.to_vec();

        let mut c2 = Lcr::new();
        assert_eq!(c2.sk_load(&sk_bytes), Ok(()));
        let msg = b"signed after a reload";
        assert_eq!(c2.sign_deterministic(msg), Ok(()));
        let sig = c2.sig().0.to_vec();

        let mut checker = Lcr::new();
        assert_eq!(checker.pk_load(&pk_bytes), Ok(()));
        assert_eq!(checker.sig_load(&sig), Ok(()));
        assert_eq!(checker.verify(msg), Ok(()));
    }
}

#[test]
fn tampered_signature_is_detected() {
    let mut c = Lcr::new();
    assert_eq!(c.keypair(lcr_dilithium_type::lcr_dilithium_44), Ok(()));
    let msg = b"the signed message";
    assert_eq!(c.sign_deterministic(msg), Ok(()));
    let mut sig = c.sig().0.to_vec();
    // Flipping a bit of the commitment hash keeps the signature
    // decodable but makes verification fail.
    sig[0] ^= 0x01;
    assert_eq!(c.sig_load(&sig), Ok(()));
    assert_eq!(c.verify(msg), Err(SignatureError::VerificationError));
}

#[test]
fn randomized_signatures_differ() {
    let mut c = Lcr::new();
    assert_eq!(c.keypair(lcr_dilithium_type::lcr_dilithium_44), Ok(()));
    let msg = b"same message twice";
    assert_eq!(c.sign(msg), Ok(()));
    let first = c.sig().0.to_vec();
    assert_eq!(c.verify(msg), Ok(()));
    assert_eq!(c.sign(msg), Ok(()));
    let second = c.sig().0.to_vec();
    assert_eq!(c.verify(msg), Ok(()));
    assert_ne!(first, second);
}

#[test]
fn tampered_message_is_verification_error() {
    let mut c = Lcr::new();
    assert_eq!(c.keypair(lcr_dilithium_type::lcr_dilithium_65), Ok(()));
    let msg = b"pay 10 to alice".to_vec();
    assert_eq!(c.sign(&msg), Ok(()));
    assert_eq!(c.verify(&msg), Ok(()));
    let mut tampered = msg.clone();
    tampered[4] ^= 0x01;
    assert_eq!(c.verify(&tampered), Err(SignatureError::VerificationError));
    assert_eq!(c.verify(&msg), Ok(()));
}

#[test]
fn signature_travels_between_contexts() {
    let mut signer = Lcr::new();
    assert_eq!(signer.keypair(lcr_dilithium_type::lcr_dilithium_87), Ok(()));
    let msg = b"portable signature";
    assert_eq!(signer.sign_deterministic(msg), Ok(()));
    let pk = signer.pk().0.to_vec();
    let sig = signer.sig().0.to_vec();

    let mut checker = Lcr::new();
    assert_eq!(checker.pk_load(&pk), Ok(()));
    assert_eq!(checker.sig_load(&sig), Ok(()));
    assert_eq!(checker.verify(msg), Ok(()));
    assert_eq!(
        checker.verify(b"another message"),
        Err(SignatureError::VerificationError)
    );
}

#[test]
fn mismatched_parameter_sets_are_processing_error() {
    let mut c = Lcr::new();
    assert_eq!(c.keypair(lcr_dilithium_type::lcr_dilithium_44), Ok(()));
    let msg = b"mixed sets";
    assert_eq!(c.sign(msg), Ok(()));
    // Replace the public key with one of another parameter set.
    let foreign_pk = vec![0u8; 1952];
    assert_eq!(c.pk_load(&foreign_pk), Ok(()));
    assert_eq!(c.verify(msg), Err(SignatureError::ProcessingError));
}

#[test]
fn type_mapping_codes() {
    assert_eq!(
        Lcr::lcr_dilithium_type_mapping(lcr_dilithium_type::lcr_dilithium_44),
        44
    );
    assert_eq!(
        Lcr::lcr_dilithium_type_mapping(lcr_dilithium_type::lcr_dilithium_65),
        65
    );
    assert_eq!(
        Lcr::lcr_dilithium_type_mapping(lcr_dilithium_type::lcr_dilithium_87),
        87
    );
}

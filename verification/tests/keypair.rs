use wallet_core::keypair::{Curve, PublicKeyType};

#[test]
fn test_curve_from_raw() {
    let tests = [
        (0, Some(Curve::Secp256k1)),
        (1, Some(Curve::Ed25519)),
        (2, Some(Curve::Ed25519Blake2bNano)),
        (3, Some(Curve::Curve25519Waves)),
        (4, Some(Curve::Nist256p1)),
        (5, Some(Curve::Ed25519ExtendedCardano)),
        (6, Some(Curve::Starkex)),
        (7, None),
    ];
    for (raw, expected) in tests {
        assert_eq!(Curve::from_raw(raw), expected);
    }
}

#[test]
fn test_public_key_type_from_raw() {
    let tests = [
        (0, Some(PublicKeyType::Secp256k1)),
        (1, Some(PublicKeyType::Secp256k1Extended)),
        (2, Some(PublicKeyType::Nist256k1)),
        (3, Some(PublicKeyType::Nist256k1Extended)),
        (4, Some(PublicKeyType::Ed25519)),
        (5, Some(PublicKeyType::Ed25519Blake2b)),
        (6, Some(PublicKeyType::Curve25519Waves)),
        (7, Some(PublicKeyType::Ed25519ExtendedCardano)),
        (8, Some(PublicKeyType::Starkex)),
        (9, None),
    ];
    for (raw, expected) in tests {
        assert_eq!(PublicKeyType::from_raw(raw), expected);
    }
}

#[test]
fn test_curve_raw_round_trip() {
    for raw in 0..=6u32 {
        let curve = Curve::from_raw(raw).unwrap();
        assert_eq!(curve.raw(), raw);
    }
    assert_eq!(Curve::from_raw(u32::MAX), None);
}

#[test]
fn test_public_key_type_raw_round_trip() {
    for raw in 0..=8u32 {
        let ty = PublicKeyType::from_raw(raw).unwrap();
        assert_eq!(ty.raw(), raw);
    }
    assert_eq!(PublicKeyType::from_raw(u32::MAX), None);
}

#[test]
fn test_public_key_type_curve() {
    assert_eq!(PublicKeyType::Secp256k1.curve(), Curve::Secp256k1);
    assert_eq!(PublicKeyType::Secp256k1Extended.curve(), Curve::Secp256k1);
    assert_eq!(PublicKeyType::Nist256k1.curve(), Curve::Nist256p1);
    assert_eq!(PublicKeyType::Ed25519.curve(), Curve::Ed25519);
    assert_eq!(PublicKeyType::Ed25519Blake2b.curve(), Curve::Ed25519Blake2bNano);
    assert_eq!(PublicKeyType::Starkex.curve(), Curve::Starkex);
}

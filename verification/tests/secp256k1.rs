use k256::ecdsa::signature::hazmat::PrehashVerifier;
use wallet_core::hash::H256;
use wallet_core::hex;
use wallet_core::number::U256;
use wallet_core::secp256k1::{in_scalar_range, order, KeyPairError, PrivateKey, PublicKey, Signature};

fn unhex(text: &str) -> Vec<u8> {
    hex::decode(text.as_bytes()).unwrap()
}

const GENERATOR_X: &str = "79be667ef9dcbbac55a06295ce870b07029bfcdb2dce28d959f2815b16f81798";
const GENERATOR_Y: &str = "483ada7726a3c4655da4fbfc0e1108a8fd17b448a68554199c47d08ffb10d4b8";
const ORDER: &str = "fffffffffffffffffffffffffffffffebaaedce6af48a03bbfd25e8cd0364141";
const ORDER_MINUS_ONE: &str = "fffffffffffffffffffffffffffffffebaaedce6af48a03bbfd25e8cd0364140";

#[test]
fn test_public_key_from_compressed() {
    let key = PublicKey::from_slice(&unhex(&format!("02{GENERATOR_X}"))).unwrap();
    assert_eq!(key.x.to_vec(), unhex(GENERATOR_X));
    assert_eq!(key.y.to_vec(), unhex(GENERATOR_Y));
    assert_eq!(
        key.uncompressed_without_prefix(),
        unhex(&format!("{GENERATOR_X}{GENERATOR_Y}"))
    );
}

#[test]
fn test_public_key_from_uncompressed() {
    let compressed = PublicKey::from_slice(&unhex(&format!("02{GENERATOR_X}"))).unwrap();
    let uncompressed =
        PublicKey::from_slice(&unhex(&format!("04{GENERATOR_X}{GENERATOR_Y}"))).unwrap();
    assert_eq!(compressed, uncompressed);
}

#[test]
fn test_public_key_invalid() {
    let invalid = Err(KeyPairError::InvalidPublicKey);
    assert_eq!(PublicKey::from_slice(&[]), invalid);
    assert_eq!(PublicKey::from_slice(&[0u8; 33]), invalid);
    assert_eq!(PublicKey::from_slice(&[0u8; 65]), invalid);
    // The coordinates of the generator under a tag that is none.
    assert_eq!(PublicKey::from_slice(&unhex(&format!("07{GENERATOR_X}"))), invalid);
    // A point that is not on the curve.
    assert_eq!(
        PublicKey::from_slice(&unhex(&format!("04{GENERATOR_X}{GENERATOR_X}"))),
        invalid
    );
    // One byte is missing.
    assert_eq!(PublicKey::from_slice(&unhex(&format!("02{GENERATOR_X}"))[..32]), invalid);
}

#[test]
fn test_order() {
    assert_eq!(order().to_big_endian().to_vec(), unhex(ORDER));
    assert!(!in_scalar_range(&U256::zero()));
    assert!(in_scalar_range(&U256::from_u64(1)));
    assert!(in_scalar_range(&U256::from_big_endian_slice(&unhex(ORDER_MINUS_ONE)).unwrap()));
    assert!(!in_scalar_range(&order()));
    assert!(!in_scalar_range(&U256 { hi: u128::MAX, lo: u128::MAX }));
}

#[test]
fn test_private_key_from_slice() {
    let bytes = [0x46u8; 32];
    let key = PrivateKey::from_slice(&bytes).unwrap();
    assert_eq!(key.secret.to_vec(), bytes.to_vec());
    assert!(PrivateKey::from_slice(&unhex(ORDER_MINUS_ONE)).is_ok());
    let mut one = [0u8; 32];
    one[31] = 1;
    assert!(PrivateKey::from_slice(&one).is_ok());
}

#[test]
fn test_private_key_invalid() {
    let invalid = Err(KeyPairError::InvalidSecretKey);
    assert_eq!(PrivateKey::from_slice(&[0u8; 32]), invalid);
    assert_eq!(PrivateKey::from_slice(&unhex(ORDER)), invalid);
    assert_eq!(PrivateKey::from_slice(&[0xffu8; 32]), invalid);
    assert_eq!(PrivateKey::from_slice(&[0x46u8; 31]), invalid);
    assert_eq!(PrivateKey::from_slice(&[0x46u8; 33]), invalid);
    assert_eq!(PrivateKey::from_slice(&[]), invalid);
}

#[test]
fn test_signature_from_bytes() {
    let mut bytes = vec![0u8; 65];
    bytes[31] = 1;
    bytes[63] = 2;
    bytes[64] = 3;
    let signature = Signature::from_bytes(&bytes).unwrap();
    assert_eq!(signature.r, U256::from_u64(1));
    assert_eq!(signature.s, U256::from_u64(2));
    assert_eq!(signature.v, 3);
    assert_eq!(signature.to_bytes(), bytes);
}

#[test]
fn test_signature_invalid() {
    let invalid = Err(KeyPairError::InvalidSignature);
    let mut good = vec![0u8; 65];
    good[31] = 1;
    good[63] = 1;
    assert!(Signature::from_bytes(&good).is_ok());

    assert_eq!(Signature::from_bytes(&good[..64]), invalid);
    assert_eq!(Signature::from_bytes(&[]), invalid);
    let mut longer = good.clone();
    longer.push(0);
    assert_eq!(Signature::from_bytes(&longer), invalid);

    let mut recovery = good.clone();
    recovery[64] = 4;
    assert_eq!(Signature::from_bytes(&recovery), invalid);

    let mut zero_r = good.clone();
    zero_r[31] = 0;
    assert_eq!(Signature::from_bytes(&zero_r), invalid);

    let mut zero_s = good.clone();
    zero_s[63] = 0;
    assert_eq!(Signature::from_bytes(&zero_s), invalid);

    let mut large_r = good.clone();
    large_r[..32].copy_from_slice(&unhex(ORDER));
    assert_eq!(Signature::from_bytes(&large_r), invalid);

    let mut large_s = good.clone();
    large_s[32..64].copy_from_slice(&unhex(ORDER));
    assert_eq!(Signature::from_bytes(&large_s), invalid);

    let mut largest_s = good.clone();
    largest_s[32..64].copy_from_slice(&unhex(ORDER_MINUS_ONE));
    assert!(Signature::from_bytes(&largest_s).is_ok());
}

#[test]
fn test_sign_known_digest() {
    let key = PrivateKey::from_slice(&[0x46u8; 32]).unwrap();
    let digest = H256::from_slice(&unhex(
        "daf5a779ae972f972197303d7b574746c7ef83eadac0f2791ad23db92e4c8e53",
    ))
    .unwrap();
    let signature = key.sign(&digest).unwrap();
    assert_eq!(
        signature.r.to_big_endian().to_vec(),
        unhex("28ef61340bd939bc2195fe537567866003e1a15d3c71ff63e1590620aa636276")
    );
    assert_eq!(
        signature.s.to_big_endian().to_vec(),
        unhex("67cbe9d8997f761aecb703304b3800ccf555c9f3dc64214b297fb1966a3b6d83")
    );
    assert_eq!(signature.v, 0);
}

#[test]
fn test_sign_is_deterministic() {
    let key = PrivateKey::from_slice(&[0x46u8; 32]).unwrap();
    let digest = H256::from_slice(&[0x11u8; 32]).unwrap();
    let first = key.sign(&digest).unwrap();
    let second = key.sign(&digest).unwrap();
    assert_eq!(first, second);
    let other = key.sign(&H256::from_slice(&[0x12u8; 32]).unwrap()).unwrap();
    assert_ne!(first, other);
}

#[test]
fn test_sign_verifies() {
    let secret = [0x46u8; 32];
    let key = PrivateKey::from_slice(&secret).unwrap();
    let digest = [0x11u8; 32];
    let signature = key.sign(&H256::from_slice(&digest).unwrap()).unwrap();
    let bytes = signature.to_bytes();
    let outside = k256::ecdsa::Signature::from_slice(&bytes[..64]).unwrap();
    let signing_key = k256::ecdsa::SigningKey::from_slice(&secret).unwrap();
    assert!(signing_key.verifying_key().verify_prehash(&digest, &outside).is_ok());
}

#[test]
fn test_sign_with_invalid_key() {
    // The fields of a key are open; one that was not read from bytes may
    // hold no scalar, and then nothing is signed.
    let key = PrivateKey { secret: H256::zero() };
    let digest = H256::from_slice(&[0x11u8; 32]).unwrap();
    assert_eq!(key.sign(&digest), Err(KeyPairError::SigningError));
}

use wallet_core::coin_entry::{AddressError, CoinAddress};
use wallet_core::ethereum::address::Address;
use wallet_core::hex;
use wallet_core::secp256k1::PublicKey;

fn unhex(text: &str) -> Vec<u8> {
    hex::decode(text.as_bytes()).unwrap()
}

const CHECKSUMMED: [&str; 4] = [
    "0x5aAeb6053F3E94C9b9A09f33669435E7Ef1BeAed",
    "0xfB6916095ca1df60bB79Ce92cE3Ea74c37c5d359",
    "0xdbF03B407c01E7cD3CBea99509d93f8DDDC8C6FB",
    "0xD1220A0cf47c7B9Be7A2E6BA89F429762e7b9aDb",
];

#[test]
fn test_address_from_str_checksummed() {
    for text in CHECKSUMMED {
        let addr = Address::from_str(text).unwrap();
        assert_eq!(addr.data(), unhex(&text[2..]));
        assert_eq!(addr.bytes.to_vec(), unhex(&text[2..]));
    }
}

#[test]
fn test_address_to_string() {
    for text in CHECKSUMMED {
        let addr = Address::from_slice(&unhex(&text[2..])).unwrap();
        assert_eq!(addr.to_string(), text);
        assert_eq!(addr.into_checksum_address(), text);
        assert_eq!(addr.text(), text.as_bytes().to_vec());
        assert_eq!(addr.checksum_digits(), text.as_bytes()[2..].to_vec());
    }
}

#[test]
fn test_address_round_trip() {
    let mut bytes = [0u8; 20];
    for seed in 0u8..=255 {
        for (i, byte) in bytes.iter_mut().enumerate() {
            *byte = seed.wrapping_mul(31).wrapping_add((i as u8).wrapping_mul(seed | 1));
        }
        let addr = Address::from_slice(&bytes).unwrap();
        assert_eq!(Address::from_str(&addr.to_string()), Ok(addr));
    }
}

#[test]
fn test_address_from_str_one_case() {
    let expected = Address::from_slice(&unhex("5aaeb6053f3e94c9b9a09f33669435e7ef1beaed")).unwrap();
    assert_eq!(
        Address::from_str("0x5aaeb6053f3e94c9b9a09f33669435e7ef1beaed"),
        Ok(expected)
    );
    assert_eq!(
        Address::from_str("0x5AAEB6053F3E94C9B9A09F33669435E7EF1BEAED"),
        Ok(expected)
    );
    assert_eq!(
        Address::from_str("0x3535353535353535353535353535353535353535"),
        Ok(Address { bytes: [0x35; 20] })
    );
}

#[test]
fn test_address_from_str_invalid_checksum() {
    // The first letter in the other case.
    assert_eq!(
        Address::from_str("0x5AAeb6053F3E94C9b9A09f33669435E7Ef1BeAed"),
        Err(AddressError::InvalidChecksum)
    );
    // The last letter in the other case.
    assert_eq!(
        Address::from_str("0x5aAeb6053F3E94C9b9A09f33669435E7Ef1BeAeD"),
        Err(AddressError::InvalidChecksum)
    );
    // The checksummed text of another address with one digit changed.
    assert_eq!(
        Address::from_str("0x5aAeb6053F3E94C9b9A09f33669435E7Ef1BeAec"),
        Err(AddressError::InvalidChecksum)
    );
}

#[test]
fn test_address_from_str_missing_prefix() {
    let missing = Err(AddressError::MissingPrefix);
    assert_eq!(Address::from_str(""), missing);
    assert_eq!(Address::from_str("0"), missing);
    assert_eq!(Address::from_str("5aaeb6053f3e94c9b9a09f33669435e7ef1beaed"), missing);
    assert_eq!(Address::from_str("0X5aaeb6053f3e94c9b9a09f33669435e7ef1beaed"), missing);
    assert_eq!(Address::from_str(" 0x5aaeb6053f3e94c9b9a09f33669435e7ef1beaed"), missing);
    assert_eq!(Address::from_str("\u{e9}x5aaeb6053f3e94c9b9a09f33669435e7ef1beaed"), missing);
}

#[test]
fn test_address_from_str_not_hex() {
    let not_hex = Err(AddressError::FromHexError);
    assert_eq!(Address::from_str("0x"), not_hex);
    assert_eq!(Address::from_str("0x5aaeb6053f3e94c9b9a09f33669435e7ef1beae"), not_hex);
    assert_eq!(Address::from_str("0x5aaeb6053f3e94c9b9a09f33669435e7ef1beaed0"), not_hex);
    assert_eq!(Address::from_str("0x5aaeb6053f3e94c9b9a09f33669435e7ef1beaed00"), not_hex);
    assert_eq!(Address::from_str("0x5aaeb6053f3e94c9b9a09f33669435e7ef1beaeg"), not_hex);
    assert_eq!(Address::from_str("0x5aaeb6053f3e94c9b9a09f33669435e7ef1bea\u{e9}d"), not_hex);
    assert_eq!(Address::from_str("0x5aaeb6053f3e94c9b9a09f33669435e7ef1bea\u{e9}"), not_hex);
}

#[test]
fn test_address_from_slice() {
    assert_eq!(Address::from_slice(&[7u8; 20]), Some(Address { bytes: [7u8; 20] }));
    assert_eq!(Address::from_slice(&[7u8; 19]), None);
    assert_eq!(Address::from_slice(&[7u8; 21]), None);
    assert_eq!(Address::from_slice(&[]), None);
}

#[test]
fn test_address_of_generator() {
    let key = PublicKey::from_slice(&unhex(
        "0279be667ef9dcbbac55a06295ce870b07029bfcdb2dce28d959f2815b16f81798",
    ))
    .unwrap();
    let addr = Address::with_secp256k1_pubkey(&key);
    assert_eq!(addr.to_string(), "0x7E5F4552091A69125d5DfCb7b8C2659029395Bdf");
}

#[test]
fn test_address_of_compressed_key() {
    let key = PublicKey::from_slice(&unhex(
        "0399c6f51ad6f98c9c583f8e92bb7758ab2ca9a04110c0a1126ec43e5453d196c1",
    ))
    .unwrap();
    let addr = Address::with_secp256k1_pubkey(&key);
    assert_eq!(addr.to_string(), "0xAc1ec44E4f0ca7D172B7803f6836De87Fb72b309");
}

#[test]
fn test_address_of_private_key() {
    let signing_key = k256::ecdsa::SigningKey::from_slice(&[0x46u8; 32]).unwrap();
    let point = signing_key.verifying_key().to_encoded_point(true);
    let key = PublicKey::from_slice(point.as_bytes()).unwrap();
    let addr = Address::with_secp256k1_pubkey(&key);
    assert_eq!(addr.to_string(), "0x9d8A62f656a8d1615C1294fd71e9CFb3E4855A4F");
}

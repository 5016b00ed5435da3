use wallet_core::coin_entry::{AddressError, CoinAddress, CoinContext, CoinEntry};
use wallet_core::derivation::Derivation;
use wallet_core::ethereum::entry::{EthInputBuilder, EthJsonSigner, EthereumEntry};
use wallet_core::ethereum::messages::{SigningError, SigningInput};
use wallet_core::hex;
use wallet_core::keypair::PublicKeyType;
use wallet_core::registry::{BlockchainType, CoinItem, RegistryError};

fn unhex(text: &str) -> Vec<u8> {
    hex::decode(text.as_bytes()).unwrap()
}

fn ethereum() -> CoinItem {
    CoinItem {
        blockchain: BlockchainType::Ethereum,
        public_key_type: PublicKeyType::Secp256k1Extended,
        derivations: vec![Derivation::Default],
    }
}

fn generator() -> Vec<u8> {
    unhex("0279be667ef9dcbbac55a06295ce870b07029bfcdb2dce28d959f2815b16f81798")
}

fn input() -> SigningInput {
    SigningInput {
        chain_id: vec![1],
        nonce: vec![9],
        gas_price: unhex("04a817c800"),
        gas_limit: unhex("5208"),
        to_address: "0x3535353535353535353535353535353535353535".to_string(),
        private_key: vec![0x46; 32],
        amount: unhex("0de0b6b3a7640000"),
        data: vec![],
    }
}

#[test]
fn test_blockchain_type_from_str() {
    assert_eq!(BlockchainType::from_str("Ethereum"), Ok(BlockchainType::Ethereum));
    assert_eq!(BlockchainType::from_str("ethereum"), Ok(BlockchainType::Unsupported));
    assert_eq!(BlockchainType::from_str("Ethereum "), Ok(BlockchainType::Unsupported));
    assert_eq!(BlockchainType::from_str("Bitcoin"), Ok(BlockchainType::Unsupported));
    assert_eq!(BlockchainType::from_str(""), Ok(BlockchainType::Unsupported));
    assert_ne!(
        BlockchainType::from_str("Ethereum"),
        Err(RegistryError::UnknownCoinType)
    );
}

#[test]
fn test_coin_item_context() {
    let coin = ethereum();
    assert_eq!(coin.public_key_type(), PublicKeyType::Secp256k1Extended);
    assert!(coin.supports_derivation(Derivation::Default));
    let bare = CoinItem { derivations: vec![], ..ethereum() };
    assert!(!bare.supports_derivation(Derivation::Default));
}

#[test]
fn test_entry_parse_address() {
    let entry = EthereumEntry;
    let addr = entry
        .parse_address(&ethereum(), "0x5aAeb6053F3E94C9b9A09f33669435E7Ef1BeAed", None)
        .unwrap();
    assert_eq!(addr.data(), unhex("5aaeb6053f3e94c9b9a09f33669435e7ef1beaed"));
    assert_eq!(
        entry.parse_address(&ethereum(), "5aAeb6053F3E94C9b9A09f33669435E7Ef1BeAed", None),
        Err(AddressError::MissingPrefix)
    );
    assert_eq!(
        entry.parse_address(&ethereum(), "0x5aAeb6053F3E94C9b9A09f33669435E7Ef1BeAe", None),
        Err(AddressError::FromHexError)
    );
    assert_eq!(
        entry.parse_address(&ethereum(), "0x5AAeb6053F3E94C9b9A09f33669435E7Ef1BeAed", None),
        Err(AddressError::InvalidChecksum)
    );
}

#[test]
fn test_entry_derive_address() {
    let entry = EthereumEntry;
    let addr = entry
        .derive_address(&ethereum(), generator(), Derivation::Default, None)
        .unwrap();
    assert_eq!(addr.to_string(), "0x7E5F4552091A69125d5DfCb7b8C2659029395Bdf");
    // The same key has the same address.
    assert_eq!(
        entry.derive_address(&ethereum(), generator(), Derivation::Default, None),
        Ok(addr)
    );
}

#[test]
fn test_entry_derive_address_errors() {
    let entry = EthereumEntry;
    assert_eq!(
        entry.derive_address(&ethereum(), vec![0xff; 33], Derivation::Default, None),
        Err(AddressError::PublicKeyTypeMismatch)
    );
    assert_eq!(
        entry.derive_address(&ethereum(), vec![0u8; 32], Derivation::Default, None),
        Err(AddressError::PublicKeyTypeMismatch)
    );
    assert_eq!(
        entry.derive_address(&ethereum(), vec![], Derivation::Default, None),
        Err(AddressError::PublicKeyTypeMismatch)
    );
    let bare = CoinItem { derivations: vec![], ..ethereum() };
    assert_eq!(
        entry.derive_address(&bare, generator(), Derivation::Default, None),
        Err(AddressError::Unsupported)
    );
}

#[test]
fn test_entry_derive_address_key_is_looked_at_first() {
    // A key that the curve rejects is a mismatch, whatever the context
    // says of the derivation.
    let entry = EthereumEntry;
    let bare = CoinItem { derivations: vec![], ..ethereum() };
    for rejected in [vec![], vec![0u8; 32], vec![0xff; 33], vec![0u8; 65]] {
        assert_eq!(
            entry.derive_address(&bare, rejected.clone(), Derivation::Default, None),
            Err(AddressError::PublicKeyTypeMismatch)
        );
        assert_eq!(
            entry.derive_address(&ethereum(), rejected, Derivation::Default, None),
            Err(AddressError::PublicKeyTypeMismatch)
        );
    }
}

#[test]
fn test_entry_address_round_trip() {
    let entry = EthereumEntry;
    let derived = entry
        .derive_address(&ethereum(), generator(), Derivation::Default, None)
        .unwrap();
    assert_eq!(
        entry.parse_address(&ethereum(), &derived.to_string(), None),
        Ok(derived)
    );
}

#[test]
fn test_entry_optional_modules() {
    let entry = EthereumEntry;
    assert_eq!(entry.json_signer(), Some(EthJsonSigner));
    assert_eq!(entry.signing_input_builder(), Some(EthInputBuilder));
    // The entry does not say that it plans: the planner is absent.
    assert!(entry.plan_builder().is_none());
}

#[test]
fn test_entry_signing() {
    let entry = EthereumEntry;
    let coin = ethereum();
    let signed = entry.sign(&coin, input());
    assert_eq!(signed.error, SigningError::NoError);
    assert_eq!(signed.v, vec![0x25]);

    let pre = entry.preimage_hashes(&coin, input());
    assert_eq!(pre.error, SigningError::NoError);
    assert_eq!(pre.data_hash, signed.pre_hash);

    let mut signature = signed.r.clone();
    signature.extend_from_slice(&signed.s);
    signature.push(0);
    let compiled = entry.compile(&coin, input(), vec![signature], vec![generator()]);
    assert_eq!(compiled, signed);
    assert_eq!(compiled.encoded, signed.encoded);
}

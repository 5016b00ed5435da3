use wallet_core::ethereum::address::Address;
use wallet_core::ethereum::signature::{
    checked_replay_protection, fits_replay_protection, replay_protection, signature_view,
    EthSignature, SignatureEip155, SignatureView,
};
use wallet_core::ethereum::transaction::{
    SignedTransaction, SignedTransactionBox, SignedTransactionBoxed, TransactionCommon,
    UnsignedTransaction, UnsignedTransactionBox,
};
use wallet_core::ethereum::transaction_non_typed::TransactionNonTyped;
use wallet_core::hash::keccak256;
use wallet_core::hex;
use wallet_core::number::U256;
use wallet_core::secp256k1::Signature;

fn unhex(text: &str) -> Vec<u8> {
    hex::decode(text.as_bytes()).unwrap()
}

fn number(text: &str) -> U256 {
    U256::from_big_endian_slice(&unhex(text)).unwrap()
}

const UNSIGNED: &str = "ec098504a817c800825208943535353535353535353535353535353535353535880de0b6b3a764000080018080";
const PRE_HASH: &str = "daf5a779ae972f972197303d7b574746c7ef83eadac0f2791ad23db92e4c8e53";
const SIGNED: &str = "f86c098504a817c800825208943535353535353535353535353535353535353535880de0b6b3a76400008025a028ef61340bd939bc2195fe537567866003e1a15d3c71ff63e1590620aa636276a067cbe9d8997f761aecb703304b3800ccf555c9f3dc64214b297fb1966a3b6d83";
const R: &str = "28ef61340bd939bc2195fe537567866003e1a15d3c71ff63e1590620aa636276";
const S: &str = "67cbe9d8997f761aecb703304b3800ccf555c9f3dc64214b297fb1966a3b6d83";

fn transfer() -> TransactionNonTyped {
    TransactionNonTyped {
        nonce: U256::from_u64(9),
        gas_price: U256::from_u64(20_000_000_000),
        gas_limit: U256::from_u64(21_000),
        to: Some(Address { bytes: [0x35; 20] }),
        amount: U256::from_u64(1_000_000_000_000_000_000),
        payload: vec![],
    }
}

fn signature() -> Signature {
    Signature { r: number(R), s: number(S), v: 0 }
}

#[test]
fn test_unsigned_encode() {
    let tx = transfer();
    assert_eq!(UnsignedTransaction::encode(&tx, U256::from_u64(1)), unhex(UNSIGNED));
}

#[test]
fn test_pre_hash() {
    let tx = transfer();
    let hash = UnsignedTransaction::pre_hash(&tx, U256::from_u64(1));
    assert_eq!(hash.to_vec(), unhex(PRE_HASH));
}

#[test]
fn test_pre_hash_is_deterministic() {
    let chain = U256::from_u64(1);
    let first = UnsignedTransaction::pre_hash(&transfer(), chain);
    let second = UnsignedTransaction::pre_hash(&transfer(), chain);
    assert_eq!(first, second);
}

#[test]
fn test_pre_hash_depends_on_chain() {
    let tx = transfer();
    let one = UnsignedTransaction::pre_hash(&tx, U256::from_u64(1));
    let two = UnsignedTransaction::pre_hash(&tx, U256::from_u64(2));
    assert_ne!(one, two);
    assert_ne!(
        UnsignedTransaction::encode(&tx, U256::from_u64(1)),
        UnsignedTransaction::encode(&tx, U256::from_u64(2))
    );
}

#[test]
fn test_into_signed_encode() {
    let signed = transfer().into_signed(signature(), U256::from_u64(1));
    assert_eq!(SignedTransaction::encode(&signed), unhex(SIGNED));
}

#[test]
fn test_signed_hash() {
    let signed = transfer().into_signed(signature(), U256::from_u64(1));
    let hash = SignedTransaction::hash(&signed);
    assert_eq!(hash, keccak256(&unhex(SIGNED)));
    // The identifier is not the digest that was signed.
    assert_ne!(hash.to_vec(), unhex(PRE_HASH));
    assert_eq!(hash, SignedTransaction::hash(&signed));
}

#[test]
fn test_signed_signature() {
    let signed = transfer().into_signed(signature(), U256::from_u64(1));
    let protected = SignedTransaction::signature(&signed);
    assert_eq!(protected.v(), U256::from_u64(37));
    assert_eq!(protected.r(), number(R));
    assert_eq!(protected.s(), number(S));
    assert_eq!(signed.chain_id, U256::from_u64(1));
}

#[test]
fn test_signing_keeps_payload() {
    let mut tx = transfer();
    tx.payload = vec![1, 2, 3];
    assert_eq!(tx.payload(), vec![1, 2, 3]);
    let signed = tx.into_signed(signature(), U256::from_u64(1));
    assert_eq!(signed.payload(), vec![1, 2, 3]);
}

#[test]
fn test_contract_creation_encode() {
    let tx = TransactionNonTyped {
        nonce: U256::zero(),
        gas_price: U256::from_u64(1),
        gas_limit: U256::from_u64(2),
        to: None,
        amount: U256::zero(),
        payload: vec![0x60, 0x80],
    };
    assert_eq!(
        UnsignedTransaction::encode(&tx, U256::from_u64(5)),
        unhex("cb8001028080826080058080")
    );
}

#[test]
fn test_boxed_unsigned_is_the_same() {
    let tx = transfer();
    let chain = U256::from_u64(1);
    assert_eq!(
        UnsignedTransactionBox::encode(&tx, chain),
        UnsignedTransaction::encode(&tx, chain)
    );
    assert_eq!(
        UnsignedTransactionBox::pre_hash(&tx, chain),
        UnsignedTransaction::pre_hash(&tx, chain)
    );
    assert_eq!(UnsignedTransactionBox::encode(&tx, chain), unhex(UNSIGNED));
}

#[test]
fn test_boxed_signed_is_the_same() {
    let signed = transfer().into_signed(signature(), U256::from_u64(1));
    assert_eq!(SignedTransactionBox::encode(&signed), SignedTransaction::encode(&signed));
    assert_eq!(SignedTransactionBox::hash(&signed), SignedTransaction::hash(&signed));
    assert_eq!(
        SignedTransactionBox::signature(&signed),
        SignatureView { v: U256::from_u64(37), r: number(R), s: number(S) }
    );
}

#[test]
fn test_boxed_into_signed_is_the_same() {
    let chain = U256::from_u64(1);
    let typed = transfer().into_signed(signature(), chain);
    let boxed: Box<dyn UnsignedTransactionBox> = Box::new(transfer());
    assert_eq!(boxed.encode(chain), unhex(UNSIGNED));
    assert_eq!(boxed.pre_hash(chain).to_vec(), unhex(PRE_HASH));
    let signed = boxed.into_signed(signature(), chain);
    assert_eq!(SignedTransactionBox::encode(&signed), unhex(SIGNED));
    assert_eq!(SignedTransactionBox::encode(&signed), SignedTransaction::encode(&typed));
    assert_eq!(SignedTransactionBox::hash(&signed), SignedTransaction::hash(&typed));
    assert_eq!(signed.payload(), typed.payload());
    assert_eq!(
        SignedTransactionBox::signature(&signed),
        SignatureView { v: U256::from_u64(37), r: number(R), s: number(S) }
    );
    assert_eq!(signed, SignedTransactionBoxed::new(&typed));
}

#[test]
fn test_boxed_transactions_in_one_collection() {
    let chain = U256::from_u64(1);
    let mut other = transfer();
    other.nonce = U256::from_u64(10);
    let expected = UnsignedTransaction::pre_hash(&other, chain);
    let held: Vec<Box<dyn UnsignedTransactionBox>> = vec![Box::new(transfer()), Box::new(other)];
    assert_eq!(held[0].pre_hash(chain).to_vec(), unhex(PRE_HASH));
    assert_eq!(held[1].pre_hash(chain), expected);
    let signed: Vec<Box<dyn SignedTransactionBox>> = held
        .into_iter()
        .map(|tx| Box::new(tx.into_signed(signature(), chain)) as Box<dyn SignedTransactionBox>)
        .collect();
    assert_eq!(signed[0].encode(), unhex(SIGNED));
    assert_ne!(signed[1].encode(), unhex(SIGNED));
    assert_eq!(signed[0].hash(), keccak256(&unhex(SIGNED)));
}

#[test]
fn test_replay_protection() {
    let one = U256::from_u64(1);
    assert_eq!(replay_protection(one, 0), U256::from_u64(37));
    assert_eq!(replay_protection(one, 1), U256::from_u64(38));
    assert_eq!(replay_protection(U256::from_u64(56), 1), U256::from_u64(148));
    // No chain: the signature is not bound to one.
    assert_eq!(replay_protection(U256::zero(), 0), U256::from_u64(27));
    assert_eq!(replay_protection(U256::zero(), 1), U256::from_u64(28));
    assert_eq!(checked_replay_protection(one, 0), Some(U256::from_u64(37)));
    assert!(fits_replay_protection(one, 3));
}

#[test]
fn test_replay_protection_out_of_range() {
    let max = U256 { hi: u128::MAX, lo: u128::MAX };
    assert_eq!(checked_replay_protection(max, 0), None);
    assert!(!fits_replay_protection(max, 0));
    // Twice the chain id fits, but not with the offset.
    let half = U256 { hi: u128::MAX >> 1, lo: u128::MAX };
    assert_eq!(checked_replay_protection(half, 0), None);
    // The largest chain id that leaves room: twice it and 35 are the
    // largest number of 256 bits.
    let largest = U256 { hi: u128::MAX >> 1, lo: u128::MAX - 17 };
    assert_eq!(
        checked_replay_protection(largest, 0),
        Some(U256 { hi: u128::MAX, lo: u128::MAX })
    );
    assert_eq!(checked_replay_protection(largest, 1), None);
    let below = U256 { hi: u128::MAX >> 1, lo: u128::MAX - 18 };
    assert_eq!(
        checked_replay_protection(below, 1),
        Some(U256 { hi: u128::MAX, lo: u128::MAX - 1 })
    );
}

#[test]
fn test_signature_eip155() {
    let protected = SignatureEip155::new(signature(), U256::from_u64(1));
    assert_eq!(
        protected,
        SignatureEip155 { v: U256::from_u64(37), r: number(R), s: number(S) }
    );
    assert_eq!(
        signature_view(&protected),
        SignatureView { v: U256::from_u64(37), r: number(R), s: number(S) }
    );
    let view = signature_view(&protected);
    assert_eq!((view.v(), view.r(), view.s()), (U256::from_u64(37), number(R), number(S)));
}

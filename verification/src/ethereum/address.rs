//! Addresses of the Ethereum family: 20 bytes, shown in hexadecimal whose
//! letter case carries a checksum.

use vstd::prelude::*;
use vstd::slice::slice_subrange;
use vstd::string::*;
use vstd::utf8::is_ascii_chars;
use crate::ascii::{
    as_ascii_bytes, lemma_bytes_of_chars, spec_bytes, spec_chars, spec_is_ascii, to_string,
};
use crate::coin_entry::{AddressError, AddressResult, CoinAddress};
use crate::hash::{keccak256, keccak256_digest};
use crate::hex::{
    decode, encode, lemma_decode_of_encode, spec_decoded, spec_digit, spec_digit_value,
    spec_encode, spec_is_hex, spec_nibble,
};
use crate::secp256k1::PublicKey;

verus! {

/// Whether a byte is one of the letters `a` to `f`.
pub open spec fn spec_is_lower_letter(c: u8) -> bool {
    0x61 <= c <= 0x66
}

/// Whether a byte is one of the letters `A` to `F`.
pub open spec fn spec_is_upper_letter(c: u8) -> bool {
    0x41 <= c <= 0x46
}

/// A digit of the checksummed form: a letter is written in upper case where
/// the half byte of the hash at its position is 8 or more.
pub open spec fn spec_checksum_digit(digit: u8, nibble: u8) -> u8 {
    if spec_is_lower_letter(digit) && nibble >= 8 {
        (digit - 0x20) as u8
    } else {
        digit
    }
}

/// The 40 digits of an address in checksummed form: its lower-case
/// hexadecimal, with the case of each letter taken from the hash of that
/// text.
pub open spec fn spec_checksum(addr: Seq<u8>) -> Seq<u8> {
    let lower = spec_encode(addr);
    let hash = keccak256_digest(lower);
    Seq::new(40, |i: int| spec_checksum_digit(lower[i], spec_nibble(hash, i)))
}

/// The text of an address: `0x` and the 40 checksummed digits.
pub open spec fn spec_text(addr: Seq<u8>) -> Seq<u8> {
    seq![0x30u8, 0x78u8] + spec_checksum(addr)
}

/// Whether a text holds letters of both cases, and so claims a checksum.
pub open spec fn spec_mixed_case(digits: Seq<u8>) -> bool {
    &&& exists|i: int| 0 <= i < digits.len() && spec_is_lower_letter(#[trigger] digits[i])
    &&& exists|i: int| 0 <= i < digits.len() && spec_is_upper_letter(#[trigger] digits[i])
}

/// The bytes of the address that a text stands for, or why it stands for
/// none. An address is `0x` and 40 hexadecimal digits. Letters all of one
/// case carry no checksum; letters of both cases must be the checksummed
/// form.
pub open spec fn spec_parse(text: Seq<char>) -> AddressResult<Seq<u8>> {
    if !(text.len() >= 2 && text[0] == '0' && text[1] == 'x') {
        Err(AddressError::MissingPrefix)
    } else if !is_ascii_chars(text) {
        Err(AddressError::FromHexError)
    } else {
        let digits = spec_bytes(text).subrange(2, text.len() as int);
        if !spec_is_hex(digits) || digits.len() != 40 {
            Err(AddressError::FromHexError)
        } else if spec_mixed_case(digits) && digits != spec_checksum(spec_decoded(digits)) {
            Err(AddressError::InvalidChecksum)
        } else {
            Ok(spec_decoded(digits))
        }
    }
}

/// The address of a public key: the last 20 bytes of the hash of its two
/// coordinates.
pub open spec fn spec_of_public_key(key: Seq<u8>) -> Seq<u8> {
    keccak256_digest(key).subrange(12, 32)
}

/// An address of the Ethereum family.
#[derive(Clone, Copy, Debug, PartialEq, Eq)]
pub struct Address {
    pub bytes: [u8; 20],
}

impl View for Address {
    type V = Seq<u8>;

    open spec fn view(&self) -> Seq<u8> {
        self.bytes@
    }
}

/// Whether a text holds letters of both cases.
fn mixed_case(digits: &[u8]) -> (mixed: bool)
    ensures
        mixed == spec_mixed_case(digits@),
{
    let mut lower = false;
    let mut upper = false;
    let mut i: usize = 0;
    while i < digits.len()
        invariant
            i <= digits@.len(),
            lower == exists|j: int| 0 <= j < i && spec_is_lower_letter(#[trigger] digits@[j]),
            upper == exists|j: int| 0 <= j < i && spec_is_upper_letter(#[trigger] digits@[j]),
        decreases digits@.len() - i,
    {
        let c = digits[i];
        if 0x61 <= c && c <= 0x66 {
            lower = true;
        }
        if 0x41 <= c && c <= 0x46 {
            upper = true;
        }
        i += 1;
    }
    lower && upper
}

/// Whether two byte strings are the same.
fn same_bytes(a: &[u8], b: &[u8]) -> (same: bool)
    ensures
        same == (a@ == b@),
{
    if a.len() != b.len() {
        return false;
    }
    let mut i: usize = 0;
    while i < a.len()
        invariant
            i <= a@.len(),
            a@.len() == b@.len(),
            forall|j: int| 0 <= j < i ==> a@[j] == b@[j],
        decreases a@.len() - i,
    {
        if a[i] != b[i] {
            return false;
        }
        i += 1;
    }
    assert(a@ =~= b@);
    true
}

impl Address {
    /// The address of 20 bytes; any other number of bytes gives `None`.
    pub fn from_slice(data: &[u8]) -> (res: Option<Address>)
        ensures
            res is Some <==> data@.len() == 20,
            res matches Some(addr) ==> addr@ == data@,
    {
        if data.len() != 20 {
            return None;
        }
        let mut bytes = [0u8; 20];
        let mut i: usize = 0;
        while i < 20
            invariant
                i <= 20,
                data@.len() == 20,
                forall|j: int| 0 <= j < i ==> bytes@[j] == data@[j],
            decreases 20 - i,
        {
            bytes[i] = data[i];
            i += 1;
        }
        assert(bytes@ =~= data@);
        Some(Address { bytes })
    }

    /// The address that belongs to a public key.
    pub fn with_secp256k1_pubkey(pubkey: &PublicKey) -> (addr: Address)
        ensures
            addr@ == spec_of_public_key(pubkey@),
    {
        let point = pubkey.uncompressed_without_prefix();
        let hash = keccak256(point.as_slice());
        match Address::from_slice(slice_subrange(hash.as_slice(), 12, 32)) {
            Some(addr) => addr,
            // Not taken: the slice has 20 bytes.
            None => Address { bytes: [0u8; 20] },
        }
    }

    /// The 40 digits of the address in checksummed form.
    pub fn checksum_digits(&self) -> (digits: Vec<u8>)
        ensures
            digits@ == spec_checksum(self@),
            digits@.len() == 40,
    {
        let lower = encode(self.bytes.as_slice());
        let hash = keccak256(lower.as_slice());
        let mut digits: Vec<u8> = Vec::new();
        let mut i: usize = 0;
        while i < 40
            invariant
                i <= 40,
                digits@.len() == i,
                lower@ == spec_encode(self@),
                lower@.len() == 40,
                hash@ == keccak256_digest(lower@),
                hash@.len() == 32,
                forall|j: int|
                    0 <= j < i ==> digits@[j] == spec_checksum_digit(
                        lower@[j],
                        spec_nibble(hash@, j),
                    ),
            decreases 40 - i,
        {
            let digit = lower[i];
            let byte = hash.bytes[i / 2];
            let nibble = if i % 2 == 0 {
                byte / 16
            } else {
                byte % 16
            };
            if 0x61 <= digit && digit <= 0x66 && nibble >= 8 {
                digits.push(digit - 0x20);
            } else {
                digits.push(digit);
            }
            i += 1;
        }
        assert(digits@ =~= spec_checksum(self@));
        digits
    }

    /// The address in its checksummed text form, as ASCII bytes.
    pub fn text(&self) -> (text: Vec<u8>)
        ensures
            text@ == spec_text(self@),
            spec_is_ascii(text@),
    {
        let mut text: Vec<u8> = Vec::new();
        text.push(0x30);
        text.push(0x78);
        let mut digits = self.checksum_digits();
        text.append(&mut digits);
        proof {
            assert(text@ =~= spec_text(self@));
            lemma_text_is_ascii(self@);
        }
        text
    }

    /// The address in mixed-case checksum form.
    pub fn into_checksum_address(self) -> (text: String)
        ensures
            text@ == spec_chars(spec_text(self@)),
    {
        let text = self.text();
        to_string(text.as_slice())
    }

    /// Reads an address from its text form.
    pub fn from_str(s: &str) -> (res: AddressResult<Address>)
        ensures
            res is Ok <==> spec_parse(s@) is Ok,
            res matches Ok(addr) ==> spec_parse(s@) == Ok::<Seq<u8>, AddressError>(addr@),
            res matches Err(e) ==> spec_parse(s@) == Err::<Seq<u8>, AddressError>(e),
    {
        let len = s.unicode_len();
        if len < 2 || s.get_char(0) != '0' || s.get_char(1) != 'x' {
            return Err(AddressError::MissingPrefix);
        }
        let text = match as_ascii_bytes(s) {
            Some(text) => text,
            None => {
                return Err(AddressError::FromHexError);
            },
        };
        let digits = slice_subrange(text, 2, len);
        if digits.len() != 40 {
            return Err(AddressError::FromHexError);
        }
        let bytes = match decode(digits) {
            Some(bytes) => bytes,
            None => {
                return Err(AddressError::FromHexError);
            },
        };
        let addr = match Address::from_slice(bytes.as_slice()) {
            Some(addr) => addr,
            None => {
                return Err(AddressError::FromHexError);
            },
        };
        if mixed_case(digits) {
            let expected = addr.checksum_digits();
            if !same_bytes(digits, expected.as_slice()) {
                return Err(AddressError::InvalidChecksum);
            }
        }
        Ok(addr)
    }
}

impl CoinAddress for Address {
    open spec fn spec_data(&self) -> Seq<u8> {
        self@
    }

    open spec fn spec_display(&self) -> Seq<char> {
        spec_chars(spec_text(self@))
    }

    fn data(&self) -> (bytes: Vec<u8>)
        ensures
            bytes@ == self@,
            bytes@.len() == 20,
    {
        let mut bytes: Vec<u8> = Vec::new();
        bytes.extend_from_slice(self.bytes.as_slice());
        assert(bytes@ =~= self@);
        bytes
    }

    fn to_string(&self) -> (text: String)
        ensures
            text@ == spec_chars(spec_text(self@)),
    {
        self.into_checksum_address()
    }
}

/// Upper or lower, a checksummed digit has the value of the digit it was
/// made of.
pub proof fn lemma_checksum_digit_value(value: u8, nibble: u8)
    requires
        value < 16,
    ensures
        spec_digit_value(spec_checksum_digit(spec_digit(value), nibble)) == Some(value),
        spec_checksum_digit(spec_digit(value), nibble) < 0x80,
{
}

/// The text of an address is ASCII.
pub proof fn lemma_text_is_ascii(addr: Seq<u8>)
    requires
        addr.len() == 20,
    ensures
        spec_is_ascii(spec_text(addr)),
{
    let text = spec_text(addr);
    let lower = spec_encode(addr);
    let hash = keccak256_digest(lower);
    assert forall|i: int| 0 <= i < text.len() implies #[trigger] text[i] < 0x80 by {
        if i >= 2 {
            let k = i - 2;
            assert(text[i] == spec_checksum(addr)[k]);
            assert(spec_nibble(addr, k) < 16);
            lemma_checksum_digit_value(spec_nibble(addr, k), spec_nibble(hash, k));
        }
    }
}

/// The 40 checksummed digits of an address are hexadecimal and stand for
/// the bytes of the address.
pub proof fn lemma_checksum_decodes(addr: Seq<u8>)
    requires
        addr.len() == 20,
    ensures
        spec_is_hex(spec_checksum(addr)),
        spec_decoded(spec_checksum(addr)) == addr,
{
    let digits = spec_checksum(addr);
    let lower = spec_encode(addr);
    let hash = keccak256_digest(lower);
    lemma_decode_of_encode(addr);
    assert forall|i: int| 0 <= i < digits.len() implies spec_digit_value(#[trigger] digits[i])
        == spec_digit_value(lower[i]) && spec_digit_value(digits[i]) is Some by {
        assert(spec_nibble(addr, i) < 16);
        lemma_checksum_digit_value(spec_nibble(addr, i), spec_nibble(hash, i));
    }
    assert(spec_is_hex(digits));
    assert forall|i: int| 0 <= i < 20 implies spec_decoded(digits)[i] == spec_decoded(lower)[i] by {
        assert(spec_digit_value(digits[2 * i]) == spec_digit_value(lower[2 * i]));
        assert(spec_digit_value(digits[2 * i + 1]) == spec_digit_value(lower[2 * i + 1]));
    }
    assert(spec_decoded(digits) =~= spec_decoded(lower));
}

/// An address that is written out and read again is the same address.
pub proof fn lemma_address_round_trip(addr: Address)
    ensures
        spec_parse(addr.spec_display()) == Ok::<Seq<u8>, AddressError>(addr.spec_data()),
{
    let bytes = addr@;
    let text = spec_text(bytes);
    let shown = addr.spec_display();
    lemma_text_is_ascii(bytes);
    lemma_bytes_of_chars(text);
    lemma_checksum_decodes(bytes);
    assert(shown.len() == 42);
    assert(shown[0] == '0' && shown[1] == 'x') by {
        assert(text[0] == 0x30u8 && text[1] == 0x78u8);
    }
    assert(spec_bytes(shown).subrange(2, shown.len() as int) =~= spec_checksum(bytes));
}

} // verus!

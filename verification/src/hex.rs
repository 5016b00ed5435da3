//! Hexadecimal text, as ASCII bytes.

use vstd::prelude::*;

verus! {

/// The lower-case hexadecimal digit of a value below 16.
pub open spec fn spec_digit(value: u8) -> u8 {
    if value < 10 {
        (0x30 + value) as u8
    } else {
        (0x61 + value - 10) as u8
    }
}

/// The value of a hexadecimal digit of either case; `None` for any other
/// byte.
pub open spec fn spec_digit_value(digit: u8) -> Option<u8> {
    if 0x30 <= digit <= 0x39 {
        Some((digit - 0x30) as u8)
    } else if 0x61 <= digit <= 0x66 {
        Some((digit - 0x61 + 10) as u8)
    } else if 0x41 <= digit <= 0x46 {
        Some((digit - 0x41 + 10) as u8)
    } else {
        None
    }
}

/// The half of a byte that the hexadecimal digit at position `i` of a text
/// shows: the upper half at even positions, the lower half at odd ones.
pub open spec fn spec_nibble(data: Seq<u8>, i: int) -> u8 {
    if i % 2 == 0 {
        data[i / 2] / 16
    } else {
        data[i / 2] % 16
    }
}

/// Bytes in lower-case hexadecimal: two digits for each byte.
pub open spec fn spec_encode(data: Seq<u8>) -> Seq<u8> {
    Seq::new(2 * data.len(), |i: int| spec_digit(spec_nibble(data, i)))
}

/// Whether a text is hexadecimal: an even number of digits, of either case.
pub open spec fn spec_is_hex(text: Seq<u8>) -> bool {
    &&& text.len() % 2 == 0
    &&& forall|i: int| 0 <= i < text.len() ==> (#[trigger] spec_digit_value(text[i])) is Some
}

/// The bytes that a hexadecimal text stands for.
pub open spec fn spec_decoded(text: Seq<u8>) -> Seq<u8> {
    Seq::new(
        text.len() / 2,
        |i: int|
            (spec_digit_value(text[2 * i])->0 * 16 + spec_digit_value(text[2 * i + 1])->0) as u8,
    )
}

/// The bytes of a hexadecimal text, or `None` where the text is none.
pub open spec fn spec_decode(text: Seq<u8>) -> Option<Seq<u8>> {
    if spec_is_hex(text) {
        Some(spec_decoded(text))
    } else {
        None
    }
}

/// The lower-case hexadecimal digit of a value below 16.
pub fn digit(value: u8) -> (d: u8)
    requires
        value < 16,
    ensures
        d == spec_digit(value),
        spec_digit_value(d) == Some(value),
{
    if value < 10 {
        0x30 + value
    } else {
        0x61 + (value - 10)
    }
}

/// The value of a hexadecimal digit of either case.
pub fn digit_value(digit: u8) -> (value: Option<u8>)
    ensures
        value == spec_digit_value(digit),
        value matches Some(v) ==> v < 16,
{
    if 0x30 <= digit && digit <= 0x39 {
        Some(digit - 0x30)
    } else if 0x61 <= digit && digit <= 0x66 {
        Some(digit - 0x61 + 10)
    } else if 0x41 <= digit && digit <= 0x46 {
        Some(digit - 0x41 + 10)
    } else {
        None
    }
}

/// Writes bytes in lower-case hexadecimal.
pub fn encode(data: &[u8]) -> (text: Vec<u8>)
    ensures
        text@ == spec_encode(data@),
        text@.len() == 2 * data@.len(),
{
    let mut text: Vec<u8> = Vec::new();
    let mut i: usize = 0;
    while i < data.len()
        invariant
            i <= data@.len(),
            text@.len() == 2 * i,
            forall|j: int| 0 <= j < 2 * i ==> text@[j] == spec_digit(spec_nibble(data@, j)),
        decreases data@.len() - i,
    {
        let byte = data[i];
        text.push(digit(byte / 16));
        text.push(digit(byte % 16));
        i += 1;
    }
    assert(text@ =~= spec_encode(data@));
    text
}

/// Reads hexadecimal text of either case. A text of odd length, or with a
/// byte that is no digit, gives `None`.
pub fn decode(text: &[u8]) -> (data: Option<Vec<u8>>)
    ensures
        data is Some <==> spec_is_hex(text@),
        data matches Some(d) ==> d@ == spec_decoded(text@),
{
    let len = text.len();
    if len % 2 != 0 {
        return None;
    }
    let mut data: Vec<u8> = Vec::new();
    let mut i: usize = 0;
    while i < len / 2
        invariant
            len == text@.len(),
            len % 2 == 0,
            i <= len / 2,
            data@.len() == i,
            forall|j: int| 0 <= j < 2 * i ==> (#[trigger] spec_digit_value(text@[j])) is Some,
            forall|j: int| 0 <= j < i ==> data@[j] == spec_decoded(text@)[j],
        decreases len / 2 - i,
    {
        let high = match digit_value(text[2 * i]) {
            Some(v) => v,
            None => {
                return None;
            },
        };
        let low = match digit_value(text[2 * i + 1]) {
            Some(v) => v,
            None => {
                return None;
            },
        };
        data.push(high * 16 + low);
        i += 1;
    }
    assert(data@ =~= spec_decoded(text@));
    Some(data)
}

/// Text made by `encode` reads back as the bytes it was made of.
pub proof fn lemma_decode_of_encode(data: Seq<u8>)
    ensures
        spec_decode(spec_encode(data)) == Some(data),
{
    let text = spec_encode(data);
    assert forall|i: int| 0 <= i < text.len() implies (#[trigger] spec_digit_value(text[i]))
        is Some by {
        assert(spec_nibble(data, i) < 16);
    }
    assert forall|i: int| 0 <= i < data.len() implies spec_decoded(text)[i] == data[i] by {
        assert(text[2 * i] == spec_digit(spec_nibble(data, 2 * i)));
        assert(text[2 * i + 1] == spec_digit(spec_nibble(data, 2 * i + 1)));
        assert(spec_nibble(data, 2 * i) == data[i] / 16);
        assert(spec_nibble(data, 2 * i + 1) == data[i] % 16);
    }
    assert(spec_decoded(text) =~= data);
}

} // verus!

//! Text that is ASCII, as bytes and as a string.

use vstd::prelude::*;
use vstd::string::*;
use vstd::utf8::is_ascii_chars;

verus! {

/// The characters that ASCII bytes stand for.
pub open spec fn spec_chars(bytes: Seq<u8>) -> Seq<char> {
    Seq::new(bytes.len(), |i: int| bytes[i] as char)
}

/// The bytes of ASCII characters.
pub open spec fn spec_bytes(chars: Seq<char>) -> Seq<u8> {
    Seq::new(chars.len(), |i: int| chars[i] as u8)
}

/// Whether every byte is ASCII.
pub open spec fn spec_is_ascii(bytes: Seq<u8>) -> bool {
    forall|i: int| 0 <= i < bytes.len() ==> #[trigger] bytes[i] < 0x80
}

/// Calls `String::push`.
///
/// Trusted: the character is appended to the end of the string, and nothing
/// else of the string changes.
#[verifier::external_body]
fn string_push(text: &mut String, c: char)
    ensures
        final(text)@ == old(text)@.push(c),
{
    text.push(c)
}

/// The string of ASCII bytes.
pub fn to_string(bytes: &[u8]) -> (text: String)
    requires
        spec_is_ascii(bytes@),
    ensures
        text@ == spec_chars(bytes@),
{
    let mut text = String::new();
    let mut i: usize = 0;
    while i < bytes.len()
        invariant
            i <= bytes@.len(),
            text@.len() == i,
            forall|j: int| 0 <= j < i ==> text@[j] == bytes@[j] as char,
        decreases bytes@.len() - i,
    {
        string_push(&mut text, bytes[i] as char);
        i += 1;
    }
    assert(text@ =~= spec_chars(bytes@));
    text
}

/// The bytes of a string that is ASCII, and `None` for one that is not.
pub fn as_ascii_bytes(text: &str) -> (bytes: Option<&[u8]>)
    ensures
        bytes is Some <==> is_ascii_chars(text@),
        bytes matches Some(b) ==> b@ == spec_bytes(text@) && spec_is_ascii(b@),
{
    if text.is_ascii() {
        let bytes = text.as_bytes();
        proof {
            is_ascii_spec_bytes(text);
            assert(bytes@ =~= spec_bytes(text@));
        }
        Some(bytes)
    } else {
        None
    }
}

/// ASCII bytes are found again in the characters they stand for.
pub proof fn lemma_bytes_of_chars(bytes: Seq<u8>)
    requires
        spec_is_ascii(bytes),
    ensures
        is_ascii_chars(spec_chars(bytes)),
        spec_bytes(spec_chars(bytes)) == bytes,
{
    let chars = spec_chars(bytes);
    assert forall|i: int| 0 <= i < chars.len() implies '\0' <= #[trigger] chars[i] <= '\u{7f}' by {
        assert(bytes[i] < 0x80);
    }
    assert forall|i: int| 0 <= i < bytes.len() implies spec_bytes(chars)[i] == bytes[i] by {
        assert(bytes[i] < 0x80);
    }
    assert(spec_bytes(chars) =~= bytes);
}

} // verus!

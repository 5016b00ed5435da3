//! The recursive length prefix encoding, as far as transactions need it:
//! byte strings, numbers, and one list of them.

use vstd::prelude::*;
use crate::bytes::{
    be_compact, lemma_be_compact_leading, lemma_be_compact_len, lemma_pow256_values,
    push_be_compact,
};
use crate::number::U256;

verus! {

/// The first byte of a string of at most 55 bytes is `STRING_OFFSET` plus
/// its length.
pub const STRING_OFFSET: u8 = 0x80;

/// The first byte of a list of at most 55 bytes is `LIST_OFFSET` plus its
/// length.
pub const LIST_OFFSET: u8 = 0xc0;

/// The prefix of an item of `len` bytes. Up to 55 bytes the length is part of
/// the first byte; above, the first byte says how many bytes the length
/// takes, and the length follows in its shortest big-endian form.
pub open spec fn spec_header(len: nat, offset: u8) -> Seq<u8> {
    if len <= 55 {
        seq![(offset + len) as u8]
    } else {
        seq![(offset + 55 + be_compact(len).len()) as u8] + be_compact(len)
    }
}

/// The encoding of a byte string. One byte below `0x80` is its own encoding.
pub open spec fn spec_encode_bytes(data: Seq<u8>) -> Seq<u8> {
    if data.len() == 1 && data[0] < 0x80 {
        data
    } else {
        spec_header(data.len(), STRING_OFFSET) + data
    }
}

/// The encoding of a number: that of its shortest big-endian form.
pub open spec fn spec_encode_number(n: nat) -> Seq<u8> {
    spec_encode_bytes(be_compact(n))
}

/// The encoding of a list whose items, encoded one after the other, are
/// `payload`.
pub open spec fn spec_encode_list(payload: Seq<u8>) -> Seq<u8> {
    spec_header(payload.len(), LIST_OFFSET) + payload
}

/// Appends the prefix of an item of `len` bytes.
fn push_header(out: &mut Vec<u8>, len: usize, offset: u8)
    requires
        offset == STRING_OFFSET || offset == LIST_OFFSET,
    ensures
        final(out)@ == old(out)@ + spec_header(len as nat, offset),
{
    if len <= 55 {
        out.push(offset + len as u8);
        assert(out@ =~= old(out)@ + spec_header(len as nat, offset));
    } else {
        let mut digits: Vec<u8> = Vec::new();
        push_be_compact(&mut digits, len as u128);
        proof {
            lemma_pow256_values();
            lemma_be_compact_len(len as nat, 8);
            assert(digits@ =~= be_compact(len as nat));
        }
        out.push(offset + 55 + digits.len() as u8);
        out.append(&mut digits);
        assert(out@ =~= old(out)@ + spec_header(len as nat, offset));
    }
}

/// Appends the encoding of a byte string.
pub fn push_bytes(out: &mut Vec<u8>, data: &[u8])
    ensures
        final(out)@ == old(out)@ + spec_encode_bytes(data@),
{
    if data.len() == 1 && data[0] < 0x80 {
        out.push(data[0]);
        assert(out@ =~= old(out)@ + spec_encode_bytes(data@));
    } else {
        push_header(out, data.len(), STRING_OFFSET);
        out.extend_from_slice(data);
        assert(out@ =~= old(out)@ + spec_encode_bytes(data@));
    }
}

/// The encoding of a byte string.
pub fn encode_bytes(data: &[u8]) -> (out: Vec<u8>)
    ensures
        out@ == spec_encode_bytes(data@),
{
    let mut out: Vec<u8> = Vec::new();
    push_bytes(&mut out, data);
    assert(out@ =~= spec_encode_bytes(data@));
    out
}

/// A list under construction: the encodings of the items appended so far.
pub struct RlpList {
    pub payload: Vec<u8>,
}

impl View for RlpList {
    type V = Seq<u8>;

    open spec fn view(&self) -> Seq<u8> {
        self.payload@
    }
}

impl RlpList {
    /// The empty list.
    pub fn new() -> (list: RlpList)
        ensures
            list@ == Seq::<u8>::empty(),
    {
        RlpList { payload: Vec::new() }
    }

    /// Appends a byte string.
    pub fn append_bytes(&mut self, data: &[u8])
        ensures
            final(self)@ == old(self)@ + spec_encode_bytes(data@),
    {
        push_bytes(&mut self.payload, data);
    }

    /// Appends a number.
    pub fn append_number(&mut self, n: U256)
        ensures
            final(self)@ == old(self)@ + spec_encode_number(n@),
    {
        let digits = n.to_big_endian_compact();
        push_bytes(&mut self.payload, digits.as_slice());
    }

    /// The encoding of the list.
    pub fn finish(self) -> (out: Vec<u8>)
        ensures
            out@ == spec_encode_list(self@),
    {
        let mut out: Vec<u8> = Vec::new();
        let mut payload = self.payload;
        push_header(&mut out, payload.len(), LIST_OFFSET);
        out.append(&mut payload);
        assert(out@ =~= spec_encode_list(self@));
        out
    }
}

/// The length of an encoded byte string, read off its first byte, for
/// strings of at most 55 bytes.
pub open spec fn spec_short_item_len(first: u8) -> nat {
    if first < 0x80 {
        1
    } else {
        (first - 0x80 + 1) as nat
    }
}

/// An encoded string of at most 55 bytes says in its first byte how long it
/// is.
pub proof fn lemma_short_item_len(data: Seq<u8>)
    requires
        data.len() <= 55,
    ensures
        spec_encode_bytes(data).len() >= 1,
        spec_encode_bytes(data).len() == spec_short_item_len(spec_encode_bytes(data)[0]),
        spec_encode_bytes(data)[0] < 0xb8,
{
}

/// Among strings of at most 55 bytes no encoding is the beginning of
/// another: where two encodings, each followed by anything, agree, the
/// strings are the same.
pub proof fn lemma_short_items_prefix_free(
    a: Seq<u8>,
    b: Seq<u8>,
    after_a: Seq<u8>,
    after_b: Seq<u8>,
)
    requires
        a.len() <= 55,
        b.len() <= 55,
        spec_encode_bytes(a) + after_a == spec_encode_bytes(b) + after_b,
    ensures
        a == b,
        after_a == after_b,
{
    let ea = spec_encode_bytes(a);
    let eb = spec_encode_bytes(b);
    let whole = ea + after_a;
    lemma_short_item_len(a);
    lemma_short_item_len(b);
    assert(whole[0] == ea[0]);
    assert((eb + after_b)[0] == eb[0]);
    assert(ea.len() == eb.len());
    assert(ea =~= whole.subrange(0, ea.len() as int));
    assert(eb =~= (eb + after_b).subrange(0, eb.len() as int));
    assert(ea == eb);
    assert(after_a =~= whole.subrange(ea.len() as int, whole.len() as int));
    assert(after_b =~= (eb + after_b).subrange(eb.len() as int, whole.len() as int));
    if a.len() == 1 && a[0] < 0x80 {
        assert(ea[0] < 0x80);
        assert(b.len() == 1 && b[0] < 0x80);
        assert(a =~= b);
    } else {
        assert(ea[0] >= 0x80);
        assert(!(b.len() == 1 && b[0] < 0x80));
        assert(a =~= ea.subrange(1, ea.len() as int));
        assert(b =~= eb.subrange(1, eb.len() as int));
    }
}

/// The header of a longer item is longer or the same, never shorter.
pub proof fn lemma_header_len_monotonic(shorter: nat, longer: nat, offset: u8)
    requires
        shorter <= longer,
    ensures
        spec_header(shorter, offset).len() <= spec_header(longer, offset).len(),
{
    lemma_be_compact_len_monotonic(shorter, longer);
    lemma_be_compact_leading(longer);
}

/// The shortest form of a larger number is no shorter.
pub proof fn lemma_be_compact_len_monotonic(smaller: nat, larger: nat)
    requires
        smaller <= larger,
    ensures
        be_compact(smaller).len() <= be_compact(larger).len(),
    decreases larger,
{
    if smaller > 0 {
        lemma_be_compact_len_monotonic(smaller / 256, larger / 256);
    }
}

/// Two lists with the same encoding have the same payload.
pub proof fn lemma_list_payload_injective(first: Seq<u8>, second: Seq<u8>)
    requires
        spec_encode_list(first) == spec_encode_list(second),
    ensures
        first == second,
{
    let ef = spec_encode_list(first);
    let es = spec_encode_list(second);
    let hf = spec_header(first.len(), LIST_OFFSET);
    let hs = spec_header(second.len(), LIST_OFFSET);
    if first.len() <= second.len() {
        lemma_header_len_monotonic(first.len(), second.len(), LIST_OFFSET);
    } else {
        lemma_header_len_monotonic(second.len(), first.len(), LIST_OFFSET);
    }
    assert(ef.len() == hf.len() + first.len());
    assert(es.len() == hs.len() + second.len());
    assert(first.len() == second.len());
    assert(hf == hs);
    assert(first =~= ef.subrange(hf.len() as int, ef.len() as int));
    assert(second =~= es.subrange(hs.len() as int, es.len() as int));
}

} // verus!

//! Big-endian byte strings as numbers: the mathematical functions that the
//! number and encoding modules share, and what is proved of them.

use vstd::prelude::*;

verus! {

/// 256 to the power `n`.
pub open spec fn pow256(n: nat) -> nat
    decreases n,
{
    if n == 0 {
        1
    } else {
        256 * pow256((n - 1) as nat)
    }
}

/// The number that a big-endian byte string stands for. Leading zeros do not
/// count; the empty string stands for zero.
pub open spec fn be_value(s: Seq<u8>) -> nat
    decreases s.len(),
{
    if s.len() == 0 {
        0
    } else {
        be_value(s.drop_last()) * 256 + s.last() as nat
    }
}

/// The last `len` big-endian digits of `n` to base 256.
pub open spec fn be_fixed(n: nat, len: nat) -> Seq<u8>
    decreases len,
{
    if len == 0 {
        Seq::empty()
    } else {
        be_fixed(n / 256, (len - 1) as nat).push((n % 256) as u8)
    }
}

/// The shortest big-endian byte string that stands for `n`: no leading zero,
/// and nothing at all for zero.
pub open spec fn be_compact(n: nat) -> Seq<u8>
    decreases n,
{
    if n == 0 {
        Seq::empty()
    } else {
        be_compact(n / 256).push((n % 256) as u8)
    }
}

pub proof fn lemma_pow256_positive(n: nat)
    ensures
        pow256(n) > 0,
    decreases n,
{
    if n > 0 {
        lemma_pow256_positive((n - 1) as nat);
    }
}

pub proof fn lemma_pow256_monotonic(a: nat, b: nat)
    requires
        a <= b,
    ensures
        pow256(a) <= pow256(b),
    decreases b,
{
    if a < b {
        lemma_pow256_monotonic(a, (b - 1) as nat);
        lemma_pow256_positive((b - 1) as nat);
    }
}

/// The powers of 256 that bound a machine word and a 128-bit limb.
pub proof fn lemma_pow256_values()
    ensures
        pow256(0) == 1,
        pow256(1) == 0x100,
        pow256(8) == 0x1_0000_0000_0000_0000nat,
        pow256(16) == 0x1_0000_0000_0000_0000_0000_0000_0000_0000nat,
{
    reveal_with_fuel(pow256, 9);
    assert(pow256(8) == 0x1_0000_0000_0000_0000nat);
    assert(pow256(16) == pow256(8) * 0x1_0000_0000_0000_0000nat) by {
        assert(pow256(9) == 256 * pow256(8));
        assert(pow256(10) == 256 * pow256(9));
        assert(pow256(11) == 256 * pow256(10));
        assert(pow256(12) == 256 * pow256(11));
        assert(pow256(13) == 256 * pow256(12));
        assert(pow256(14) == 256 * pow256(13));
        assert(pow256(15) == 256 * pow256(14));
        assert(pow256(16) == 256 * pow256(15));
    }
}

/// A string of `len` bytes stands for a number below `256^len`.
pub proof fn lemma_be_value_bound(s: Seq<u8>)
    ensures
        be_value(s) < pow256(s.len()),
    decreases s.len(),
{
    if s.len() > 0 {
        lemma_be_value_bound(s.drop_last());
    }
}

/// The value of two strings written one after the other.
pub proof fn lemma_be_value_concat(a: Seq<u8>, b: Seq<u8>)
    ensures
        be_value(a + b) == be_value(a) * pow256(b.len()) + be_value(b),
    decreases b.len(),
{
    let va = be_value(a);
    if b.len() == 0 {
        assert(a + b =~= a);
        assert(va * 1 == va) by (nonlinear_arith);
    } else {
        let b0 = b.drop_last();
        assert((a + b).drop_last() =~= a + b0);
        assert((a + b).last() == b.last());
        lemma_be_value_concat(a, b0);
        let p = pow256(b0.len());
        assert(pow256(b.len()) == 256 * p);
        assert(va * (256 * p) == (va * p) * 256) by (nonlinear_arith);
        assert(be_value(a + b) == (va * p + be_value(b0)) * 256 + b.last() as nat);
    }
}

pub proof fn lemma_be_fixed_len(n: nat, len: nat)
    ensures
        be_fixed(n, len).len() == len,
    decreases len,
{
    if len > 0 {
        lemma_be_fixed_len(n / 256, (len - 1) as nat);
    }
}

/// Writing a number in `len` digits loses nothing if it is below `256^len`.
pub proof fn lemma_be_value_of_fixed(n: nat, len: nat)
    requires
        n < pow256(len),
    ensures
        be_value(be_fixed(n, len)) == n,
    decreases len,
{
    if len > 0 {
        let rest = be_fixed(n / 256, (len - 1) as nat);
        lemma_be_value_of_fixed(n / 256, (len - 1) as nat);
        assert(be_fixed(n, len).drop_last() =~= rest);
    }
}

/// The shortest form stands for the number it was made of.
pub proof fn lemma_be_value_of_compact(n: nat)
    ensures
        be_value(be_compact(n)) == n,
    decreases n,
{
    if n > 0 {
        let rest = be_compact(n / 256);
        lemma_be_value_of_compact(n / 256);
        assert(be_compact(n).drop_last() =~= rest);
    }
}

/// The shortest form never starts with a zero byte.
pub proof fn lemma_be_compact_leading(n: nat)
    ensures
        n > 0 ==> be_compact(n).len() > 0 && be_compact(n)[0] != 0,
        n == 0 ==> be_compact(n).len() == 0,
    decreases n,
{
    if n > 0 {
        lemma_be_compact_leading(n / 256);
        if n / 256 == 0 {
            assert(be_compact(n) =~= seq![(n % 256) as u8]);
        } else {
            assert(be_compact(n)[0] == be_compact(n / 256)[0]);
        }
    }
}

/// A number below `256^k` has a shortest form of at most `k` bytes.
pub proof fn lemma_be_compact_len(n: nat, k: nat)
    requires
        n < pow256(k),
    ensures
        be_compact(n).len() <= k,
    decreases k,
{
    if n > 0 {
        assert(k > 0);
        lemma_be_compact_len(n / 256, (k - 1) as nat);
    }
}

/// The digits of `hi * 256^k + lo` are those of `hi` followed by the `k`
/// digits of `lo`.
pub proof fn lemma_be_fixed_split(hi: nat, lo: nat, a: nat, k: nat)
    requires
        lo < pow256(k),
    ensures
        be_fixed(hi * pow256(k) + lo, a + k) == be_fixed(hi, a) + be_fixed(lo, k),
    decreases k,
{
    if k == 0 {
        assert(hi * 1 == hi) by (nonlinear_arith);
        assert(be_fixed(hi, a) + be_fixed(lo, 0) =~= be_fixed(hi, a));
    } else {
        let p = pow256((k - 1) as nat);
        let n = hi * pow256(k) + lo;
        assert(hi * (256 * p) == 256 * (hi * p)) by (nonlinear_arith);
        assert(n / 256 == hi * p + lo / 256);
        assert(n % 256 == lo % 256);
        lemma_be_fixed_split(hi, lo / 256, a, (k - 1) as nat);
        assert(be_fixed(n, a + k) =~= be_fixed(hi, a) + be_fixed(lo, k));
    }
}

/// The shortest form of `hi * 256^k + lo`, for `hi` above zero, is that of
/// `hi` followed by the `k` digits of `lo`.
pub proof fn lemma_be_compact_split(hi: nat, lo: nat, k: nat)
    requires
        hi > 0,
        lo < pow256(k),
    ensures
        be_compact(hi * pow256(k) + lo) == be_compact(hi) + be_fixed(lo, k),
    decreases k,
{
    if k == 0 {
        assert(hi * 1 == hi) by (nonlinear_arith);
        assert(be_compact(hi) + be_fixed(lo, 0) =~= be_compact(hi));
    } else {
        let p = pow256((k - 1) as nat);
        let n = hi * pow256(k) + lo;
        lemma_pow256_positive((k - 1) as nat);
        assert(hi * (256 * p) == 256 * (hi * p)) by (nonlinear_arith);
        assert(hi * p >= 1) by (nonlinear_arith)
            requires
                hi >= 1,
                p >= 1,
        ;
        assert(n / 256 == hi * p + lo / 256);
        assert(n % 256 == lo % 256);
        lemma_be_compact_split(hi, lo / 256, (k - 1) as nat);
        assert(be_compact(n) =~= be_compact(hi) + be_fixed(lo, k));
    }
}

/// Appends the `len` big-endian digits of `x` to `out`.
pub fn push_be_fixed(out: &mut Vec<u8>, x: u128, len: usize)
    ensures
        final(out)@ == old(out)@ + be_fixed(x as nat, len as nat),
    decreases len,
{
    if len > 0 {
        push_be_fixed(out, x / 256, len - 1);
        out.push((x % 256) as u8);
        assert(out@ =~= old(out)@ + be_fixed(x as nat, len as nat));
    } else {
        assert(out@ =~= old(out)@ + be_fixed(x as nat, len as nat));
    }
}

/// Appends the shortest big-endian form of `x` to `out`.
pub fn push_be_compact(out: &mut Vec<u8>, x: u128)
    ensures
        final(out)@ == old(out)@ + be_compact(x as nat),
    decreases x,
{
    if x > 0 {
        push_be_compact(out, x / 256);
        out.push((x % 256) as u8);
        assert(out@ =~= old(out)@ + be_compact(x as nat));
    } else {
        assert(out@ =~= old(out)@ + be_compact(x as nat));
    }
}

/// Reads at most 16 bytes of `data`, from `from` up to `to`, as one number.
pub fn read_be_u128(data: &[u8], from: usize, to: usize) -> (value: u128)
    requires
        from <= to <= data@.len(),
        to - from <= 16,
    ensures
        value as nat == be_value(data@.subrange(from as int, to as int)),
{
    let mut acc: u128 = 0;
    let mut i: usize = from;
    proof {
        lemma_pow256_values();
    }
    while i < to
        invariant
            from <= i <= to <= data@.len(),
            to - from <= 16,
            acc as nat == be_value(data@.subrange(from as int, i as int)),
            pow256(16) == 0x1_0000_0000_0000_0000_0000_0000_0000_0000nat,
        decreases to - i,
    {
        proof {
            let read = data@.subrange(from as int, i as int);
            let next = data@.subrange(from as int, i + 1);
            lemma_be_value_bound(read);
            lemma_pow256_monotonic((i - from + 1) as nat, 16);
            assert(next.drop_last() =~= read);
            assert(next.last() == data@[i as int]);
        }
        acc = acc * 256 + data[i] as u128;
        i += 1;
    }
    acc
}

} // verus!

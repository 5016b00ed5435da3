//! Unsigned 256-bit numbers.

use vstd::prelude::*;
use crate::bytes::{
    be_compact, be_fixed, be_value, lemma_be_compact_len, lemma_be_compact_split,
    lemma_be_fixed_len, lemma_be_fixed_split, lemma_be_value_concat, lemma_be_value_of_compact,
    lemma_be_value_of_fixed, lemma_pow256_values, pow256, push_be_compact, push_be_fixed,
    read_be_u128,
};
use crate::hash::H256;

verus! {

/// The weight of the upper limb of a 256-bit number: two to the power 128.
pub open spec fn limb_base() -> nat {
    0x1_0000_0000_0000_0000_0000_0000_0000_0000nat
}

/// The largest 256-bit number.
pub open spec fn u256_max() -> nat {
    (limb_base() * limb_base() - 1) as nat
}

/// Why a number could not be read.
#[derive(Clone, Copy, Debug, PartialEq, Eq, Structural)]
pub enum NumberError {
    /// More bytes than the number has room for.
    InvalidBinaryRepresentation,
}

/// An unsigned number of 256 bits, held as two limbs of 128 bits. Every pair
/// of limbs is a number, and different pairs are different numbers.
#[derive(Clone, Copy, Debug, PartialEq, Eq, Structural)]
pub struct U256 {
    pub hi: u128,
    pub lo: u128,
}

impl View for U256 {
    type V = nat;

    open spec fn view(&self) -> nat {
        self.hi as nat * limb_base() + self.lo as nat
    }
}

impl U256 {
    /// The 256-bit number of value `n`, for `n` of at most 256 bits.
    pub open spec fn spec_from_nat(n: nat) -> U256 {
        U256 { hi: (n / limb_base()) as u128, lo: (n % limb_base()) as u128 }
    }

    /// The number in 32 big-endian bytes.
    pub open spec fn to_big_endian_spec(&self) -> Seq<u8> {
        be_fixed(self@, 32)
    }

    /// Zero.
    pub fn zero() -> (n: U256)
        ensures
            n@ == 0,
    {
        U256 { hi: 0, lo: 0 }
    }

    /// The number `value`.
    pub fn from_u64(value: u64) -> (n: U256)
        ensures
            n@ == value,
    {
        U256 { hi: 0, lo: value as u128 }
    }

    /// Whether the number is zero.
    pub fn is_zero(&self) -> (zero: bool)
        ensures
            zero == (self@ == 0),
    {
        self.hi == 0 && self.lo == 0
    }

    /// Whether this number is the smaller one.
    pub fn lt(&self, other: &U256) -> (less: bool)
        ensures
            less == (self@ < other@),
    {
        self.hi < other.hi || (self.hi == other.hi && self.lo < other.lo)
    }

    /// The sum, or `None` where it has more than 256 bits.
    pub fn checked_add(self, other: U256) -> (sum: Option<U256>)
        ensures
            sum is Some <==> self@ + other@ <= u256_max(),
            sum matches Some(n) ==> n@ == self@ + other@,
    {
        let (lo, carry): (u128, u128) = match self.lo.checked_add(other.lo) {
            Some(lo) => (lo, 0),
            None => {
                // The sum is past the limb: one is carried, and what the
                // other limb has beyond the room left in this one stays.
                let rest: u128 = u128::MAX - self.lo;
                (other.lo - rest - 1, 1)
            },
        };
        assert(lo as nat + carry as nat * limb_base() == self.lo as nat + other.lo as nat);
        match self.hi.checked_add(other.hi) {
            Some(hi) => match hi.checked_add(carry) {
                Some(hi) => Some(U256 { hi, lo }),
                None => None,
            },
            None => None,
        }
    }

    /// Reads a big-endian number of at most 32 bytes. Leading zeros are
    /// accepted, and no bytes at all stand for zero.
    pub fn from_big_endian_slice(data: &[u8]) -> (res: Result<U256, NumberError>)
        ensures
            res is Ok <==> data@.len() <= 32,
            res matches Ok(n) ==> n@ == be_value(data@),
            res matches Err(e) ==> e == NumberError::InvalidBinaryRepresentation,
    {
        let len = data.len();
        if len > 32 {
            return Err(NumberError::InvalidBinaryRepresentation);
        }
        if len <= 16 {
            let lo = read_be_u128(data, 0, len);
            assert(data@.subrange(0, len as int) =~= data@);
            Ok(U256 { hi: 0, lo })
        } else {
            let split: usize = len - 16;
            let hi = read_be_u128(data, 0, split);
            let lo = read_be_u128(data, split, len);
            proof {
                let upper = data@.subrange(0, split as int);
                let lower = data@.subrange(split as int, len as int);
                assert(upper + lower =~= data@);
                lemma_be_value_concat(upper, lower);
                lemma_pow256_values();
            }
            Ok(U256 { hi, lo })
        }
    }

    /// The number in 32 big-endian bytes.
    pub fn to_big_endian(&self) -> (h: H256)
        ensures
            h@ == be_fixed(self@, 32),
            be_value(h@) == self@,
    {
        let mut out: Vec<u8> = Vec::new();
        push_be_fixed(&mut out, self.hi, 16);
        push_be_fixed(&mut out, self.lo, 16);
        proof {
            lemma_pow256_values();
            lemma_be_fixed_split(self.hi as nat, self.lo as nat, 16, 16);
            lemma_be_fixed_len(self@, 32);
            assert(out@ =~= be_fixed(self@, 32));
            lemma_u256_below_pow256_32(*self);
            lemma_be_value_of_fixed(self@, 32);
        }
        match H256::from_slice(out.as_slice()) {
            Some(h) => h,
            // Not taken: 32 bytes were written.
            None => H256::zero(),
        }
    }

    /// The number in as few big-endian bytes as hold it: none for zero, and
    /// never a leading zero byte.
    pub fn to_big_endian_compact(&self) -> (bytes: Vec<u8>)
        ensures
            bytes@ == be_compact(self@),
            bytes@.len() <= 32,
            be_value(bytes@) == self@,
    {
        let mut out: Vec<u8> = Vec::new();
        if self.hi == 0 {
            push_be_compact(&mut out, self.lo);
        } else {
            push_be_compact(&mut out, self.hi);
            push_be_fixed(&mut out, self.lo, 16);
            proof {
                lemma_pow256_values();
                lemma_be_compact_split(self.hi as nat, self.lo as nat, 16);
            }
        }
        proof {
            assert(out@ =~= be_compact(self@));
            lemma_u256_below_pow256_32(*self);
            lemma_be_compact_len(self@, 32);
            lemma_be_value_of_compact(self@);
        }
        out
    }
}

/// Every 256-bit number is below `256^32`.
pub proof fn lemma_u256_below_pow256_32(n: U256)
    ensures
        n@ < pow256(32),
        n@ <= u256_max(),
        pow256(32) == u256_max() + 1,
{
    lemma_pow256_values();
    lemma_pow256_product(16, 16);
    let b = limb_base();
    assert(n.hi as nat * b + n.lo as nat <= (b - 1) * b + (b - 1)) by (nonlinear_arith)
        requires
            n.hi as nat <= b - 1,
            n.lo as nat <= b - 1,
            b > 0,
    ;
    assert((b - 1) * b + (b - 1) == b * b - 1) by (nonlinear_arith);
}

/// Powers of 256 multiply as their exponents add.
pub proof fn lemma_pow256_product(a: nat, b: nat)
    ensures
        pow256(a + b) == pow256(a) * pow256(b),
    decreases b,
{
    if b == 0 {
        assert(pow256(a) * 1 == pow256(a)) by (nonlinear_arith);
    } else {
        lemma_pow256_product(a, (b - 1) as nat);
        let pa = pow256(a);
        let pb = pow256((b - 1) as nat);
        assert(pa * (256 * pb) == 256 * (pa * pb)) by (nonlinear_arith);
    }
}

/// A number of at most 256 bits is the value of the limbs it is split into.
pub proof fn lemma_u256_from_nat(n: nat)
    requires
        n <= u256_max(),
    ensures
        U256::spec_from_nat(n)@ == n,
{
    let base = limb_base();
    assert(n / base < base) by (nonlinear_arith)
        requires
            n <= base * base - 1,
            base > 0,
    ;
}

/// Two 256-bit numbers of the same value are the same pair of limbs.
pub proof fn lemma_u256_view_injective(a: U256, b: U256)
    requires
        a@ == b@,
    ensures
        a == b,
{
    let base = limb_base();
    assert(a.hi == b.hi) by (nonlinear_arith)
        requires
            a.hi as nat * base + a.lo as nat == b.hi as nat * base + b.lo as nat,
            (a.lo as nat) < base,
            (b.lo as nat) < base,
    ;
}

} // verus!

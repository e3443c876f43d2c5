//! Conversions of 256-bit integers to arbitrary-precision integers, and of a
//! 128-bit integer to a 256-bit one.

use vstd::prelude::*;

use crate::uint::{
    be_bytes_value, i256_is_positive, i256_neg, two_pow_255, two_pow_64, u256_to_be_bytes, I256,
    U256,
};

verus! {

/// The number that a sequence of 64-bit digits stands for, least
/// significant digit first.
pub open spec fn u64_digits_value(digits: Seq<u64>) -> nat
    decreases digits.len(),
{
    if digits.len() == 0 {
        0
    } else {
        digits[0] as nat + u64_digits_value(digits.drop_first()) * two_pow_64()
    }
}

/// No most significant digit is zero: the shortest digit sequence of its value.
pub open spec fn is_normalized(digits: Seq<u64>) -> bool {
    digits.len() == 0 || digits.last() != 0
}

/// A normalized digit sequence is empty exactly when it stands for zero.
pub proof fn lemma_normalized_value_zero(digits: Seq<u64>)
    requires
        is_normalized(digits),
    ensures
        (u64_digits_value(digits) == 0) == (digits.len() == 0),
    decreases digits.len(),
{
    if digits.len() > 1 {
        lemma_normalized_value_zero(digits.drop_first());
    }
}

/// Normalized digits are determined by their value: two normalized digit
/// sequences that stand for the same number are the same sequence.
pub proof fn lemma_normalized_digits_unique(a: Seq<u64>, b: Seq<u64>)
    requires
        is_normalized(a),
        is_normalized(b),
        u64_digits_value(a) == u64_digits_value(b),
    ensures
        a == b,
    decreases a.len(),
{
    lemma_normalized_value_zero(a);
    lemma_normalized_value_zero(b);
    if a.len() > 0 && b.len() > 0 {
        let x = u64_digits_value(a.drop_first());
        let y = u64_digits_value(b.drop_first());
        assert(a[0] as nat + x * two_pow_64() == b[0] as nat + y * two_pow_64());
        assert(a[0] == b[0] && x == y) by (nonlinear_arith)
            requires
                a[0] as nat + x * two_pow_64() == b[0] as nat + y * two_pow_64(),
                a[0] < two_pow_64(),
                b[0] < two_pow_64(),
        ;
        lemma_normalized_digits_unique(a.drop_first(), b.drop_first());
        assert(a =~= seq![a[0]] + a.drop_first());
        assert(b =~= seq![b[0]] + b.drop_first());
    }
    assert(a =~= b);
}

/// The sign of an arbitrary-precision integer.
#[derive(Clone, Copy, Debug, PartialEq, Eq, Structural)]
pub enum Sign {
    Minus,
    NoSign,
    Plus,
}

/// An arbitrary-precision unsigned integer, held as its normalized
/// little-endian 64-bit digits.
#[derive(Debug)]
pub struct BigUint {
    digits: Vec<u64>,
}

impl BigUint {
    #[verifier::type_invariant]
    spec fn digits_normalized(self) -> bool {
        is_normalized(self.digits@)
    }

    /// The digits of this integer, least significant first.
    pub closed spec fn digit_seq(self) -> Seq<u64> {
        self.digits@
    }

    /// The little-endian 64-bit digits of this integer; empty for zero.
    pub fn to_u64_digits(&self) -> (r: Vec<u64>)
        ensures
            r@ == self.digit_seq(),
            u64_digits_value(r@) == self@,
            is_normalized(r@),
    {
        proof {
            use_type_invariant(self);
        }
        let mut r: Vec<u64> = Vec::new();
        let mut i: usize = 0;
        while i < self.digits.len()
            invariant
                i <= self.digits@.len(),
                r@ == self.digits@.take(i as int),
            decreases self.digits@.len() - i,
        {
            r.push(self.digits[i]);
            i = i + 1;
            assert(r@ =~= self.digits@.take(i as int));
        }
        assert(r@ =~= self.digits@);
        r
    }
}

impl View for BigUint {
    type V = nat;

    closed spec fn view(&self) -> nat {
        u64_digits_value(self.digits@)
    }
}

/// An arbitrary-precision signed integer: a sign and a magnitude, with the
/// sign `NoSign` exactly when the magnitude is zero.
#[derive(Debug)]
pub struct BigInt {
    sign: Sign,
    magnitude: BigUint,
}

impl View for BigInt {
    type V = int;

    closed spec fn view(&self) -> int {
        match self.sign {
            Sign::Minus => -(self.magnitude@ as int),
            Sign::NoSign => 0,
            Sign::Plus => self.magnitude@ as int,
        }
    }
}

impl BigInt {
    #[verifier::type_invariant]
    spec fn sign_matches_magnitude(self) -> bool {
        (self.sign == Sign::NoSign) == (self.magnitude@ == 0)
    }

    /// The sign of this integer.
    pub fn sign(&self) -> (r: Sign)
        ensures
            r == (if self@ < 0 {
                Sign::Minus
            } else if self@ == 0 {
                Sign::NoSign
            } else {
                Sign::Plus
            }),
    {
        proof {
            use_type_invariant(self);
        }
        self.sign
    }

    /// The absolute value of this integer.
    pub fn magnitude(&self) -> (r: &BigUint)
        ensures
            r@ as int == if self@ < 0 { -self@ } else { self@ },
    {
        proof {
            use_type_invariant(self);
        }
        &self.magnitude
    }

    /// The sign of this integer and the little-endian 64-bit digits of its
    /// absolute value (empty for zero).
    pub fn to_u64_digits(&self) -> (r: (Sign, Vec<u64>))
        ensures
            r.0 == (if self@ < 0 {
                Sign::Minus
            } else if self@ == 0 {
                Sign::NoSign
            } else {
                Sign::Plus
            }),
            u64_digits_value(r.1@) as int == if self@ < 0 { -self@ } else { self@ },
            is_normalized(r.1@),
    {
        (self.sign(), self.magnitude().to_u64_digits())
    }

    /// This integer with its sign flipped: `-self`.
    pub fn neg(self) -> (r: BigInt)
        ensures
            r@ == -self@,
    {
        proof {
            use_type_invariant(&self);
        }
        let sign = match self.sign {
            Sign::Minus => Sign::Plus,
            Sign::NoSign => Sign::NoSign,
            Sign::Plus => Sign::Minus,
        };
        BigInt { sign, magnitude: self.magnitude }
    }
}

/// Calls `num_bigint::BigUint::from_bytes_be` on the 32 bytes, and hands
/// back the result's `to_u64_digits`. Claimed: the digits, least
/// significant first, stand for the bytes read most significant first, and
/// the last digit is not zero (`BigUint` normalizes what it builds).
#[verifier::external_body]
fn big_uint_digits_from_bytes_be(bytes: &[u8; 32]) -> (digits: Vec<u64>)
    ensures
        u64_digits_value(digits@) == be_bytes_value(bytes@),
        is_normalized(digits@),
{
    num_bigint::BigUint::from_bytes_be(bytes).to_u64_digits()
}

/// Calls `num_bigint::BigInt::from_bytes_be` with the sign and the 32
/// bytes, and hands back the result's `to_u64_digits`. Claimed, as the source
/// (`BigInt::from_biguint`) shows: with `NoSign` the result is zero; with
/// another sign the magnitude is the bytes read most significant first, and
/// the sign is `NoSign` when that is zero and the given sign otherwise; the
/// digits are normalized.
#[verifier::external_body]
fn big_int_digits_from_bytes_be(sign: Sign, bytes: &[u8; 32]) -> (r: (Sign, Vec<u64>))
    ensures
        is_normalized(r.1@),
        sign == Sign::NoSign ==> r.0 == Sign::NoSign && r.1@.len() == 0,
        sign != Sign::NoSign ==> u64_digits_value(r.1@) == be_bytes_value(bytes@),
        sign != Sign::NoSign ==> r.0 == (if be_bytes_value(bytes@) == 0 {
            Sign::NoSign
        } else {
            sign
        }),
{
    let outside_sign = match sign {
        Sign::Minus => num_bigint::Sign::Minus,
        Sign::NoSign => num_bigint::Sign::NoSign,
        Sign::Plus => num_bigint::Sign::Plus,
    };
    let (s, digits) = num_bigint::BigInt::from_bytes_be(outside_sign, bytes).to_u64_digits();
    let s = match s {
        num_bigint::Sign::Minus => Sign::Minus,
        num_bigint::Sign::NoSign => Sign::NoSign,
        num_bigint::Sign::Plus => Sign::Plus,
    };
    (s, digits)
}

/// The arbitrary-precision unsigned integer with the value of `x`.
pub fn u256_to_big_uint(x: U256) -> (r: BigUint)
    ensures
        r@ == x@,
{
    let bytes = u256_to_be_bytes(&x);
    let digits = big_uint_digits_from_bytes_be(&bytes);
    BigUint { digits }
}

/// The arbitrary-precision signed integer with the value of `x`.
pub fn u256_to_big_int(x: U256) -> (r: BigInt)
    ensures
        r@ == x@ as int,
{
    let bytes = u256_to_be_bytes(&x);
    let (sign, digits) = big_int_digits_from_bytes_be(Sign::Plus, &bytes);
    BigInt { sign, magnitude: BigUint { digits } }
}

/// The arbitrary-precision signed integer with the value of `x`. The most
/// negative 256-bit integer is left out: its negation overflows, which
/// panics in builds with debug assertions.
pub fn i256_to_big_int(x: I256) -> (r: BigInt)
    requires
        x.raw@ != two_pow_255(),
    ensures
        r@ == x@,
{
    if i256_is_positive(&x) {
        u256_to_big_int(x.into_raw())
    } else {
        u256_to_big_int(i256_neg(x).into_raw()).neg()
    }
}

/// The 256-bit integer with the value of `x`.
pub fn u128_to_uint256(x: u128) -> (r: U256)
    ensures
        r@ == x,
        r.limbs[2] == 0,
        r.limbs[3] == 0,
{
    let low = x as u64;
    let high = (x >> 64u32) as u64;
    proof {
        assert(x == low as u128 + (high as u128) * 0x10000000000000000u128) by (bit_vector)
            requires
                low == x as u64,
                high == (x >> 64u32) as u64,
        ;
    }
    U256::from_limbs([low, high, 0, 0])
}

} // verus!

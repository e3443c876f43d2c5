//! 256-bit unsigned and two's-complement signed integers, held as four
//! little-endian 64-bit limbs.

use vstd::prelude::*;

verus! {

/// 2^64
pub open spec fn two_pow_64() -> nat {
    0x10000000000000000nat
}

/// 2^128
pub open spec fn two_pow_128() -> nat {
    0x100000000000000000000000000000000nat
}

/// 2^192
pub open spec fn two_pow_192() -> nat {
    0x1000000000000000000000000000000000000000000000000nat
}

/// 2^255, the weight of the sign bit of a 256-bit two's-complement integer.
pub open spec fn two_pow_255() -> nat {
    0x8000000000000000000000000000000000000000000000000000000000000000nat
}

/// 2^256, one more than the largest 256-bit unsigned integer.
pub open spec fn two_pow_256() -> nat {
    0x10000000000000000000000000000000000000000000000000000000000000000nat
}

/// The number that four little-endian 64-bit limbs stand for.
pub open spec fn limbs_value(limbs: [u64; 4]) -> nat {
    limbs[0] as nat + limbs[1] as nat * two_pow_64() + limbs[2] as nat * two_pow_128()
        + limbs[3] as nat * two_pow_192()
}

/// The integer that a 256-bit pattern stands for in two's complement.
pub open spec fn twos_complement_value(raw: nat) -> int {
    if raw >= two_pow_255() {
        raw - two_pow_256()
    } else {
        raw as int
    }
}

/// An unsigned 256-bit integer.
#[derive(Clone, Copy, Debug)]
pub struct U256 {
    pub limbs: [u64; 4],
}

impl View for U256 {
    type V = nat;

    open spec fn view(&self) -> nat {
        limbs_value(self.limbs)
    }
}

/// A signed 256-bit integer in two's complement.
#[derive(Clone, Copy, Debug)]
pub struct I256 {
    pub raw: U256,
}

impl View for I256 {
    type V = int;

    open spec fn view(&self) -> int {
        twos_complement_value(self.raw@)
    }
}

/// The number that a sequence of bytes stands for, most significant byte first.
pub open spec fn be_bytes_value(bytes: Seq<u8>) -> nat
    decreases bytes.len(),
{
    if bytes.len() == 0 {
        0
    } else {
        be_bytes_value(bytes.drop_last()) * 256 + bytes.last() as nat
    }
}

/// A bit pattern with the sign bit clear stands, in two's complement, for
/// the same number as unsigned: a signed integer built from such a pattern
/// converts to the same value as the unsigned one.
pub proof fn lemma_sign_bit_clear_same_value(raw: nat)
    requires
        raw < two_pow_255(),
    ensures
        twos_complement_value(raw) == raw as int,
{
}

/// Every 256-bit pattern stands, in two's complement, for an integer in
/// [-2^255, 2^255).
pub proof fn lemma_twos_complement_range(x: U256)
    ensures
        -(two_pow_255() as int) <= twos_complement_value(x@) < two_pow_255() as int,
{
}

impl U256 {
    /// The integer with the given little-endian limbs.
    pub fn from_limbs(limbs: [u64; 4]) -> (r: U256)
        ensures
            r.limbs == limbs,
            r@ == limbs_value(limbs),
    {
        U256 { limbs }
    }

    /// The little-endian limbs of this integer.
    pub fn into_limbs(self) -> (r: [u64; 4])
        ensures
            r == self.limbs,
            limbs_value(r) == self@,
    {
        self.limbs
    }
}

impl I256 {
    /// The signed integer whose two's-complement bit pattern is `raw`.
    pub fn from_raw(raw: U256) -> (r: I256)
        ensures
            r.raw == raw,
            r@ == twos_complement_value(raw@),
    {
        I256 { raw }
    }

    /// The two's-complement bit pattern of this integer.
    pub fn into_raw(self) -> (r: U256)
        ensures
            r == self.raw,
    {
        self.raw
    }
}

/// Calls `ruint::Uint::<256, 4>::to_be_bytes::<32>` (alloy's `U256`) on the
/// integer with the limbs of `x`. Claimed: the 32 bytes, most significant
/// first, stand for the value of `x`.
#[verifier::external_body]
pub(crate) fn u256_to_be_bytes(x: &U256) -> (bytes: [u8; 32])
    ensures
        be_bytes_value(bytes@) == x@,
{
    alloy_primitives::U256::from_limbs(x.limbs).to_be_bytes::<32>()
}

/// Calls `alloy_primitives::I256::is_positive` on the signed integer with the
/// bit pattern of `x`. Claimed: the result is true exactly when `x` is
/// greater than zero (the source tests for a nonzero value with the sign
/// bit clear).
#[verifier::external_body]
pub(crate) fn i256_is_positive(x: &I256) -> (r: bool)
    ensures
        r == (x@ > 0),
{
    alloy_primitives::I256::from_raw(alloy_primitives::U256::from_limbs(x.raw.limbs)).is_positive()
}

/// Calls `-` (`core::ops::Neg` for `alloy_primitives::I256`) on the signed
/// integer with the bit pattern of `x`. The source panics on the most
/// negative value in builds with debug assertions, so that value is left
/// out. Claimed: the result is `-x`.
#[verifier::external_body]
pub(crate) fn i256_neg(x: I256) -> (r: I256)
    requires
        x.raw@ != two_pow_255(),
    ensures
        r@ == -x@,
{
    let raw = alloy_primitives::U256::from_limbs(x.raw.limbs);
    let negated = -alloy_primitives::I256::from_raw(raw);
    I256 { raw: U256 { limbs: negated.into_raw().into_limbs() } }
}

} // verus!

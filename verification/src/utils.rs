//! Error kinds of the Uniswap V3 math, and the fixed-point constants it uses.

use vstd::prelude::*;

use crate::uint::U256;

verus! {

/// Why a Uniswap V3 math step was refused.
#[derive(Clone, Copy, Debug, PartialEq, Eq, Structural)]
pub enum UniswapV3MathError {
    DenominatorIsZero,
    ResultIsU256MAX,
    SqrtPriceIsZero,
    SqrtPriceIsLteQuotient,
    ZeroValue,
    LiquidityIsZero,
    ProductDivAmount,
    DenominatorIsLteProdOne,
    LiquiditySub,
    SafeCastToU160Overflow,
}

/// A general-purpose error of the contract.
#[derive(Clone, Copy, Debug, PartialEq, Eq, Structural)]
pub enum GenError {
    TestError,
}

/// The unsigned integer 1.
pub fn one() -> (r: U256)
    ensures
        r@ == 1,
{
    U256::from_limbs([1, 0, 0, 0])
}

/// The unsigned integer 2.
pub fn two() -> (r: U256)
    ensures
        r@ == 2,
{
    U256::from_limbs([2, 0, 0, 0])
}

/// The unsigned integer 3.
pub fn three() -> (r: U256)
    ensures
        r@ == 3,
{
    U256::from_limbs([3, 0, 0, 0])
}

/// 2^96, the scale of Q64.96 fixed-point square-root prices.
pub fn q96() -> (r: U256)
    ensures
        r@ == 0x1000000000000000000000000nat,
{
    U256::from_limbs([0, 4294967296, 0, 0])
}

/// 2^128, the scale of Q128.128 fixed-point fee growth.
pub fn q128() -> (r: U256)
    ensures
        r@ == 0x100000000000000000000000000000000nat,
{
    U256::from_limbs([0, 0, 1, 0])
}

/// 2^192, the scale of a squared Q64.96 price.
pub fn q192() -> (r: U256)
    ensures
        r@ == 0x1000000000000000000000000000000000000000000000000nat,
{
    U256::from_limbs([0, 0, 0, 1])
}

} // verus!

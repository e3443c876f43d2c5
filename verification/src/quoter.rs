//! The decisions of a swap quote against a Uniswap V3 pool: which price
//! limit the swap step runs toward, and what amount it starts from.

use vstd::prelude::*;

use crate::uint::{two_pow_256, I256, U256};

verus! {

/// A 20-byte account address.
#[derive(Clone, Copy, Debug)]
pub struct Address {
    pub bytes: [u8; 20],
}

impl Address {
    /// The address with the given bytes.
    pub fn from_bytes(bytes: [u8; 20]) -> (r: Address)
        ensures
            r.bytes == bytes,
    {
        Address { bytes }
    }

    /// Whether the two addresses hold the same bytes.
    pub fn same_as(&self, other: &Address) -> (r: bool)
        ensures
            r == (self.bytes@ == other.bytes@),
    {
        let mut i: usize = 0;
        while i < 20
            invariant
                i <= 20,
                forall|j: int| 0 <= j < i ==> self.bytes@[j] == other.bytes@[j],
            decreases 20 - i,
        {
            if self.bytes[i] != other.bytes[i] {
                return false;
            }
            i = i + 1;
        }
        assert(self.bytes@ =~= other.bytes@);
        true
    }
}

/// The arguments of one swap step: the pool's current square-root price,
/// the square-root price the step runs toward, the pool's liquidity, the
/// amount still to swap (positive for an exact input), and the fee in
/// hundredths of a basis point.
#[derive(Clone, Copy, Debug)]
pub struct SwapStepInputs {
    pub sqrt_price_x96: U256,
    pub sqrt_ratio_target_x96: U256,
    pub liquidity: u128,
    pub amount_remaining: I256,
    pub fee: u32,
}

/// The square-root price limit toward which a swap of `token_in` runs in a
/// pool whose second token is `token_1_pool`: selling the second token
/// raises the price, so the limit is the largest 256-bit value less one;
/// selling the first token lowers it, so the limit is one.
pub open spec fn swap_target_value(token_in: Address, token_1_pool: Address) -> nat {
    if token_in.bytes@ == token_1_pool.bytes@ {
        (two_pow_256() - 2) as nat
    } else {
        1
    }
}

/// The price limit is settled by full 20-byte address equality: tokens that
/// differ in any byte give the limit 1 (a sale of the pool's first token);
/// byte-for-byte equal tokens give 2^256 - 2 (a sale of its second token).
pub proof fn lemma_swap_target_by_address_equality(token_in: Address, token_1_pool: Address)
    ensures
        (exists|i: int| 0 <= i < 20 && token_in.bytes@[i] != token_1_pool.bytes@[i])
            ==> swap_target_value(token_in, token_1_pool) == 1,
        (forall|i: int| 0 <= i < 20 ==> token_in.bytes@[i] == token_1_pool.bytes@[i])
            ==> swap_target_value(token_in, token_1_pool)
            == 0xfffffffffffffffffffffffffffffffffffffffffffffffffffffffffffffffenat,
{
    if forall|i: int| 0 <= i < 20 ==> token_in.bytes@[i] == token_1_pool.bytes@[i] {
        assert(token_in.bytes@ =~= token_1_pool.bytes@);
    }
}

/// The swap step that quotes `amount_in` of `token_in` against a pool whose
/// second token is `token_1_pool`, whose square-root price is
/// `sqrt_price_x96`, whose liquidity is `liquidity` and whose fee is `fee`.
/// The amount's bit pattern is taken as a signed integer unchanged.
pub fn quote_swap_step_inputs(
    amount_in: U256,
    token_in: &Address,
    token_1_pool: &Address,
    sqrt_price_x96: U256,
    liquidity: u128,
    fee: u32,
) -> (r: SwapStepInputs)
    ensures
        r.sqrt_price_x96 == sqrt_price_x96,
        r.sqrt_ratio_target_x96@ == swap_target_value(*token_in, *token_1_pool),
        token_in.bytes@ != token_1_pool.bytes@ ==> r.sqrt_ratio_target_x96@ == 1,
        token_in.bytes@ == token_1_pool.bytes@ ==> r.sqrt_ratio_target_x96@
            == 0xfffffffffffffffffffffffffffffffffffffffffffffffffffffffffffffffenat,
        token_in.bytes@ != token_1_pool.bytes@ ==> r.sqrt_ratio_target_x96.limbs == [1u64, 0, 0, 0],
        token_in.bytes@ == token_1_pool.bytes@ ==> r.sqrt_ratio_target_x96.limbs == [
            0xfffffffffffffffeu64,
            0xffffffffffffffff,
            0xffffffffffffffff,
            0xffffffffffffffff,
        ],
        r.liquidity == liquidity,
        r.amount_remaining.raw == amount_in,
        r.fee == fee,
{
    let mut sqrt_ratio_target_x96 = U256::from_limbs([1, 0, 0, 0]);
    if token_in.same_as(token_1_pool) {
        sqrt_ratio_target_x96 = U256::from_limbs(
            [0xfffffffffffffffe, 0xffffffffffffffff, 0xffffffffffffffff, 0xffffffffffffffff],
        );
    }
    let amount_remaining = I256::from_raw(amount_in);
    SwapStepInputs { sqrt_price_x96, sqrt_ratio_target_x96, liquidity, amount_remaining, fee }
}

} // verus!

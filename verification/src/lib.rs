//! Fixed-width 256-bit integers, their conversion to arbitrary-precision
//! integers, and the pure decisions of a Uniswap V3 swap quote.

pub mod quoter;
pub mod uint;
pub mod utils;
pub mod utils_2;

pub use quoter::{quote_swap_step_inputs, Address, SwapStepInputs};
pub use uint::{I256, U256};
pub use utils::{GenError, UniswapV3MathError};
pub use utils_2::{
    i256_to_big_int, u128_to_uint256, u256_to_big_int, u256_to_big_uint, BigInt, BigUint, Sign,
};

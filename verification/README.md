# basket_swap

Verified building blocks of a Uniswap V3 quoting contract.

- `src/uint.rs`: `U256` and `I256` (four little-endian 64-bit limbs, two's
  complement for the signed one), with their values as `nat`/`int`, and the
  trusted calls into alloy's integers (big-endian bytes, sign test, negation).
- `src/utils_2.rs`: `BigUint`/`BigInt` (normalized 64-bit digits and a sign),
  the conversions `u256_to_big_uint`, `u256_to_big_int`, `i256_to_big_int`,
  `u128_to_uint256`, the trusted calls into num-bigint, and the proof that
  normalized digits are determined by their value.
- `src/utils.rs`: the error kinds and the fixed-point constants.
- `src/quoter.rs`: the decisions of a swap quote (price limit and amount).
- `app/lib.rs`: conversions to and from alloy and num-bigint types, the
  functions with their alloy/num-bigint signatures, and Solidity revert data
  for the error kinds.

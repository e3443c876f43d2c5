use basket_swap::{quote_swap_step_inputs, Address, U256};

const MAX: u64 = u64::MAX;

#[test]
fn selling_token_one_runs_toward_the_top_price() {
    let token0 = Address::from_bytes([0x11; 20]);
    let token1 = Address::from_bytes([0x22; 20]);
    let amount = U256::from_limbs([1_000_000, 0, 0, 0]);
    let price = U256::from_limbs([0, 4294967296, 0, 0]);
    let step = quote_swap_step_inputs(amount, &token1, &token1, price, 500, 3000);
    assert_eq!(step.sqrt_ratio_target_x96.into_limbs(), [MAX - 1, MAX, MAX, MAX]);
    assert_eq!(step.sqrt_price_x96.into_limbs(), [0, 4294967296, 0, 0]);
    assert_eq!(step.liquidity, 500);
    assert_eq!(step.fee, 3000);
    assert_eq!(step.amount_remaining.into_raw().into_limbs(), [1_000_000, 0, 0, 0]);
    let _ = token0;
}

#[test]
fn selling_token_zero_runs_toward_the_bottom_price() {
    let token0 = Address::from_bytes([0x11; 20]);
    let token1 = Address::from_bytes([0x22; 20]);
    let amount = U256::from_limbs([7, 0, 0, 0]);
    let price = U256::from_limbs([1, 0, 0, 0]);
    let step = quote_swap_step_inputs(amount, &token0, &token1, price, 1, 100);
    assert_eq!(step.sqrt_ratio_target_x96.into_limbs(), [1, 0, 0, 0]);
}

#[test]
fn addresses_differing_in_the_last_byte_are_different() {
    let mut bytes = [0xab; 20];
    let a = Address::from_bytes(bytes);
    bytes[19] = 0xac;
    let b = Address::from_bytes(bytes);
    assert!(!a.same_as(&b));
    assert!(a.same_as(&a));
}

#[test]
fn amount_bit_pattern_is_kept() {
    let token0 = Address::from_bytes([1; 20]);
    let token1 = Address::from_bytes([2; 20]);
    let amount = U256::from_limbs([MAX, MAX, MAX, MAX]);
    let step = quote_swap_step_inputs(amount, &token0, &token1, amount, 0, 0);
    assert_eq!(step.amount_remaining.into_raw().into_limbs(), [MAX, MAX, MAX, MAX]);
}

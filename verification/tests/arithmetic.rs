use stylus_counter::u256::U256;

#[test]
fn add_carries_into_high_half() {
    let a = U256::from_u128(u128::MAX);
    let b = U256::from_u64(1);
    assert_eq!(a.checked_add(b), Some(U256::from_halves(1, 0)));
}

#[test]
fn add_at_maximum_overflows() {
    let max = U256::max_value();
    assert_eq!(max.checked_add(U256::from_u64(1)), None);
    assert_eq!(max.checked_add(max), None);
    assert_eq!(max.checked_add(U256::zero()), Some(max));
}

#[test]
fn mul_crosses_the_half_boundary() {
    let a = U256::from_u128(1u128 << 127);
    let four = U256::from_u64(4);
    assert_eq!(a.checked_mul(four), Some(U256::from_halves(2, 0)));
}

#[test]
fn mul_of_full_low_halves_fills_both_halves() {
    let a = U256::from_u128(u128::MAX);
    assert_eq!(a.checked_mul(a), Some(U256::from_halves(u128::MAX - 1, 1)));
}

#[test]
fn mul_with_high_half_scales_it() {
    let a = U256::from_halves(1, 0);
    let three = U256::from_u64(3);
    assert_eq!(a.checked_mul(three), Some(U256::from_halves(3, 0)));
}

#[test]
fn mul_of_two_high_halves_overflows() {
    let a = U256::from_halves(1, 0);
    assert_eq!(a.checked_mul(a), None);
    assert_eq!(U256::max_value().checked_mul(U256::from_u64(2)), None);
}

#[test]
fn mul_by_zero_and_one_is_exact() {
    let a = U256::from_halves(7, 9);
    assert_eq!(a.checked_mul(U256::zero()), Some(U256::zero()));
    assert_eq!(a.checked_mul(U256::from_u64(1)), Some(a));
    assert_eq!(U256::from_u64(3).checked_mul(U256::from_u64(2)), Some(U256::from_u64(6)));
}

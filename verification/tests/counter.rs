use stylus_counter::calls::{Address, CallOutcome};
use stylus_counter::counter::{Counter, CounterError};
use stylus_counter::u256::U256;

#[test]
fn test_counter() {
    let mut contract = Counter::new();

    assert_eq!(U256::zero(), contract.number());

    contract.increment().unwrap();
    assert_eq!(U256::from_u64(1), contract.number());

    contract.add_number(U256::from_u64(3)).unwrap();
    assert_eq!(U256::from_u64(4), contract.number());

    contract.mul_number(U256::from_u64(2)).unwrap();
    assert_eq!(U256::from_u64(8), contract.number());

    contract.set_number(U256::from_u64(100));
    assert_eq!(U256::from_u64(100), contract.number());

    contract.add_from_msg_value(U256::from_u64(2)).unwrap();
    assert_eq!(U256::from_u64(102), contract.number());
}

#[test]
fn test_external_call() {
    let mut contract = Counter::new();

    let target = Address::from_bytes([0x05; 20]);
    let call_data = vec![1u8, 2, 3, 4];
    let success_ret = vec![5u8, 6, 7, 8];
    let error_ret = vec![9u8, 9, 9];

    let got = contract
        .call_external_contract(target, call_data.clone(), CallOutcome::Success(success_ret.clone()))
        .unwrap();
    assert_eq!(got, success_ret);

    let err = contract
        .call_external_contract(target, call_data, CallOutcome::Revert(error_ret.clone()))
        .unwrap_err();
    assert_eq!(err, error_ret);
}

#[test]
fn number_is_idempotent() {
    let mut contract = Counter::new();
    contract.set_number(U256::from_u64(7));
    let first = contract.number();
    let second = contract.number();
    assert_eq!(first, second);
    assert_eq!(first, U256::from_u64(7));
}

#[test]
fn increment_overflow_fails_and_preserves_value() {
    let mut contract = Counter::new();
    contract.set_number(U256::max_value());
    let r = contract.increment();
    assert_eq!(r, Err(CounterError::ArithmeticOverflow));
    assert_eq!(contract.number(), U256::max_value());
}

#[test]
fn add_number_overflow_fails_and_preserves_value() {
    let mut contract = Counter::new();
    contract.set_number(U256::max_value());
    let r = contract.add_number(U256::from_u64(1));
    assert_eq!(r, Err(CounterError::ArithmeticOverflow));
    assert_eq!(contract.number(), U256::max_value());
}

#[test]
fn mul_number_overflow_fails_and_preserves_value() {
    let mut contract = Counter::new();
    contract.set_number(U256::max_value());
    let r = contract.mul_number(U256::from_u64(2));
    assert_eq!(r, Err(CounterError::ArithmeticOverflow));
    assert_eq!(contract.number(), U256::max_value());
}

#[test]
fn set_then_read_round_trip() {
    let mut contract = Counter::new();
    contract.set_number(U256::from_u128(0xdead_beef_dead_beef_dead_beef_dead_beef));
    assert_eq!(
        contract.number(),
        U256::from_u128(0xdead_beef_dead_beef_dead_beef_dead_beef)
    );
    contract.set_number(U256::max_value());
    assert_eq!(contract.number(), U256::max_value());
    contract.set_number(U256::zero());
    assert_eq!(contract.number(), U256::zero());
}

#[test]
fn deploy_add_mul_set_payable_scenario() {
    let mut contract = Counter::new();
    assert_eq!(contract.number(), U256::zero());
    contract.add_number(U256::from_u64(3)).unwrap();
    assert_eq!(contract.number(), U256::from_u64(3));
    contract.mul_number(U256::from_u64(2)).unwrap();
    assert_eq!(contract.number(), U256::from_u64(6));
    contract.set_number(U256::from_u64(100));
    assert_eq!(contract.number(), U256::from_u64(100));
    contract.add_from_msg_value(U256::from_u64(2)).unwrap();
    assert_eq!(contract.number(), U256::from_u64(102));
}

#[test]
fn forward_success_leaves_value_unaffected() {
    let mut contract = Counter::new();
    contract.set_number(U256::from_u64(42));
    let target = Address::from_bytes([0x05; 20]);
    let got = contract
        .call_external_contract(target, vec![1u8, 2, 3, 4], CallOutcome::Success(vec![5u8, 6, 7, 8]))
        .unwrap();
    assert_eq!(got, vec![5u8, 6, 7, 8]);
    assert_eq!(contract.number(), U256::from_u64(42));
}

#[test]
fn forward_failure_relays_revert_bytes_verbatim() {
    let mut contract = Counter::new();
    contract.set_number(U256::from_u64(42));
    let target = Address::from_bytes([0x05; 20]);
    let err = contract
        .call_external_contract(target, vec![1u8, 2, 3, 4], CallOutcome::Revert(vec![9u8, 9, 9]))
        .unwrap_err();
    assert_eq!(err, vec![9u8, 9, 9]);
    assert_eq!(contract.number(), U256::from_u64(42));
}

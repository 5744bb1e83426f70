//! The persistent register and the program's method set.
//!
//! A deployed program owns exactly one 256-bit storage slot, initialized to
//! zero and mutated only by the methods below. Every method is atomic: it
//! either commits its mutation and succeeds, or fails with the register left
//! exactly as it was. Arithmetic methods treat overflow beyond `2^256 - 1`
//! as an explicit failure, never as silent wraparound.

use crate::calls::{Address, CallOutcome, CallRequest};
use crate::u256::{lemma_view_injective, u256_bound, u256_max, U256};
use vstd::prelude::*;

verus! {

/// Why a method invocation failed internally.
#[derive(Clone, Copy, PartialEq, Eq, Structural, Debug)]
pub enum CounterError {
    /// The exact result of an arithmetic method would exceed `2^256 - 1`;
    /// the invocation fails and the register is unchanged.
    ArithmeticOverflow,
}

/// A program instance: one durable 256-bit register, owned exclusively by
/// this program and addressable only through its own methods.
///
/// The forwarding method accepts any target address: there is no allow-list
/// and no reentrancy guard, a deliberate minimalism that callers must be
/// aware of.
pub struct Counter {
    value: U256,
}

impl View for Counter {
    type V = nat;

    closed spec fn view(&self) -> nat {
        self.value@
    }
}

impl Counter {
    /// A freshly deployed program: the register starts at zero.
    pub fn new() -> (r: Counter)
        ensures
            r@ == 0,
    {
        Counter { value: U256::zero() }
    }

    /// The current register value. Reading is pure and never fails.
    pub fn number(&self) -> (r: U256)
        ensures
            r@ == self@,
    {
        self.value
    }

    /// `value := new_number`, unconditionally. Any 256-bit value is valid.
    pub fn set_number(&mut self, new_number: U256)
        ensures
            final(self)@ == new_number@,
    {
        self.value = new_number;
    }

    /// `value := value + new_number`, failing with `ArithmeticOverflow` and
    /// an unchanged register when the exact sum exceeds `2^256 - 1`.
    pub fn add_number(&mut self, new_number: U256) -> (r: Result<(), CounterError>)
        ensures
            old(self)@ + new_number@ < u256_bound() ==> r == Ok::<(), CounterError>(()) && final(self)@ == old(self)@ + new_number@,
            old(self)@ + new_number@ >= u256_bound() ==> r == Err::<(), CounterError>(
                CounterError::ArithmeticOverflow,
            ) && *final(self) == *old(self),
    {
        match self.value.checked_add(new_number) {
            Some(sum) => {
                self.value = sum;
                Ok(())
            },
            None => Err(CounterError::ArithmeticOverflow),
        }
    }

    /// `value := value * new_number`, failing with `ArithmeticOverflow` and
    /// an unchanged register when the exact product exceeds `2^256 - 1`.
    pub fn mul_number(&mut self, new_number: U256) -> (r: Result<(), CounterError>)
        ensures
            old(self)@ * new_number@ < u256_bound() ==> r == Ok::<(), CounterError>(()) && final(self)@ == old(self)@ * new_number@,
            old(self)@ * new_number@ >= u256_bound() ==> r == Err::<(), CounterError>(
                CounterError::ArithmeticOverflow,
            ) && *final(self) == *old(self),
    {
        match self.value.checked_mul(new_number) {
            Some(product) => {
                self.value = product;
                Ok(())
            },
            None => Err(CounterError::ArithmeticOverflow),
        }
    }

    /// `value := value + 1`, failing with `ArithmeticOverflow` and an
    /// unchanged register when the register already holds `2^256 - 1`.
    pub fn increment(&mut self) -> (r: Result<(), CounterError>)
        ensures
            old(self)@ < u256_max() ==> r == Ok::<(), CounterError>(()) && final(self)@ == old(self)@ + 1,
            old(self)@ >= u256_max() ==> r == Err::<(), CounterError>(
                CounterError::ArithmeticOverflow,
            ) && *final(self) == *old(self),
    {
        let one = U256::from_u64(1);
        self.add_number(one)
    }

    /// `value := value + msg_value`, where `msg_value` is the native value
    /// the environment attached to the current call. Fails with
    /// `ArithmeticOverflow` and an unchanged register when the exact sum
    /// exceeds `2^256 - 1`.
    pub fn add_from_msg_value(&mut self, msg_value: U256) -> (r: Result<(), CounterError>)
        ensures
            old(self)@ + msg_value@ < u256_bound() ==> r == Ok::<(), CounterError>(()) && final(self)@ == old(self)@ + msg_value@,
            old(self)@ + msg_value@ >= u256_bound() ==> r == Err::<(), CounterError>(
                CounterError::ArithmeticOverflow,
            ) && *final(self) == *old(self),
    {
        self.add_number(msg_value)
    }

    /// Builds the request that forwards raw `data` to `target`: the calldata
    /// verbatim, no native value attached, default gas policy.
    pub fn forward_request(&self, target: Address, data: Vec<u8>) -> (r: CallRequest)
        ensures
            r.target == target,
            r.data == data,
            r.value@ == 0,
    {
        CallRequest { target, data, value: U256::zero() }
    }

    /// Relays the resolved outcome of the call forwarded to `target` with
    /// input `data`: the callee's return bytes verbatim on success, its
    /// revert bytes verbatim as this program's own failure payload. The
    /// register is never touched. `outcome` is what the environment's
    /// synchronous call primitive reported for the request built by
    /// `forward_request`.
    #[allow(unused_variables)]
    pub fn call_external_contract(
        &mut self,
        target: Address,
        data: Vec<u8>,
        outcome: CallOutcome,
    ) -> (r: Result<Vec<u8>, Vec<u8>>)
        ensures
            *final(self) == *old(self),
            outcome matches CallOutcome::Success(ret) ==> r == Ok::<Vec<u8>, Vec<u8>>(ret),
            outcome matches CallOutcome::Revert(payload) ==> r == Err::<Vec<u8>, Vec<u8>>(payload),
    {
        match outcome {
            CallOutcome::Success(ret) => Ok(ret),
            CallOutcome::Revert(payload) => Err(payload),
        }
    }
}

/// Reading the register is idempotent: two results of `number` on the same
/// state, with no mutating call between them, are the same integer.
pub proof fn lemma_number_idempotent(c: Counter, first: U256, second: U256)
    requires
        first@ == c@,
        second@ == c@,
    ensures
        first == second,
{
    lemma_view_injective(first, second);
}

/// For every reachable value strictly below `2^256 - 1`, `increment`
/// succeeds and a following `number` reads exactly one more than before.
pub proof fn lemma_increment_then_number(
    pre: Counter,
    post: Counter,
    r: Result<(), CounterError>,
    read: U256,
)
    requires
        pre@ < u256_max(),
        pre@ < u256_max() ==> r == Ok::<(), CounterError>(()) && post@ == pre@ + 1,
        read@ == post@,
    ensures
        r == Ok::<(), CounterError>(()),
        read@ == pre@ + 1,
{
}

/// `increment` on a register holding the maximum 256-bit value fails with
/// `ArithmeticOverflow` and leaves the register unchanged.
pub proof fn lemma_increment_overflow(pre: Counter, post: Counter, r: Result<(), CounterError>)
    requires
        pre@ == u256_max(),
        pre@ >= u256_max() ==> r == Err::<(), CounterError>(CounterError::ArithmeticOverflow)
            && post == pre,
    ensures
        r == Err::<(), CounterError>(CounterError::ArithmeticOverflow),
        post == pre,
        post@ == u256_max(),
{
}

/// For every `n`, `set_number(n)` followed by `number` returns exactly `n`.
pub proof fn lemma_set_then_number(post: Counter, n: U256, read: U256)
    requires
        post@ == n@,
        read@ == post@,
    ensures
        read == n,
{
    lemma_view_injective(read, n);
}

} // verus!

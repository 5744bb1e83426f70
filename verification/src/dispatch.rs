//! Tagged-variant dispatch of decoded inbound calls.
//!
//! An inbound call reaches the program boundary already decoded into a
//! method selector and its arguments, here one [`MethodCall`] variant. The
//! dispatcher routes it to the matching method of [`Counter`]. Within one
//! invocation the forwarding method passes through exactly two states:
//! pending, surfaced as [`Step::AwaitCall`] with the constructed request,
//! and resolved, reached by handing the environment's outcome to
//! [`resolve`]. No pending state survives an invocation.

use crate::calls::{Address, CallOutcome, CallRequest};
use crate::counter::Counter;
use crate::u256::{u256_bound, U256};
use vstd::prelude::*;

verus! {

/// A decoded inbound call: a method selector together with its arguments.
pub enum MethodCall {
    Number,
    SetNumber(U256),
    AddNumber(U256),
    MulNumber(U256),
    Increment,
    AddFromCallValue,
    ForwardCall(Address, Vec<u8>),
}

/// What a successfully handled method hands back to its caller.
#[derive(PartialEq, Eq, Debug)]
pub enum MethodOutput {
    /// The method returns nothing.
    Unit,
    /// The method returns one 256-bit unsigned integer.
    Uint(U256),
    /// The method returns raw bytes.
    Bytes(Vec<u8>),
}

/// One step of an invocation: either resolved with the method's result — an
/// output, or a revert payload that is empty for internal failures — or
/// suspended on the outbound call the method dispatched.
#[derive(PartialEq, Eq, Debug)]
pub enum Step {
    Done(Result<MethodOutput, Vec<u8>>),
    AwaitCall(CallRequest),
}

/// Routes one decoded inbound call to the matching method.
///
/// `msg_value` is the native value the environment attached to the call; of
/// the methods here only `AddFromCallValue` consumes it. Every arithmetic
/// failure resolves to an empty revert payload with the register unchanged;
/// a `ForwardCall` suspends the invocation on the request it constructs,
/// leaving the register untouched.
pub fn dispatch(counter: &mut Counter, call: MethodCall, msg_value: U256) -> (r: Step)
    ensures
        call is Number ==> *final(counter) == *old(counter) && (r matches Step::Done(
            Ok(MethodOutput::Uint(v)),
        ) && v@ == old(counter)@),
        call matches MethodCall::SetNumber(n) ==> final(counter)@ == n@ && r == Step::Done(
            Ok::<MethodOutput, Vec<u8>>(MethodOutput::Unit),
        ),
        call matches MethodCall::AddNumber(n) ==> (if old(counter)@ + n@ < u256_bound() {
            final(counter)@ == old(counter)@ + n@ && r == Step::Done(
                Ok::<MethodOutput, Vec<u8>>(MethodOutput::Unit),
            )
        } else {
            *final(counter) == *old(counter) && (r matches Step::Done(Err(payload))
                && payload@ == Seq::<u8>::empty())
        }),
        call matches MethodCall::MulNumber(n) ==> (if old(counter)@ * n@ < u256_bound() {
            final(counter)@ == old(counter)@ * n@ && r == Step::Done(
                Ok::<MethodOutput, Vec<u8>>(MethodOutput::Unit),
            )
        } else {
            *final(counter) == *old(counter) && (r matches Step::Done(Err(payload))
                && payload@ == Seq::<u8>::empty())
        }),
        call is Increment ==> (if old(counter)@ + 1 < u256_bound() {
            final(counter)@ == old(counter)@ + 1 && r == Step::Done(
                Ok::<MethodOutput, Vec<u8>>(MethodOutput::Unit),
            )
        } else {
            *final(counter) == *old(counter) && (r matches Step::Done(Err(payload))
                && payload@ == Seq::<u8>::empty())
        }),
        call is AddFromCallValue ==> (if old(counter)@ + msg_value@ < u256_bound() {
            final(counter)@ == old(counter)@ + msg_value@ && r == Step::Done(
                Ok::<MethodOutput, Vec<u8>>(MethodOutput::Unit),
            )
        } else {
            *final(counter) == *old(counter) && (r matches Step::Done(Err(payload))
                && payload@ == Seq::<u8>::empty())
        }),
        call matches MethodCall::ForwardCall(target, data) ==> *final(counter) == *old(counter) && (
        r matches Step::AwaitCall(req) && req.target == target && req.data == data && req.value@
            == 0),
{
    match call {
        MethodCall::Number => {
            let v = counter.number();
            Step::Done(Ok(MethodOutput::Uint(v)))
        },
        MethodCall::SetNumber(n) => {
            counter.set_number(n);
            Step::Done(Ok(MethodOutput::Unit))
        },
        MethodCall::AddNumber(n) => {
            match counter.add_number(n) {
                Ok(_) => Step::Done(Ok(MethodOutput::Unit)),
                Err(_) => Step::Done(Err(Vec::new())),
            }
        },
        MethodCall::MulNumber(n) => {
            match counter.mul_number(n) {
                Ok(_) => Step::Done(Ok(MethodOutput::Unit)),
                Err(_) => Step::Done(Err(Vec::new())),
            }
        },
        MethodCall::Increment => {
            match counter.increment() {
                Ok(_) => Step::Done(Ok(MethodOutput::Unit)),
                Err(_) => Step::Done(Err(Vec::new())),
            }
        },
        MethodCall::AddFromCallValue => {
            match counter.add_from_msg_value(msg_value) {
                Ok(_) => Step::Done(Ok(MethodOutput::Unit)),
                Err(_) => Step::Done(Err(Vec::new())),
            }
        },
        MethodCall::ForwardCall(target, data) => {
            Step::AwaitCall(counter.forward_request(target, data))
        },
    }
}

/// Resolves a suspended invocation with the outcome the environment reported
/// for the dispatched call: the callee's return bytes verbatim as this
/// program's output, or its revert bytes verbatim as this program's own
/// revert payload. The register is never touched.
pub fn resolve(counter: &mut Counter, outcome: CallOutcome) -> (r: Result<MethodOutput, Vec<u8>>)
    ensures
        *final(counter) == *old(counter),
        outcome matches CallOutcome::Success(ret) ==> r == Ok::<MethodOutput, Vec<u8>>(
            MethodOutput::Bytes(ret),
        ),
        outcome matches CallOutcome::Revert(payload) ==> r == Err::<MethodOutput, Vec<u8>>(payload),
{
    match outcome {
        CallOutcome::Success(ret) => Ok(MethodOutput::Bytes(ret)),
        CallOutcome::Revert(payload) => Err(payload),
    }
}

} // verus!

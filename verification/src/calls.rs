//! Outbound call forwarding: requests and resolved outcomes.
//!
//! A forwarding invocation builds one [`CallRequest`], hands it to the
//! execution environment's synchronous call primitive, and receives one
//! [`CallOutcome`]. The outcome's bytes are relayed verbatim in both
//! directions: return bytes as output, revert bytes as this program's own
//! failure payload.

use crate::u256::U256;
use vstd::prelude::*;

verus! {

/// A 20-byte account address identifying the target program of a call.
#[derive(Clone, Copy, PartialEq, Eq, Debug)]
pub struct Address {
    bytes: [u8; 20],
}

impl View for Address {
    type V = Seq<u8>;

    closed spec fn view(&self) -> Seq<u8> {
        self.bytes@
    }
}

impl Address {
    /// The address made of exactly the given 20 bytes.
    pub fn from_bytes(bytes: [u8; 20]) -> (r: Address)
        ensures
            r@ == bytes@,
    {
        Address { bytes }
    }
}

/// One outbound call, constructed fresh per forwarding invocation and never
/// persisted: the target program, the raw calldata it alone interprets, and
/// the attached native value.
#[derive(PartialEq, Eq, Debug)]
pub struct CallRequest {
    pub target: Address,
    pub data: Vec<u8>,
    pub value: U256,
}

/// The resolved outcome of an outbound call, exactly as the execution
/// environment reports it: the callee's return bytes on success, its raw
/// revert payload on failure. Resource exhaustion inside the callee surfaces
/// as an ordinary `Revert`.
#[derive(Clone, PartialEq, Eq, Debug)]
pub enum CallOutcome {
    Success(Vec<u8>),
    Revert(Vec<u8>),
}

} // verus!

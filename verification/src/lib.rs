//! A verified model of a minimal persistent-counter program.
//!
//! The program durably stores a single 256-bit unsigned register, exposes a
//! fixed set of externally callable methods that read and mutate it, and can
//! forward a raw call to another program, relaying that program's success or
//! failure outcome verbatim.
//!
//! Modules:
//! - [`u256`]: fixed-width 256-bit unsigned integers with checked arithmetic,
//!   proved against their mathematical value.
//! - [`counter`]: the register and its method set.
//! - [`dispatch`]: the tagged-variant method dispatcher and the external-call
//!   forwarding state machine.
//! - [`paths`]: resolution of a relative path against a project root.

pub mod calls;
pub mod counter;
pub mod dispatch;
pub mod paths;
pub mod u256;

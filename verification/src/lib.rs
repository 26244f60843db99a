//! Guest-side core for a sandboxed module that talks to an untrusted host:
//! an allocation arena for variable-length data, a typed call-marshaling
//! protocol, handle and listener registries, and a cooperative task executor
//! with event-correlated futures.

use vstd::prelude::*;

pub mod arena;
pub mod bindings;
pub mod host;
pub mod params;
pub mod registry;
pub mod runtime;
pub mod signals;

verus! {

/// The faults a guest-visible operation can report: access to a cleared or
/// out-of-range allocation, bytes that are not valid UTF-8, and a wake or
/// callback that names an unknown correlation id.
#[derive(Clone, Copy, Debug, PartialEq, Eq, Structural)]
pub enum Fault {
    UseAfterFree,
    InvalidEncoding,
    MissingCorrelation,
}

} // verus!

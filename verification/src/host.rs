//! The descriptor for one call into a host-registered function.
//!
//! The guest never performs the call itself: it assembles a [`HostCall`] —
//! the function's source snippet, the encoded argument list, and the shape
//! of the expected result — and a thin unverified shell registers the
//! snippet with the host and invokes it through the matching host
//! primitive. Results that are strings or buffers arrive indirectly, as an
//! allocation id to be decoded through the arena.

use vstd::prelude::*;

use crate::params::{spec_param_bytes, spec_params_bytes, serialize_params, InvokeParam};

verus! {

/// The shape of a host call's result: returned directly (nothing, a 32-bit
/// number, a 64-bit integer, an object handle, a boolean) or indirectly as
/// an arena allocation id holding a string or a byte buffer.
#[derive(Debug, Clone, Copy, PartialEq, Eq, Structural)]
pub enum ReturnKind {
    Void,
    Number,
    BigInt,
    Ref,
    Bool,
    StringAlloc,
    BufferAlloc,
}

/// One fully assembled call into a host-registered function.
pub struct HostCall {
    /// The host-side source snippet to register and invoke.
    pub code: &'static str,
    /// The encoded argument list, tag byte plus payload per argument.
    pub params: Vec<u8>,
    /// The shape of the expected result.
    pub result_kind: ReturnKind,
}

impl HostCall {
    /// Assemble a call: encode the argument list for the given snippet.
    pub fn new(code: &'static str, params: &[InvokeParam], result_kind: ReturnKind) -> (c: HostCall)
        ensures
            c.code@ == code@,
            c.params@ == spec_params_bytes(params@),
            c.result_kind == result_kind,
    {
        HostCall { code, params: serialize_params(params), result_kind }
    }

    /// A call that takes no arguments.
    pub fn args0(code: &'static str, result_kind: ReturnKind) -> (c: HostCall)
        ensures
            c.code@ == code@,
            c.params@ == Seq::<u8>::empty(),
            c.result_kind == result_kind,
    {
        let params: Vec<u8> = Vec::new();
        proof {
            assert(params@ =~= Seq::<u8>::empty());
        }
        HostCall { code, params, result_kind }
    }

    /// A call that takes one argument.
    pub fn args1(code: &'static str, p1: InvokeParam, result_kind: ReturnKind) -> (c: HostCall)
        ensures
            c.code@ == code@,
            c.params@ == spec_param_bytes(p1),
            c.result_kind == result_kind,
    {
        HostCall { code, params: p1.serialize(), result_kind }
    }

    /// A call that takes two arguments.
    pub fn args2(
        code: &'static str,
        p1: InvokeParam,
        p2: InvokeParam,
        result_kind: ReturnKind,
    ) -> (c: HostCall)
        ensures
            c.code@ == code@,
            c.params@ == spec_param_bytes(p1) + spec_param_bytes(p2),
            c.result_kind == result_kind,
    {
        let mut params = p1.serialize();
        let mut tail = p2.serialize();
        params.append(&mut tail);
        HostCall { code, params, result_kind }
    }

    /// A call that takes three arguments.
    pub fn args3(
        code: &'static str,
        p1: InvokeParam,
        p2: InvokeParam,
        p3: InvokeParam,
        result_kind: ReturnKind,
    ) -> (c: HostCall)
        ensures
            c.code@ == code@,
            c.params@ == spec_param_bytes(p1) + spec_param_bytes(p2) + spec_param_bytes(p3),
            c.result_kind == result_kind,
    {
        let mut params = p1.serialize();
        let mut second = p2.serialize();
        params.append(&mut second);
        let mut third = p3.serialize();
        params.append(&mut third);
        HostCall { code, params, result_kind }
    }
}

} // verus!

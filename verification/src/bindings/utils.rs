//! Host object property access, randomness, and the sleep primitive.

use vstd::prelude::*;

use crate::host::{HostCall, ReturnKind};
use crate::params::{spec_param_bytes, ExternRef, InvokeParam, MemView};
use crate::runtime::{spec_after_wake, spec_wake_result, SharedStateMap};
use crate::Fault;

verus! {

/// The call that draws a host random number; nothing relates two draws.
pub fn random() -> (c: HostCall)
    ensures
        c.code@ == "function(){ return Math.random(); }"@,
        c.params@ == Seq::<u8>::empty(),
        c.result_kind == ReturnKind::Number,
{
    HostCall::args0("function(){ return Math.random(); }", ReturnKind::Number)
}

/// The call that reads an integer property of a host object.
pub fn get_property_i32(element: ExternRef, property: MemView) -> (c: HostCall)
    ensures
        c.code@ == "function(element, property){ return element[property]; }"@,
        c.params@ == spec_param_bytes(InvokeParam::ExternRef(element)) + spec_param_bytes(InvokeParam::String(property)),
        c.result_kind == ReturnKind::Number,
{
    HostCall::args2(
        "function(element, property){ return element[property]; }",
        InvokeParam::ExternRef(element),
        InvokeParam::String(property),
        ReturnKind::Number,
    )
}

/// The call that sets an integer property of a host object.
pub fn set_property_i32(element: ExternRef, property: MemView, value: i32) -> (c: HostCall)
    ensures
        c.code@ == "function(element, property, value){ element[property] = value; }"@,
        c.params@ == spec_param_bytes(InvokeParam::ExternRef(element)) + spec_param_bytes(InvokeParam::String(property)) + spec_param_bytes(InvokeParam::Int32(value)),
        c.result_kind == ReturnKind::Void,
{
    HostCall::args3(
        "function(element, property, value){ element[property] = value; }",
        InvokeParam::ExternRef(element),
        InvokeParam::String(property),
        InvokeParam::Int32(value),
        ReturnKind::Void,
    )
}

/// The call that reads a wide integer property of a host object.
pub fn get_property_i64(element: ExternRef, property: MemView) -> (c: HostCall)
    ensures
        c.code@ == "function(element, property){ return element[property]; }"@,
        c.params@ == spec_param_bytes(InvokeParam::ExternRef(element)) + spec_param_bytes(InvokeParam::String(property)),
        c.result_kind == ReturnKind::BigInt,
{
    HostCall::args2(
        "function(element, property){ return element[property]; }",
        InvokeParam::ExternRef(element),
        InvokeParam::String(property),
        ReturnKind::BigInt,
    )
}

/// The call that sets a wide integer property of a host object.
pub fn set_property_i64(element: ExternRef, property: MemView, value: i64) -> (c: HostCall)
    ensures
        c.code@ == "function(element, property, value){ element[property] = value; }"@,
        c.params@ == spec_param_bytes(InvokeParam::ExternRef(element)) + spec_param_bytes(InvokeParam::String(property)) + spec_param_bytes(InvokeParam::BigInt(value)),
        c.result_kind == ReturnKind::Void,
{
    HostCall::args3(
        "function(element, property, value){ element[property] = value; }",
        InvokeParam::ExternRef(element),
        InvokeParam::String(property),
        InvokeParam::BigInt(value),
        ReturnKind::Void,
    )
}

/// The call that reads a boolean property of a host object as 1 or 0.
pub fn get_property_bool(element: ExternRef, property: MemView) -> (c: HostCall)
    ensures
        c.code@ == "function(element, property){ return element[property]?1:0; }"@,
        c.params@ == spec_param_bytes(InvokeParam::ExternRef(element)) + spec_param_bytes(InvokeParam::String(property)),
        c.result_kind == ReturnKind::Number,
{
    HostCall::args2(
        "function(element, property){ return element[property]?1:0; }",
        InvokeParam::ExternRef(element),
        InvokeParam::String(property),
        ReturnKind::Number,
    )
}

/// The call that sets a boolean property of a host object.
pub fn set_property_bool(element: ExternRef, property: MemView, value: bool) -> (c: HostCall)
    ensures
        c.code@ == "function(element, property, value){ element[property] = value !==0; }"@,
        c.params@ == spec_param_bytes(InvokeParam::ExternRef(element)) + spec_param_bytes(InvokeParam::String(property)) + spec_param_bytes(InvokeParam::Bool(value)),
        c.result_kind == ReturnKind::Void,
{
    HostCall::args3(
        "function(element, property, value){ element[property] = value !==0; }",
        InvokeParam::ExternRef(element),
        InvokeParam::String(property),
        InvokeParam::Bool(value),
        ReturnKind::Void,
    )
}

/// The call that reads a string property of a host object into a fresh
/// arena allocation, whose id it returns.
pub fn get_property_string(element: ExternRef, property: MemView) -> (c: HostCall)
    ensures
        c.code@ == "function(element, property){ const text = element[property]; const buffer = (new TextEncoder()).encode(text); const allocationId = writeBufferToMemory(buffer); return allocationId; }"@,
        c.params@ == spec_param_bytes(InvokeParam::ExternRef(element)) + spec_param_bytes(InvokeParam::String(property)),
        c.result_kind == ReturnKind::Number,
{
    HostCall::args2(
        "function(element, property){ const text = element[property]; const buffer = (new TextEncoder()).encode(text); const allocationId = writeBufferToMemory(buffer); return allocationId; }",
        InvokeParam::ExternRef(element),
        InvokeParam::String(property),
        ReturnKind::Number,
    )
}

/// The call that sets a string property of a host object.
pub fn set_property_string(element: ExternRef, property: MemView, value: MemView) -> (c: HostCall)
    ensures
        c.code@ == "function(element, p, v){ element[p] = v; }"@,
        c.params@ == spec_param_bytes(InvokeParam::ExternRef(element)) + spec_param_bytes(InvokeParam::String(property)) + spec_param_bytes(InvokeParam::String(value)),
        c.result_kind == ReturnKind::Void,
{
    HostCall::args3(
        "function(element, p, v){ element[p] = v; }",
        InvokeParam::ExternRef(element),
        InvokeParam::String(property),
        InvokeParam::String(value),
        ReturnKind::Void,
    )
}

/// The call that asks the host to fire the one-shot wake callback for
/// `state_id_bits` after a delay; both arguments travel as IEEE-754 bits.
pub fn sleep(ms_bits: u64, state_id_bits: u64) -> (c: HostCall)
    ensures
        c.code@ == "function(ms, stateId){ window.setTimeout(()=>{ wasmModule.instance.exports.handle_empty_callback(stateId,0); }, ms); }"@,
        c.params@ == spec_param_bytes(InvokeParam::Float64(ms_bits)) + spec_param_bytes(InvokeParam::Float64(state_id_bits)),
        c.result_kind == ReturnKind::Void,
{
    HostCall::args2(
        "function(ms, stateId){ window.setTimeout(()=>{ wasmModule.instance.exports.handle_empty_callback(stateId,0); }, ms); }",
        InvokeParam::Float64(ms_bits),
        InvokeParam::Float64(state_id_bits),
        ReturnKind::Void,
    )
}

/// Decode what the `get_property_bool` call returned: the host encodes
/// true as 1.
pub fn get_property_bool_decode(raw: i32) -> (r: bool)
    ensures
        r == (raw == 1),
{
    raw == 1
}

/// The one-shot numeric wake callback the host invokes: complete the
/// unit-result future registered under `callback_id`. See
/// [`SharedStateMap::wake_future`].
pub fn handle_empty_callback<W>(map: &mut SharedStateMap<(), W>, callback_id: u32) -> (r: Result<
    Option<W>,
    Fault,
>)
    ensures
        r == spec_wake_result(old(map)@, callback_id),
        final(map)@ == spec_after_wake(old(map)@, callback_id, ()),
{
    map.wake_future(callback_id, ())
}

} // verus!

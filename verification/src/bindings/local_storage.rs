//! Host local-storage calls.

use vstd::prelude::*;

use crate::host::{HostCall, ReturnKind};
use crate::params::{spec_param_bytes, InvokeParam, MemView};
use crate::arena::{spec_read_string, Arena};
use crate::Fault;

verus! {

/// The call that stores `value` under `key`.
pub fn local_storage_set(key: MemView, value: MemView) -> (c: HostCall)
    ensures
        c.code@ == "function(key, value){ localStorage.setItem(key, value); }"@,
        c.params@ == spec_param_bytes(InvokeParam::String(key)) + spec_param_bytes(InvokeParam::String(value)),
        c.result_kind == ReturnKind::Void,
{
    HostCall::args2(
        "function(key, value){ localStorage.setItem(key, value); }",
        InvokeParam::String(key),
        InvokeParam::String(value),
        ReturnKind::Void,
    )
}

/// The call that removes the entry under `key`.
pub fn local_storage_remove(key: MemView) -> (c: HostCall)
    ensures
        c.code@ == "function(key){ localStorage.removeItem(key); }"@,
        c.params@ == spec_param_bytes(InvokeParam::String(key)),
        c.result_kind == ReturnKind::Void,
{
    HostCall::args1(
        "function(key){ localStorage.removeItem(key); }",
        InvokeParam::String(key),
        ReturnKind::Void,
    )
}

/// The call that looks `key` up: it returns 0 when the key is absent, else
/// the id of a fresh arena allocation holding the value.
pub fn local_storage_get(key: MemView) -> (c: HostCall)
    ensures
        c.code@ == "function(key){ const text = localStorage.getItem(key); if(text === null){ return 0; } const buffer = (new TextEncoder()).encode(text); const allocationId = writeBufferToMemory(buffer); return allocationId; }"@,
        c.params@ == spec_param_bytes(InvokeParam::String(key)),
        c.result_kind == ReturnKind::Number,
{
    HostCall::args1(
        "function(key){ const text = localStorage.getItem(key); if(text === null){ return 0; } const buffer = (new TextEncoder()).encode(text); const allocationId = writeBufferToMemory(buffer); return allocationId; }",
        InvokeParam::String(key),
        ReturnKind::Number,
    )
}

/// The call that removes every entry.
pub fn local_storage_clear() -> (c: HostCall)
    ensures
        c.code@ == "function(){ localStorage.clear(); }"@,
        c.params@ == Seq::<u8>::empty(),
        c.result_kind == ReturnKind::Void,
{
    HostCall::args0("function(){ localStorage.clear(); }", ReturnKind::Void)
}

/// Decode what the `local_storage_get` call returned: 0 means the key was
/// absent; any other value is the arena allocation holding the stored text.
pub fn local_storage_get_decode(arena: &Arena, raw: i32) -> (r: Result<Option<String>, Fault>)
    ensures
        raw == 0 ==> r == Ok::<Option<String>, Fault>(None),
        raw != 0 ==> (match spec_read_string(arena@, raw as u32 as int) {
            Ok(text) => r matches Ok(v) && v matches Some(s) && s@ == text,
            Err(fault) => r == Err::<Option<String>, Fault>(fault),
        }),
{
    if raw == 0 {
        Ok(None)
    } else {
        match arena.read_string(raw as u32) {
            Ok(text) => Ok(Some(text)),
            Err(fault) => Err(fault),
        }
    }
}

} // verus!

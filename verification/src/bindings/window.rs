//! Host window calls: timers and the one-shot timer callback entry.

use vstd::prelude::*;

use crate::host::{HostCall, ReturnKind};
use crate::params::{spec_param_bytes, InvokeParam};
use crate::registry::HandlerRegistry;
use crate::Fault;

verus! {

/// The call that schedules a one-shot host timer. `ms_bits` is the delay in
/// milliseconds as IEEE-754 bits; the returned object carries the handle
/// under which the guest must register its handler, and the timer handle.
pub fn set_timeout(ms_bits: u64) -> (c: HostCall)
    ensures
        c.code@ == "function(ms){ const handler = () => { wasmModule.instance.exports.handle_one_time_empty_callback(objectId,0); }; objects.push(handler); const objectId = objects.length - 1; const handle = window.setTimeout(handler, ms); return {objectId,handle}; }"@,
        c.params@ == spec_param_bytes(InvokeParam::Float64(ms_bits)),
        c.result_kind == ReturnKind::Ref,
{
    HostCall::args1(
        "function(ms){ const handler = () => { wasmModule.instance.exports.handle_one_time_empty_callback(objectId,0); }; objects.push(handler); const objectId = objects.length - 1; const handle = window.setTimeout(handler, ms); return {objectId,handle}; }",
        InvokeParam::Float64(ms_bits),
        ReturnKind::Ref,
    )
}

/// The call that cancels a host timer; the argument is the timer handle as
/// IEEE-754 bits.
pub fn clear_timeout(interval_bits: u64) -> (c: HostCall)
    ensures
        c.code@ == "function(interval_id){ window.clearTimeout(interval_id); }"@,
        c.params@ == spec_param_bytes(InvokeParam::Float64(interval_bits)),
        c.result_kind == ReturnKind::Void,
{
    HostCall::args1(
        "function(interval_id){ window.clearTimeout(interval_id); }",
        InvokeParam::Float64(interval_bits),
        ReturnKind::Void,
    )
}

/// A one-shot host callback fired: remove the handler registered under
/// `callback_id` and hand it back to be invoked — the entry and the handler
/// leave the registry together. An unknown id signals a protocol desync.
pub fn handle_one_time_empty_callback<H>(
    handlers: &mut HandlerRegistry<H>,
    callback_id: u32,
) -> (r: Result<H, Fault>)
    ensures
        old(handlers)@.contains_key(callback_id) ==> (r matches Ok(h) && h
            == old(handlers)@[callback_id] && final(handlers)@ == old(handlers)@.remove(
            callback_id,
        )),
        !old(handlers)@.contains_key(callback_id) ==> (r == Err::<H, Fault>(
            Fault::MissingCorrelation,
        ) && final(handlers)@ == old(handlers)@),
{
    match handlers.remove(callback_id) {
        Some(handler) => Ok(handler),
        None => {
            proof {
                assert(handlers@ =~= old(handlers)@);
            }
            Err(Fault::MissingCorrelation)
        },
    }
}

} // verus!

//! Host console calls: logging and timing.

use vstd::prelude::*;

use crate::host::{HostCall, ReturnKind};
use crate::params::{spec_param_bytes, InvokeParam, MemView};

verus! {

/// The call that logs `message` on the host console.
pub fn console_log(message: MemView) -> (c: HostCall)
    ensures
        c.code@ == "function(message){ console.log(message); }"@,
        c.params@ == spec_param_bytes(InvokeParam::String(message)),
        c.result_kind == ReturnKind::Void,
{
    HostCall::args1("function(message){ console.log(message); }", InvokeParam::String(message), ReturnKind::Void)
}

/// The call that logs `message` as an error on the host console.
pub fn console_error(message: MemView) -> (c: HostCall)
    ensures
        c.code@ == "function(message){ console.error(message); }"@,
        c.params@ == spec_param_bytes(InvokeParam::String(message)),
        c.result_kind == ReturnKind::Void,
{
    HostCall::args1("function(message){ console.error(message); }", InvokeParam::String(message), ReturnKind::Void)
}

/// The call that logs `message` as a warning on the host console.
pub fn console_warn(message: MemView) -> (c: HostCall)
    ensures
        c.code@ == "function(message){ console.warn(message); }"@,
        c.params@ == spec_param_bytes(InvokeParam::String(message)),
        c.result_kind == ReturnKind::Void,
{
    HostCall::args1("function(message){ console.warn(message); }", InvokeParam::String(message), ReturnKind::Void)
}

/// The call that starts a console timer under `label`.
pub fn console_time(label: MemView) -> (c: HostCall)
    ensures
        c.code@ == "function(label){ console.time(label); }"@,
        c.params@ == spec_param_bytes(InvokeParam::String(label)),
        c.result_kind == ReturnKind::Void,
{
    HostCall::args1("function(label){ console.time(label); }", InvokeParam::String(label), ReturnKind::Void)
}

/// The call that stops the console timer under `label` and logs it.
pub fn console_time_end(label: MemView) -> (c: HostCall)
    ensures
        c.code@ == "function(label){ console.timeEnd(label); }"@,
        c.params@ == spec_param_bytes(InvokeParam::String(label)),
        c.result_kind == ReturnKind::Void,
{
    HostCall::args1("function(label){ console.timeEnd(label); }", InvokeParam::String(label), ReturnKind::Void)
}

} // verus!

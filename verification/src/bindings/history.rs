//! Host history and location calls.

use vstd::prelude::*;

use crate::host::{HostCall, ReturnKind};
use crate::params::{spec_param_bytes, ExternRef, InvokeParam, MemView};

verus! {

/// The (empty) payload of a history-navigation event.
#[derive(Debug, Clone, Copy, PartialEq, Eq, Structural)]
pub struct PopStateEvent {}

/// The call that pushes a history entry.
pub fn history_push_state(title: MemView, url: MemView) -> (c: HostCall)
    ensures
        c.code@ == "function(title, url) { window.history.pushState({}, title, url); }"@,
        c.params@ == spec_param_bytes(InvokeParam::String(title)) + spec_param_bytes(InvokeParam::String(url)),
        c.result_kind == ReturnKind::Void,
{
    HostCall::args2(
        "function(title, url) { window.history.pushState({}, title, url); }",
        InvokeParam::String(title),
        InvokeParam::String(url),
        ReturnKind::Void,
    )
}

/// The call that replaces the current history entry.
pub fn history_replace_state(title: MemView, url: MemView) -> (c: HostCall)
    ensures
        c.code@ == "function(title, url) { window.history.replaceState({}, title, url); }"@,
        c.params@ == spec_param_bytes(InvokeParam::String(title)) + spec_param_bytes(InvokeParam::String(url)),
        c.result_kind == ReturnKind::Void,
{
    HostCall::args2(
        "function(title, url) { window.history.replaceState({}, title, url); }",
        InvokeParam::String(title),
        InvokeParam::String(url),
        ReturnKind::Void,
    )
}

/// The call that navigates one history entry back.
pub fn history_back() -> (c: HostCall)
    ensures
        c.code@ == "function() { window.history.back(); }"@,
        c.params@ == Seq::<u8>::empty(),
        c.result_kind == ReturnKind::Void,
{
    HostCall::args0("function() { window.history.back(); }", ReturnKind::Void)
}

/// The call that navigates one history entry forward.
pub fn history_forward() -> (c: HostCall)
    ensures
        c.code@ == "function() { window.history.forward(); }"@,
        c.params@ == Seq::<u8>::empty(),
        c.result_kind == ReturnKind::Void,
{
    HostCall::args0("function() { window.history.forward(); }", ReturnKind::Void)
}

/// The call that navigates `delta` history entries.
pub fn history_go(delta: i32) -> (c: HostCall)
    ensures
        c.code@ == "function(delta) { window.history.go(delta); }"@,
        c.params@ == spec_param_bytes(InvokeParam::Int32(delta)),
        c.result_kind == ReturnKind::Void,
{
    HostCall::args1(
        "function(delta) { window.history.go(delta); }",
        InvokeParam::Int32(delta),
        ReturnKind::Void,
    )
}

/// The call that reads the history length.
pub fn history_length() -> (c: HostCall)
    ensures
        c.code@ == "function() { return window.history.length; }"@,
        c.params@ == Seq::<u8>::empty(),
        c.result_kind == ReturnKind::Number,
{
    HostCall::args0("function() { return window.history.length; }", ReturnKind::Number)
}

/// The call that reads the full location URL.
pub fn location_url() -> (c: HostCall)
    ensures
        c.code@ == "function() { return window.location.href; }"@,
        c.params@ == Seq::<u8>::empty(),
        c.result_kind == ReturnKind::StringAlloc,
{
    HostCall::args0("function() { return window.location.href; }", ReturnKind::StringAlloc)
}

/// The call that reads the location host.
pub fn location_host() -> (c: HostCall)
    ensures
        c.code@ == "function() { return window.location.host; }"@,
        c.params@ == Seq::<u8>::empty(),
        c.result_kind == ReturnKind::StringAlloc,
{
    HostCall::args0("function() { return window.location.host; }", ReturnKind::StringAlloc)
}

/// The call that reads the location hostname.
pub fn location_hostname() -> (c: HostCall)
    ensures
        c.code@ == "function() { return window.location.hostname; }"@,
        c.params@ == Seq::<u8>::empty(),
        c.result_kind == ReturnKind::StringAlloc,
{
    HostCall::args0("function() { return window.location.hostname; }", ReturnKind::StringAlloc)
}

/// The call that reads the location path.
pub fn location_pathname() -> (c: HostCall)
    ensures
        c.code@ == "function() { return window.location.pathname; }"@,
        c.params@ == Seq::<u8>::empty(),
        c.result_kind == ReturnKind::StringAlloc,
{
    HostCall::args0("function() { return window.location.pathname; }", ReturnKind::StringAlloc)
}

/// The call that reads the location query string.
pub fn location_search() -> (c: HostCall)
    ensures
        c.code@ == "function() { return window.location.search; }"@,
        c.params@ == Seq::<u8>::empty(),
        c.result_kind == ReturnKind::StringAlloc,
{
    HostCall::args0("function() { return window.location.search; }", ReturnKind::StringAlloc)
}

/// The call that reads the location hash.
pub fn location_hash() -> (c: HostCall)
    ensures
        c.code@ == "function() { return window.location.hash; }"@,
        c.params@ == Seq::<u8>::empty(),
        c.result_kind == ReturnKind::StringAlloc,
{
    HostCall::args0("function() { return window.location.hash; }", ReturnKind::StringAlloc)
}

/// The call that reloads the page.
pub fn location_reload() -> (c: HostCall)
    ensures
        c.code@ == "function() { window.location.reload(); }"@,
        c.params@ == Seq::<u8>::empty(),
        c.result_kind == ReturnKind::Void,
{
    HostCall::args0("function() { window.location.reload(); }", ReturnKind::Void)
}

/// The call that installs a host-side history-navigation listener and
/// returns the handle for the guest handler.
pub fn add_history_pop_state_event_listener() -> (c: HostCall)
    ensures
        c.code@ == "function(){ const handler = (e) => { wasmModule.instance.exports.handle_pop_state_event_callback(objectId,0); }; objects.push(handler); const objectId = objects.length - 1; window.addEventListener(\"popstate\",handler); return objectId; }"@,
        c.params@ == Seq::<u8>::empty(),
        c.result_kind == ReturnKind::Number,
{
    HostCall::args0("function(){ const handler = (e) => { wasmModule.instance.exports.handle_pop_state_event_callback(objectId,0); }; objects.push(handler); const objectId = objects.length - 1; window.addEventListener(\"popstate\",handler); return objectId; }", ReturnKind::Number)
}

/// The call that removes a history-navigation listener; the guest handler
/// under the same handle leaves with it.
pub fn remove_history_pop_state_listener(element: ExternRef, function_handle: ExternRef) -> (c: HostCall)
    ensures
        c.code@ == "function(element, f){ window.removeEventListener('popstate', f); }"@,
        c.params@ == spec_param_bytes(InvokeParam::ExternRef(element)) + spec_param_bytes(InvokeParam::ExternRef(function_handle)),
        c.result_kind == ReturnKind::Void,
{
    HostCall::args2(
        "function(element, f){ window.removeEventListener('popstate', f); }",
        InvokeParam::ExternRef(element),
        InvokeParam::ExternRef(function_handle),
        ReturnKind::Void,
    )
}

} // verus!

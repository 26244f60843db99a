//! Host document calls: element creation and manipulation, dialogs, and
//! the installation and removal of event listeners. Installing a listener
//! returns the integer handle under which the guest must register its own
//! handler; removing one must drop that handler in the same step.

use vstd::prelude::*;

use crate::host::{HostCall, ReturnKind};
use crate::params::{spec_param_bytes, ExternRef, InvokeParam, MemView};

verus! {

/// The payload of a change event: the changed element's current value,
/// transferred through the arena.
pub struct ChangeEvent {
    pub value: String,
}

/// The payload of a keyboard event.
#[derive(Debug, Clone, Copy, PartialEq, Eq, Structural)]
pub struct KeyboardEvent {
    pub key_code: u32,
}

/// The call that creates a host document element with the given tag.
pub fn create_element(tag: MemView) -> (c: HostCall)
    ensures
        c.code@ == "function (t) { return document.createElement(t); }"@,
        c.params@ == spec_param_bytes(InvokeParam::String(tag)),
        c.result_kind == ReturnKind::Ref,
{
    HostCall::args1(
        "function (t) { return document.createElement(t); }",
        InvokeParam::String(tag),
        ReturnKind::Ref,
    )
}

/// The call that creates a host text node with the given text.
pub fn create_text_node(text: MemView) -> (c: HostCall)
    ensures
        c.code@ == "function (t) { return document.createTextNode(t); }"@,
        c.params@ == spec_param_bytes(InvokeParam::String(text)),
        c.result_kind == ReturnKind::Ref,
{
    HostCall::args1(
        "function (t) { return document.createTextNode(t); }",
        InvokeParam::String(text),
        ReturnKind::Ref,
    )
}

/// The call that appends `child` under `parent`.
pub fn append_child(parent: ExternRef, child: ExternRef) -> (c: HostCall)
    ensures
        c.code@ == "function (p, e) { p.appendChild(e); }"@,
        c.params@ == spec_param_bytes(InvokeParam::ExternRef(parent)) + spec_param_bytes(InvokeParam::ExternRef(child)),
        c.result_kind == ReturnKind::Void,
{
    HostCall::args2(
        "function (p, e) { p.appendChild(e); }",
        InvokeParam::ExternRef(parent),
        InvokeParam::ExternRef(child),
        ReturnKind::Void,
    )
}

/// The call that shows an alert dialog with `message`.
pub fn alert(message: MemView) -> (c: HostCall)
    ensures
        c.code@ == "function(message){ alert(message); }"@,
        c.params@ == spec_param_bytes(InvokeParam::String(message)),
        c.result_kind == ReturnKind::Void,
{
    HostCall::args1(
        "function(message){ alert(message); }",
        InvokeParam::String(message),
        ReturnKind::Void,
    )
}

/// The call that shows a prompt dialog and writes the reply into a fresh
/// arena allocation, whose id it returns.
pub fn prompt(message: MemView, placeholder: MemView) -> (c: HostCall)
    ensures
        c.code@ == "function(message, placeholder){ const text = prompt(message, placeholder); const buffer = (new TextEncoder()).encode(text); const allocationId = writeBufferToMemory(buffer); return allocationId; }"@,
        c.params@ == spec_param_bytes(InvokeParam::String(message)) + spec_param_bytes(InvokeParam::String(placeholder)),
        c.result_kind == ReturnKind::Number,
{
    HostCall::args2(
        "function(message, placeholder){ const text = prompt(message, placeholder); const buffer = (new TextEncoder()).encode(text); const allocationId = writeBufferToMemory(buffer); return allocationId; }",
        InvokeParam::String(message),
        InvokeParam::String(placeholder),
        ReturnKind::Number,
    )
}

/// The call that looks an element up by CSS selector.
pub fn query_selector(selector: MemView) -> (c: HostCall)
    ensures
        c.code@ == "function(s){ return document.querySelector(s); }"@,
        c.params@ == spec_param_bytes(InvokeParam::String(selector)),
        c.result_kind == ReturnKind::Ref,
{
    HostCall::args1(
        "function(s){ return document.querySelector(s); }",
        InvokeParam::String(selector),
        ReturnKind::Ref,
    )
}

/// The call that replaces an element's HTML content.
pub fn element_set_inner_html(element: ExternRef, html: MemView) -> (c: HostCall)
    ensures
        c.code@ == "function(element, html){ element.innerHTML = html; }"@,
        c.params@ == spec_param_bytes(InvokeParam::ExternRef(element)) + spec_param_bytes(InvokeParam::String(html)),
        c.result_kind == ReturnKind::Void,
{
    HostCall::args2(
        "function(element, html){ element.innerHTML = html; }",
        InvokeParam::ExternRef(element),
        InvokeParam::String(html),
        ReturnKind::Void,
    )
}

/// The call that adds a CSS class to an element.
pub fn element_add_class(element: ExternRef, class_name: MemView) -> (c: HostCall)
    ensures
        c.code@ == "function(element, c){ element.classList.add(c); }"@,
        c.params@ == spec_param_bytes(InvokeParam::ExternRef(element)) + spec_param_bytes(InvokeParam::String(class_name)),
        c.result_kind == ReturnKind::Void,
{
    HostCall::args2(
        "function(element, c){ element.classList.add(c); }",
        InvokeParam::ExternRef(element),
        InvokeParam::String(class_name),
        ReturnKind::Void,
    )
}

/// The call that removes a CSS class from an element.
pub fn element_remove_class(element: ExternRef, class_name: MemView) -> (c: HostCall)
    ensures
        c.code@ == "function(element, c){ element.classList.remove(c); }"@,
        c.params@ == spec_param_bytes(InvokeParam::ExternRef(element)) + spec_param_bytes(InvokeParam::String(class_name)),
        c.result_kind == ReturnKind::Void,
{
    HostCall::args2(
        "function(element, c){ element.classList.remove(c); }",
        InvokeParam::ExternRef(element),
        InvokeParam::String(class_name),
        ReturnKind::Void,
    )
}

/// The call that sets one style property on an element.
pub fn element_set_style_attribute(element: ExternRef, attribute: MemView, value: MemView) -> (c: HostCall)
    ensures
        c.code@ == "function(element, attribute, value){ element.style[attribute] = value; }"@,
        c.params@ == spec_param_bytes(InvokeParam::ExternRef(element)) + spec_param_bytes(InvokeParam::String(attribute)) + spec_param_bytes(InvokeParam::String(value)),
        c.result_kind == ReturnKind::Void,
{
    HostCall::args3(
        "function(element, attribute, value){ element.style[attribute] = value; }",
        InvokeParam::ExternRef(element),
        InvokeParam::String(attribute),
        InvokeParam::String(value),
        ReturnKind::Void,
    )
}

/// The call that sets one attribute on an element.
pub fn element_set_attribute(element: ExternRef, attribute: MemView, value: MemView) -> (c: HostCall)
    ensures
        c.code@ == "function(element, attribute, value){ element.setAttribute(attribute, value); }"@,
        c.params@ == spec_param_bytes(InvokeParam::ExternRef(element)) + spec_param_bytes(InvokeParam::String(attribute)) + spec_param_bytes(InvokeParam::String(value)),
        c.result_kind == ReturnKind::Void,
{
    HostCall::args3(
        "function(element, attribute, value){ element.setAttribute(attribute, value); }",
        InvokeParam::ExternRef(element),
        InvokeParam::String(attribute),
        InvokeParam::String(value),
        ReturnKind::Void,
    )
}

/// The call that removes an element from the document.
pub fn element_remove(element: ExternRef) -> (c: HostCall)
    ensures
        c.code@ == "function(element){ element.remove(); }"@,
        c.params@ == spec_param_bytes(InvokeParam::ExternRef(element)),
        c.result_kind == ReturnKind::Void,
{
    HostCall::args1(
        "function(element){ element.remove(); }",
        InvokeParam::ExternRef(element),
        ReturnKind::Void,
    )
}

/// The call that installs a host-side change listener on an element and
/// returns the handle under which the guest must register its handler.
pub fn add_change_event_listener(element: ExternRef) -> (c: HostCall)
    ensures
        c.code@ == "function(element){ const handler = (e) => { const buffer = (new TextEncoder()).encode(e.target.value); const allocationId = writeBufferToMemory(buffer); wasmModule.instance.exports.handle_change_event_callback(objectId,allocationId); }; objects.push(handler); const objectId = objects.length - 1; element.addEventListener(\"change\",handler); return objectId; }"@,
        c.params@ == spec_param_bytes(InvokeParam::ExternRef(element)),
        c.result_kind == ReturnKind::Number,
{
    HostCall::args1(
        "function(element){ const handler = (e) => { const buffer = (new TextEncoder()).encode(e.target.value); const allocationId = writeBufferToMemory(buffer); wasmModule.instance.exports.handle_change_event_callback(objectId,allocationId); }; objects.push(handler); const objectId = objects.length - 1; element.addEventListener(\"change\",handler); return objectId; }",
        InvokeParam::ExternRef(element),
        ReturnKind::Number,
    )
}

/// The call that removes a change listener; the caller must remove the
/// guest handler under the same handle in the same step.
pub fn element_remove_change_listener(element: ExternRef, function_handle: ExternRef) -> (c: HostCall)
    ensures
        c.code@ == "function(element, f){ element.removeEventListener('change', f); }"@,
        c.params@ == spec_param_bytes(InvokeParam::ExternRef(element)) + spec_param_bytes(InvokeParam::ExternRef(function_handle)),
        c.result_kind == ReturnKind::Void,
{
    HostCall::args2(
        "function(element, f){ element.removeEventListener('change', f); }",
        InvokeParam::ExternRef(element),
        InvokeParam::ExternRef(function_handle),
        ReturnKind::Void,
    )
}

/// The call that installs a host-side click listener and returns the handle
/// for the guest handler.
pub fn element_add_click_listener(element: ExternRef) -> (c: HostCall)
    ensures
        c.code@ == "function(element){ const handler = (e) => { wasmModule.instance.exports.handle_mouse_event_callback(objectId,e.offsetX,e.offsetY); }; objects.push(handler); const objectId = objects.length - 1; element.addEventListener(\"click\",handler); return objectId; }"@,
        c.params@ == spec_param_bytes(InvokeParam::ExternRef(element)),
        c.result_kind == ReturnKind::Number,
{
    HostCall::args1(
        "function(element){ const handler = (e) => { wasmModule.instance.exports.handle_mouse_event_callback(objectId,e.offsetX,e.offsetY); }; objects.push(handler); const objectId = objects.length - 1; element.addEventListener(\"click\",handler); return objectId; }",
        InvokeParam::ExternRef(element),
        ReturnKind::Number,
    )
}

/// The call that removes a click listener; the guest handler under the same
/// handle leaves with it.
pub fn element_remove_click_listener(element: ExternRef, function_handle: ExternRef) -> (c: HostCall)
    ensures
        c.code@ == "function(element, f){ element.removeEventListener('click', f); }"@,
        c.params@ == spec_param_bytes(InvokeParam::ExternRef(element)) + spec_param_bytes(InvokeParam::ExternRef(function_handle)),
        c.result_kind == ReturnKind::Void,
{
    HostCall::args2(
        "function(element, f){ element.removeEventListener('click', f); }",
        InvokeParam::ExternRef(element),
        InvokeParam::ExternRef(function_handle),
        ReturnKind::Void,
    )
}

/// The call that installs a host-side mouse-move listener and returns the
/// handle for the guest handler.
pub fn element_add_mouse_move_listener(element: ExternRef) -> (c: HostCall)
    ensures
        c.code@ == "function(element){ const handler = (e) => { wasmModule.instance.exports.handle_mouse_event_callback(objectId,e.offsetX,e.offsetY); }; objects.push(handler); const objectId = objects.length - 1; element.addEventListener(\"mousemove\",handler); return objectId; }"@,
        c.params@ == spec_param_bytes(InvokeParam::ExternRef(element)),
        c.result_kind == ReturnKind::Number,
{
    HostCall::args1(
        "function(element){ const handler = (e) => { wasmModule.instance.exports.handle_mouse_event_callback(objectId,e.offsetX,e.offsetY); }; objects.push(handler); const objectId = objects.length - 1; element.addEventListener(\"mousemove\",handler); return objectId; }",
        InvokeParam::ExternRef(element),
        ReturnKind::Number,
    )
}

/// The call that removes a mouse-move listener; the guest handler under the
/// same handle leaves with it.
pub fn element_remove_mouse_move_listener(element: ExternRef, function_handle: ExternRef) -> (c: HostCall)
    ensures
        c.code@ == "function(element, f){ element.removeEventListener('mousemove', f); }"@,
        c.params@ == spec_param_bytes(InvokeParam::ExternRef(element)) + spec_param_bytes(InvokeParam::ExternRef(function_handle)),
        c.result_kind == ReturnKind::Void,
{
    HostCall::args2(
        "function(element, f){ element.removeEventListener('mousemove', f); }",
        InvokeParam::ExternRef(element),
        InvokeParam::ExternRef(function_handle),
        ReturnKind::Void,
    )
}

/// The call that installs a host-side mouse-down listener and returns the
/// handle for the guest handler.
pub fn element_add_mouse_down_listener(element: ExternRef) -> (c: HostCall)
    ensures
        c.code@ == "function(element){ const handler = (e) => { wasmModule.instance.exports.handle_mouse_event_callback(objectId,e.offsetX,e.offsetY); }; objects.push(handler); const objectId = objects.length - 1; element.addEventListener(\"mousedown\",handler); return objectId; }"@,
        c.params@ == spec_param_bytes(InvokeParam::ExternRef(element)),
        c.result_kind == ReturnKind::Number,
{
    HostCall::args1(
        "function(element){ const handler = (e) => { wasmModule.instance.exports.handle_mouse_event_callback(objectId,e.offsetX,e.offsetY); }; objects.push(handler); const objectId = objects.length - 1; element.addEventListener(\"mousedown\",handler); return objectId; }",
        InvokeParam::ExternRef(element),
        ReturnKind::Number,
    )
}

/// The call that removes a mouse-down listener; the guest handler under the
/// same handle leaves with it.
pub fn element_remove_mouse_down_listener(element: ExternRef, function_handle: ExternRef) -> (c: HostCall)
    ensures
        c.code@ == "function(element, f){ element.removeEventListener('mousedown', f); }"@,
        c.params@ == spec_param_bytes(InvokeParam::ExternRef(element)) + spec_param_bytes(InvokeParam::ExternRef(function_handle)),
        c.result_kind == ReturnKind::Void,
{
    HostCall::args2(
        "function(element, f){ element.removeEventListener('mousedown', f); }",
        InvokeParam::ExternRef(element),
        InvokeParam::ExternRef(function_handle),
        ReturnKind::Void,
    )
}

/// The call that installs a host-side mouse-up listener and returns the
/// handle for the guest handler.
pub fn element_add_mouse_up_listener(element: ExternRef) -> (c: HostCall)
    ensures
        c.code@ == "function(element){ const handler = (e) => { wasmModule.instance.exports.handle_mouse_event_callback(objectId,e.offsetX,e.offsetY); }; objects.push(handler); const objectId = objects.length - 1; element.addEventListener(\"mouseup\",handler); return objectId; }"@,
        c.params@ == spec_param_bytes(InvokeParam::ExternRef(element)),
        c.result_kind == ReturnKind::Number,
{
    HostCall::args1(
        "function(element){ const handler = (e) => { wasmModule.instance.exports.handle_mouse_event_callback(objectId,e.offsetX,e.offsetY); }; objects.push(handler); const objectId = objects.length - 1; element.addEventListener(\"mouseup\",handler); return objectId; }",
        InvokeParam::ExternRef(element),
        ReturnKind::Number,
    )
}

/// The call that removes a mouse-up listener; the guest handler under the
/// same handle leaves with it.
pub fn element_remove_mouse_up_listener(element: ExternRef, function_handle: ExternRef) -> (c: HostCall)
    ensures
        c.code@ == "function(element, f){ element.removeEventListener('mouseup', f); }"@,
        c.params@ == spec_param_bytes(InvokeParam::ExternRef(element)) + spec_param_bytes(InvokeParam::ExternRef(function_handle)),
        c.result_kind == ReturnKind::Void,
{
    HostCall::args2(
        "function(element, f){ element.removeEventListener('mouseup', f); }",
        InvokeParam::ExternRef(element),
        InvokeParam::ExternRef(function_handle),
        ReturnKind::Void,
    )
}

/// The call that installs a host-side key-down listener and returns the
/// handle for the guest handler.
pub fn element_add_key_down_listener(element: ExternRef) -> (c: HostCall)
    ensures
        c.code@ == "function(element){ const handler = (e) => { wasmModule.instance.exports.handle_keyboard_event_callback(objectId,e.keyCode); }; objects.push(handler); const objectId = objects.length - 1; element.addEventListener(\"keydown\",handler); return objectId; }"@,
        c.params@ == spec_param_bytes(InvokeParam::ExternRef(element)),
        c.result_kind == ReturnKind::Number,
{
    HostCall::args1(
        "function(element){ const handler = (e) => { wasmModule.instance.exports.handle_keyboard_event_callback(objectId,e.keyCode); }; objects.push(handler); const objectId = objects.length - 1; element.addEventListener(\"keydown\",handler); return objectId; }",
        InvokeParam::ExternRef(element),
        ReturnKind::Number,
    )
}

/// The call that removes a key-down listener; the guest handler under the
/// same handle leaves with it.
pub fn element_remove_key_down_listener(element: ExternRef, function_handle: ExternRef) -> (c: HostCall)
    ensures
        c.code@ == "function(element, f){ element.removeEventListener('keydown', f); }"@,
        c.params@ == spec_param_bytes(InvokeParam::ExternRef(element)) + spec_param_bytes(InvokeParam::ExternRef(function_handle)),
        c.result_kind == ReturnKind::Void,
{
    HostCall::args2(
        "function(element, f){ element.removeEventListener('keydown', f); }",
        InvokeParam::ExternRef(element),
        InvokeParam::ExternRef(function_handle),
        ReturnKind::Void,
    )
}

/// The call that installs a host-side key-up listener and returns the
/// handle for the guest handler.
pub fn element_add_key_up_listener(element: ExternRef) -> (c: HostCall)
    ensures
        c.code@ == "function(element){ const handler = (e) => { wasmModule.instance.exports.handle_keyboard_event_callback(objectId,e.keyCode); }; objects.push(handler); const objectId = objects.length - 1; element.addEventListener(\"keyup\",handler); return objectId; }"@,
        c.params@ == spec_param_bytes(InvokeParam::ExternRef(element)),
        c.result_kind == ReturnKind::Number,
{
    HostCall::args1(
        "function(element){ const handler = (e) => { wasmModule.instance.exports.handle_keyboard_event_callback(objectId,e.keyCode); }; objects.push(handler); const objectId = objects.length - 1; element.addEventListener(\"keyup\",handler); return objectId; }",
        InvokeParam::ExternRef(element),
        ReturnKind::Number,
    )
}

/// The call that removes a key-up listener; the guest handler under the
/// same handle leaves with it.
pub fn element_remove_key_up_listener(element: ExternRef, function_handle: ExternRef) -> (c: HostCall)
    ensures
        c.code@ == "function(element, f){ element.removeEventListener('keyup', f); }"@,
        c.params@ == spec_param_bytes(InvokeParam::ExternRef(element)) + spec_param_bytes(InvokeParam::ExternRef(function_handle)),
        c.result_kind == ReturnKind::Void,
{
    HostCall::args2(
        "function(element, f){ element.removeEventListener('keyup', f); }",
        InvokeParam::ExternRef(element),
        InvokeParam::ExternRef(function_handle),
        ReturnKind::Void,
    )
}

} // verus!

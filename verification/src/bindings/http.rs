//! Host HTTP calls: the request object's operations and the fetch sequence.
//!
//! A fetch is a fixed sequence of host calls against one request object —
//! open, send, one call per header, response type — followed by installing
//! a load listener whose callback completes an event-correlated future with
//! the response. [`fetch`] assembles that sequence exactly; the unverified
//! shell performs it and wires the listener.

use vstd::prelude::*;

use crate::host::{HostCall, ReturnKind};
use crate::params::{spec_param_bytes, ExternRef, InvokeParam, MemView};
use crate::registry::HandlerRegistry;
use crate::Fault;

verus! {

/// A host-owned HTTP request object, held by its opaque handle.
#[derive(Debug, Clone, Copy, PartialEq, Eq, Structural)]
pub struct XMLHttpRequest {
    pub handle: ExternRef,
}

impl XMLHttpRequest {
    /// The call that creates the host request object; its result is the
    /// handle the constructor takes.
    pub fn create_call() -> (c: HostCall)
        ensures
            c.code@ == "function() { return new XMLHttpRequest(); }"@,
            c.params@ == Seq::<u8>::empty(),
            c.result_kind == ReturnKind::Ref,
    {
        HostCall::args0("function() { return new XMLHttpRequest(); }", ReturnKind::Ref)
    }

    /// Wrap the handle the host returned for a freshly created request.
    pub fn new(handle: ExternRef) -> (r: XMLHttpRequest)
        ensures
            r.handle == handle,
    {
        XMLHttpRequest { handle }
    }

    /// The call that opens the request with a method and a URL.
    pub fn open(&self, method: MemView, url: MemView) -> (c: HostCall)
        ensures
            c.code@ == "function(request, method, url) { request.open(method, url); }"@,
            c.params@ == spec_param_bytes(InvokeParam::ExternRef(self.handle)) + spec_param_bytes(
                InvokeParam::String(method),
            ) + spec_param_bytes(InvokeParam::String(url)),
            c.result_kind == ReturnKind::Void,
    {
        HostCall::args3(
            "function(request, method, url) { request.open(method, url); }",
            InvokeParam::ExternRef(self.handle),
            InvokeParam::String(method),
            InvokeParam::String(url),
            ReturnKind::Void,
        )
    }

    /// The call that sends the request without a body.
    pub fn send(&self) -> (c: HostCall)
        ensures
            c.code@ == "function(request) { request.send(); }"@,
            c.params@ == spec_param_bytes(InvokeParam::ExternRef(self.handle)),
            c.result_kind == ReturnKind::Void,
    {
        HostCall::args1(
            "function(request) { request.send(); }",
            InvokeParam::ExternRef(self.handle),
            ReturnKind::Void,
        )
    }

    /// The call that sends the request with a body.
    pub fn send_with_body(&self, body: MemView) -> (c: HostCall)
        ensures
            c.code@ == "function(request, body) { request.send(body); }"@,
            c.params@ == spec_param_bytes(InvokeParam::ExternRef(self.handle)) + spec_param_bytes(
                InvokeParam::String(body),
            ),
            c.result_kind == ReturnKind::Void,
    {
        HostCall::args2(
            "function(request, body) { request.send(body); }",
            InvokeParam::ExternRef(self.handle),
            InvokeParam::String(body),
            ReturnKind::Void,
        )
    }

    /// The call that sets one request header.
    pub fn set_request_header(&self, key: MemView, value: MemView) -> (c: HostCall)
        ensures
            c.code@ == "function(request, k, v) { request.setRequestHeader(k, v); }"@,
            c.params@ == spec_param_bytes(InvokeParam::ExternRef(self.handle)) + spec_param_bytes(
                InvokeParam::String(key),
            ) + spec_param_bytes(InvokeParam::String(value)),
            c.result_kind == ReturnKind::Void,
    {
        HostCall::args3(
            "function(request, k, v) { request.setRequestHeader(k, v); }",
            InvokeParam::ExternRef(self.handle),
            InvokeParam::String(key),
            InvokeParam::String(value),
            ReturnKind::Void,
        )
    }

    /// The call that reads the response status.
    pub fn response_status(&self) -> (c: HostCall)
        ensures
            c.code@ == "function(request) { return request.status; }"@,
            c.params@ == spec_param_bytes(InvokeParam::ExternRef(self.handle)),
            c.result_kind == ReturnKind::Number,
    {
        HostCall::args1(
            "function(request) { return request.status; }",
            InvokeParam::ExternRef(self.handle),
            ReturnKind::Number,
        )
    }

    /// The call that reads the response text, delivered through the arena.
    pub fn response_text(&self) -> (c: HostCall)
        ensures
            c.code@ == "function(request) { return request.responseText; }"@,
            c.params@ == spec_param_bytes(InvokeParam::ExternRef(self.handle)),
            c.result_kind == ReturnKind::StringAlloc,
    {
        HostCall::args1(
            "function(request) { return request.responseText; }",
            InvokeParam::ExternRef(self.handle),
            ReturnKind::StringAlloc,
        )
    }

    /// The call that reads the binary response, delivered through the
    /// arena.
    pub fn response_array_buffer(&self) -> (c: HostCall)
        ensures
            c.code@ == "function(request) { return request.response; }"@,
            c.params@ == spec_param_bytes(InvokeParam::ExternRef(self.handle)),
            c.result_kind == ReturnKind::BufferAlloc,
    {
        HostCall::args1(
            "function(request) { return request.response; }",
            InvokeParam::ExternRef(self.handle),
            ReturnKind::BufferAlloc,
        )
    }

    /// The call that reads one response header, delivered through the
    /// arena.
    pub fn response_header(&self, key: MemView) -> (c: HostCall)
        ensures
            c.code@ == "function(request, key) { return request.getResponseHeader(key); }"@,
            c.params@ == spec_param_bytes(InvokeParam::ExternRef(self.handle)) + spec_param_bytes(
                InvokeParam::String(key),
            ),
            c.result_kind == ReturnKind::StringAlloc,
    {
        HostCall::args2(
            "function(request, key) { return request.getResponseHeader(key); }",
            InvokeParam::ExternRef(self.handle),
            InvokeParam::String(key),
            ReturnKind::StringAlloc,
        )
    }

    /// The call that installs the host-side load listener and returns the
    /// handle under which the guest must register its completion handler.
    pub fn set_on_load(&self) -> (c: HostCall)
        ensures
            c.code@
                == "function(request){ const handler = () => { wasmModule.instance.exports.handle_http_load_event_callback(objectId,0); }; objects.push(handler); const objectId = objects.length - 1; request.onload = handler; return objectId; }"@,
            c.params@ == spec_param_bytes(InvokeParam::ExternRef(self.handle)),
            c.result_kind == ReturnKind::Number,
    {
        HostCall::args1(
            "function(request){ const handler = () => { wasmModule.instance.exports.handle_http_load_event_callback(objectId,0); }; objects.push(handler); const objectId = objects.length - 1; request.onload = handler; return objectId; }",
            InvokeParam::ExternRef(self.handle),
            ReturnKind::Number,
        )
    }

    /// The call that sets the response type.
    pub fn set_response_type(&self, response_type: MemView) -> (c: HostCall)
        ensures
            c.code@ == "function(request, response_type) { request.responseType = response_type; }"@,
            c.params@ == spec_param_bytes(InvokeParam::ExternRef(self.handle)) + spec_param_bytes(
                InvokeParam::String(response_type),
            ),
            c.result_kind == ReturnKind::Void,
    {
        HostCall::args2(
            "function(request, response_type) { request.responseType = response_type; }",
            InvokeParam::ExternRef(self.handle),
            InvokeParam::String(response_type),
            ReturnKind::Void,
        )
    }
}

/// The load callback the host invokes when a request completes: remove the
/// completion handler registered under `callback_id` and hand it back to be
/// invoked — entry and handler leave the registry together. An unknown id
/// signals a protocol desync.
pub fn handle_http_load_event_callback<H>(
    handlers: &mut HandlerRegistry<H>,
    callback_id: u32,
) -> (r: Result<H, Fault>)
    ensures
        old(handlers)@.contains_key(callback_id) ==> (r matches Ok(h) && h
            == old(handlers)@[callback_id] && final(handlers)@ == old(handlers)@.remove(
            callback_id,
        )),
        !old(handlers)@.contains_key(callback_id) ==> (r == Err::<H, Fault>(
            Fault::MissingCorrelation,
        ) && final(handlers)@ == old(handlers)@),
{
    match handlers.remove(callback_id) {
        Some(handler) => Ok(handler),
        None => {
            proof {
                assert(handlers@ =~= old(handlers)@);
            }
            Err(Fault::MissingCorrelation)
        },
    }
}

/// An HTTP request method.
#[derive(Debug, Clone, Copy, PartialEq, Eq, Structural)]
pub enum HTTPMethod {
    GET,
    POST,
    PUT,
    DELETE,
    HEAD,
    OPTIONS,
    PATCH,
}

/// The name a method travels under on the wire.
pub open spec fn spec_method_name(m: HTTPMethod) -> Seq<char> {
    match m {
        HTTPMethod::GET => "GET"@,
        HTTPMethod::POST => "POST"@,
        HTTPMethod::PUT => "PUT"@,
        HTTPMethod::DELETE => "DELETE"@,
        HTTPMethod::HEAD => "HEAD"@,
        HTTPMethod::OPTIONS => "OPTIONS"@,
        HTTPMethod::PATCH => "PATCH"@,
    }
}

impl HTTPMethod {
    /// The method's wire name.
    pub fn to_string(&self) -> (r: String)
        ensures
            r@ == spec_method_name(*self),
    {
        match self {
            HTTPMethod::GET => "GET".to_owned(),
            HTTPMethod::POST => "POST".to_owned(),
            HTTPMethod::PUT => "PUT".to_owned(),
            HTTPMethod::DELETE => "DELETE".to_owned(),
            HTTPMethod::HEAD => "HEAD".to_owned(),
            HTTPMethod::OPTIONS => "OPTIONS".to_owned(),
            HTTPMethod::PATCH => "PATCH".to_owned(),
        }
    }
}

/// The shape a fetch's response is requested in.
#[derive(Debug, Clone, Copy, PartialEq, Eq, Structural)]
pub enum FetchResponseType {
    Text,
    ArrayBuffer,
}

/// The name a response type travels under on the wire.
pub open spec fn spec_response_type_name(t: FetchResponseType) -> Seq<char> {
    match t {
        FetchResponseType::Text => "text"@,
        FetchResponseType::ArrayBuffer => "arraybuffer"@,
    }
}

impl FetchResponseType {
    /// The response type's wire name.
    pub fn to_string(&self) -> (r: String)
        ensures
            r@ == spec_response_type_name(*self),
    {
        match self {
            FetchResponseType::Text => "text".to_owned(),
            FetchResponseType::ArrayBuffer => "arraybuffer".to_owned(),
        }
    }
}

/// What a fetch asks for: URL, method, optional body, optional headers, and
/// the requested response shape. Strings are zero-copy memory views.
pub struct FetchOptions {
    pub url: MemView,
    pub action: HTTPMethod,
    pub body: Option<MemView>,
    pub headers: Option<Vec<(MemView, MemView)>>,
    pub response_type: FetchResponseType,
}

impl Default for FetchOptions {
    /// An empty GET for the empty URL, expecting text.
    fn default() -> (r: Self)
        ensures
            r.url == (MemView { addr: 0, len: 0 }),
            r.action == HTTPMethod::GET,
            r.body is None,
            r.headers is None,
            r.response_type == FetchResponseType::Text,
    {
        FetchOptions {
            url: MemView { addr: 0, len: 0 },
            action: HTTPMethod::GET,
            body: None,
            headers: None,
            response_type: FetchResponseType::Text,
        }
    }
}

/// A completed fetch: the status code and the payload, in the shape the
/// request asked for.
#[derive(Debug, Clone, PartialEq, Eq)]
pub enum FetchResponse {
    Text(u32, String),
    ArrayBuffer(u32, Vec<u8>),
}

/// How many header calls a fetch makes.
pub open spec fn spec_header_count(headers: Option<Vec<(MemView, MemView)>>) -> nat {
    match headers {
        Some(hs) => hs@.len(),
        None => 0,
    }
}

/// Assemble the exact call sequence of one fetch against the request object
/// `request`: open with `method_name` and the URL, send (with the body if
/// one is given), one header call per header in order, and the response
/// type. `method_name` and `response_type_name` are the views of the wire
/// names that [`HTTPMethod::to_string`] and [`FetchResponseType::to_string`]
/// produce for the options' method and response type. Installing the load
/// listener is a separate call, [`XMLHttpRequest::set_on_load`].
pub fn fetch(
    request: ExternRef,
    options: &FetchOptions,
    method_name: MemView,
    response_type_name: MemView,
) -> (calls: Vec<HostCall>)
    ensures
        calls@.len() == 3 + spec_header_count(options.headers),
        calls@[0].code@ == "function(request, method, url) { request.open(method, url); }"@,
        calls@[0].params@ == spec_param_bytes(InvokeParam::ExternRef(request)) + spec_param_bytes(
            InvokeParam::String(method_name),
        ) + spec_param_bytes(InvokeParam::String(options.url)),
        calls@[0].result_kind == ReturnKind::Void,
        options.body matches Some(body) ==> (calls@[1].code@
            == "function(request, body) { request.send(body); }"@ && calls@[1].params@
            == spec_param_bytes(InvokeParam::ExternRef(request)) + spec_param_bytes(
            InvokeParam::String(body),
        )),
        options.body is None ==> (calls@[1].code@ == "function(request) { request.send(); }"@
            && calls@[1].params@ == spec_param_bytes(InvokeParam::ExternRef(request))),
        calls@[1].result_kind == ReturnKind::Void,
        options.headers matches Some(hs) ==> (forall|i: int|
            0 <= i < hs@.len() ==> {
                &&& (#[trigger] calls@[2 + i]).code@
                    == "function(request, k, v) { request.setRequestHeader(k, v); }"@
                &&& calls@[2 + i].params@ == spec_param_bytes(InvokeParam::ExternRef(request))
                    + spec_param_bytes(InvokeParam::String(hs@[i].0)) + spec_param_bytes(
                    InvokeParam::String(hs@[i].1),
                )
                &&& calls@[2 + i].result_kind == ReturnKind::Void
            }),
        ({
            let last = calls@[calls@.len() - 1];
            &&& last.code@
                == "function(request, response_type) { request.responseType = response_type; }"@
            &&& last.params@ == spec_param_bytes(InvokeParam::ExternRef(request))
                + spec_param_bytes(InvokeParam::String(response_type_name))
            &&& last.result_kind == ReturnKind::Void
        }),
{
    let xhr = XMLHttpRequest::new(request);
    let mut calls: Vec<HostCall> = Vec::new();
    calls.push(xhr.open(method_name, options.url));
    match options.body {
        Some(body) => calls.push(xhr.send_with_body(body)),
        None => calls.push(xhr.send()),
    }
    match &options.headers {
        Some(hs) => {
            let mut i: usize = 0;
            while i < hs.len()
                invariant
                    i <= hs@.len(),
                    calls@.len() == 2 + i,
                    calls@[0].code@
                        == "function(request, method, url) { request.open(method, url); }"@,
                    calls@[0].params@ == spec_param_bytes(InvokeParam::ExternRef(request))
                        + spec_param_bytes(InvokeParam::String(method_name)) + spec_param_bytes(
                        InvokeParam::String(options.url),
                    ),
                    calls@[0].result_kind == ReturnKind::Void,
                    options.body matches Some(body) ==> (calls@[1].code@
                        == "function(request, body) { request.send(body); }"@ && calls@[1].params@
                        == spec_param_bytes(InvokeParam::ExternRef(request)) + spec_param_bytes(
                        InvokeParam::String(body),
                    )),
                    options.body is None ==> (calls@[1].code@
                        == "function(request) { request.send(); }"@ && calls@[1].params@
                        == spec_param_bytes(InvokeParam::ExternRef(request))),
                    calls@[1].result_kind == ReturnKind::Void,
                    xhr.handle == request,
                    forall|j: int|
                        0 <= j < i ==> {
                            &&& (#[trigger] calls@[2 + j]).code@
                                == "function(request, k, v) { request.setRequestHeader(k, v); }"@
                            &&& calls@[2 + j].params@ == spec_param_bytes(
                                InvokeParam::ExternRef(request),
                            ) + spec_param_bytes(InvokeParam::String(hs@[j].0)) + spec_param_bytes(
                                InvokeParam::String(hs@[j].1),
                            )
                            &&& calls@[2 + j].result_kind == ReturnKind::Void
                        },
                decreases hs@.len() - i,
            {
                let header = hs[i];
                calls.push(xhr.set_request_header(header.0, header.1));
                i += 1;
            }
        },
        None => {},
    }
    calls.push(xhr.set_response_type(response_type_name));
    calls
}

} // verus!

use guestlink::arena::Arena;
use guestlink::bindings::console::console_log;
use guestlink::bindings::dom::{element_remove_change_listener, prompt};
use guestlink::bindings::history::{history_go, location_url};
use guestlink::bindings::http::{
    fetch, handle_http_load_event_callback, FetchOptions, FetchResponseType, HTTPMethod,
    XMLHttpRequest,
};
use guestlink::bindings::local_storage::{local_storage_get, local_storage_get_decode};
use guestlink::bindings::utils::get_property_bool_decode;
use guestlink::host::ReturnKind;
use guestlink::params::{ExternRef, MemView};
use guestlink::registry::HandlerRegistry;
use guestlink::Fault;

fn mem_view(addr: u32, len: u64) -> MemView {
    MemView { addr, len }
}

fn string_param_bytes(v: MemView) -> Vec<u8> {
    [
        vec![4],
        v.addr.to_le_bytes().to_vec(),
        v.len.to_le_bytes().to_vec(),
    ]
    .concat()
}

fn ref_param_bytes(r: ExternRef) -> Vec<u8> {
    [vec![5], r.value.to_le_bytes().to_vec()].concat()
}

#[test]
fn test_console_log_call() {
    let message = mem_view(0x100, 5);
    let call = console_log(message);
    assert_eq!(call.code, "function(message){ console.log(message); }");
    assert_eq!(call.params, string_param_bytes(message));
    assert_eq!(call.result_kind, ReturnKind::Void);
}

#[test]
fn test_history_go_call() {
    let call = history_go(-2);
    assert_eq!(call.code, "function(delta) { window.history.go(delta); }");
    assert_eq!(
        call.params,
        [vec![12], (-2i32).to_le_bytes().to_vec()].concat()
    );
    assert_eq!(call.result_kind, ReturnKind::Void);
}

#[test]
fn test_location_url_call() {
    let call = location_url();
    assert_eq!(call.code, "function() { return window.location.href; }");
    assert_eq!(call.params, Vec::<u8>::new());
    assert_eq!(call.result_kind, ReturnKind::StringAlloc);
}

#[test]
fn test_remove_listener_call() {
    let element = ExternRef { value: 3 };
    let handle = ExternRef { value: 8 };
    let call = element_remove_change_listener(element, handle);
    assert_eq!(
        call.code,
        "function(element, f){ element.removeEventListener('change', f); }"
    );
    assert_eq!(
        call.params,
        [ref_param_bytes(element), ref_param_bytes(handle)].concat()
    );
}

#[test]
fn test_prompt_returns_allocation_id() {
    let call = prompt(mem_view(1, 2), mem_view(3, 4));
    assert_eq!(call.result_kind, ReturnKind::Number);
    // the reply travels through the arena: simulate the host writing it
    let mut arena = Arena::new();
    let id = arena.create_allocation(0);
    arena.write(id, b"reply".to_vec()).unwrap();
    assert_eq!(arena.read_string(id).unwrap(), "reply");
}

#[test]
fn test_local_storage_get_decode_absent_and_present() {
    let mut arena = Arena::new();
    assert_eq!(local_storage_get(mem_view(0, 0)).result_kind, ReturnKind::Number);
    // the sentinel 0 means the key was absent, so the host never hands out
    // allocation id 0 on this path; occupy it before decoding
    arena.create_allocation(0);
    assert_eq!(local_storage_get_decode(&arena, 0), Ok(None));
    // anything else is the allocation holding the value
    let id = arena.create_allocation(0);
    arena.write(id, b"stored".to_vec()).unwrap();
    assert_eq!(
        local_storage_get_decode(&arena, id as i32),
        Ok(Some("stored".to_owned()))
    );
    // a cleared allocation is a fault
    arena.clear(id).unwrap();
    assert_eq!(
        local_storage_get_decode(&arena, id as i32),
        Err(Fault::UseAfterFree)
    );
}

#[test]
fn test_get_property_bool_decode() {
    assert_eq!(get_property_bool_decode(1), true);
    assert_eq!(get_property_bool_decode(0), false);
    assert_eq!(get_property_bool_decode(2), false);
}

#[test]
fn test_method_and_response_type_names() {
    assert_eq!(HTTPMethod::POST.to_string(), "POST");
    assert_eq!(HTTPMethod::GET.to_string(), "GET");
    assert_eq!(FetchResponseType::Text.to_string(), "text");
    assert_eq!(FetchResponseType::ArrayBuffer.to_string(), "arraybuffer");
}

#[test]
fn test_fetch_call_sequence() {
    let request = ExternRef { value: 12 };
    let url = mem_view(0x10, 9);
    let body = mem_view(0x20, 4);
    let key1 = mem_view(0x30, 1);
    let val1 = mem_view(0x40, 1);
    let key2 = mem_view(0x50, 1);
    let val2 = mem_view(0x60, 1);
    let options = FetchOptions {
        url,
        action: HTTPMethod::POST,
        body: Some(body),
        headers: Some(vec![(key1, val1), (key2, val2)]),
        response_type: FetchResponseType::Text,
    };
    let method_name = mem_view(0x70, 4);
    let response_type_name = mem_view(0x80, 4);
    let calls = fetch(request, &options, method_name, response_type_name);

    assert_eq!(calls.len(), 5);
    assert_eq!(
        calls[0].code,
        "function(request, method, url) { request.open(method, url); }"
    );
    assert_eq!(
        calls[0].params,
        [
            ref_param_bytes(request),
            string_param_bytes(method_name),
            string_param_bytes(url)
        ]
        .concat()
    );
    assert_eq!(
        calls[1].code,
        "function(request, body) { request.send(body); }"
    );
    assert_eq!(
        calls[1].params,
        [ref_param_bytes(request), string_param_bytes(body)].concat()
    );
    for (i, (k, v)) in [(key1, val1), (key2, val2)].iter().enumerate() {
        assert_eq!(
            calls[2 + i].code,
            "function(request, k, v) { request.setRequestHeader(k, v); }"
        );
        assert_eq!(
            calls[2 + i].params,
            [
                ref_param_bytes(request),
                string_param_bytes(*k),
                string_param_bytes(*v)
            ]
            .concat()
        );
    }
    assert_eq!(
        calls[4].code,
        "function(request, response_type) { request.responseType = response_type; }"
    );
    assert_eq!(
        calls[4].params,
        [
            ref_param_bytes(request),
            string_param_bytes(response_type_name)
        ]
        .concat()
    );
}

#[test]
fn test_fetch_without_body_sends_plain() {
    let request = ExternRef { value: 1 };
    let options = FetchOptions {
        url: mem_view(0x10, 3),
        ..Default::default()
    };
    let calls = fetch(request, &options, mem_view(0x70, 3), mem_view(0x80, 4));
    assert_eq!(calls.len(), 3);
    assert_eq!(calls[1].code, "function(request) { request.send(); }");
    assert_eq!(calls[1].params, ref_param_bytes(request));
}

#[test]
fn test_xhr_result_kinds() {
    let xhr = XMLHttpRequest::new(ExternRef { value: 2 });
    assert_eq!(xhr.response_status().result_kind, ReturnKind::Number);
    assert_eq!(xhr.response_text().result_kind, ReturnKind::StringAlloc);
    assert_eq!(
        xhr.response_array_buffer().result_kind,
        ReturnKind::BufferAlloc
    );
    assert_eq!(XMLHttpRequest::create_call().result_kind, ReturnKind::Ref);
    assert_eq!(xhr.set_on_load().result_kind, ReturnKind::Number);
}

#[test]
fn test_http_load_callback_takes_handler_with_entry() {
    let mut handlers: HandlerRegistry<&str> = HandlerRegistry::new();
    handlers.insert(5, "on-load");
    assert_eq!(handle_http_load_event_callback(&mut handlers, 5), Ok("on-load"));
    assert_eq!(handlers.len(), 0);
    assert_eq!(
        handle_http_load_event_callback(&mut handlers, 5),
        Err(Fault::MissingCorrelation)
    );
}

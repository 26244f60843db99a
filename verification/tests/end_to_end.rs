//! End-to-end flows with the test standing in for the host: it registers
//! code snippets, decodes the encoded argument lists the guest hands over,
//! and fires the one-shot callbacks that complete futures.

use std::cell::{Cell, RefCell};
use std::rc::Rc;

use guestlink::bindings::utils::{handle_empty_callback, sleep};
use guestlink::host::{HostCall, ReturnKind};
use guestlink::params::InvokeParam;
use guestlink::runtime::{run, EventHandlerFuture, Runtime, SharedStateMap};

/// A minimal host: registered snippets plus an interpreter for the one
/// function shape the tests use.
struct FakeHost {
    registered: Vec<String>,
}

impl FakeHost {
    fn new() -> FakeHost {
        FakeHost { registered: Vec::new() }
    }

    fn register(&mut self, code: &str) -> u32 {
        self.registered.push(code.to_owned());
        (self.registered.len() - 1) as u32
    }

    /// Decode a float argument at `offset` in an encoded argument list.
    fn read_float(params: &[u8], offset: usize) -> (f64, usize) {
        assert_eq!(params[offset], 2, "expected a Float64 tag");
        let mut bytes = [0u8; 8];
        bytes.copy_from_slice(&params[offset + 1..offset + 9]);
        (f64::from_bits(u64::from_le_bytes(bytes)), offset + 9)
    }

    fn invoke_number(&self, id: u32, call: &HostCall) -> i32 {
        let code = &self.registered[id as usize];
        assert!(code.contains("return a + b"), "unknown snippet");
        let (a, next) = FakeHost::read_float(&call.params, 0);
        let (b, end) = FakeHost::read_float(&call.params, next);
        assert_eq!(end, call.params.len());
        (a + b) as i32
    }
}

#[test]
fn test_add_two_numbers_through_host() {
    let mut host = FakeHost::new();

    // guest side: assemble the call with both arguments as IEEE-754 bits
    let call = HostCall::args2(
        "function(a, b){ return a + b; }",
        InvokeParam::Float64(2.0f64.to_bits()),
        InvokeParam::Float64(3.0f64.to_bits()),
        ReturnKind::Number,
    );

    // host side: register the snippet, then invoke it on the encoded args
    let id = host.register(call.code);
    let result = host.invoke_number(id, &call);
    assert_eq!(result, 5);
}

#[test]
fn test_zero_delay_timer_resolves_future() {
    // the guest's state: one future registry and the executor queue
    let map: Rc<RefCell<SharedStateMap<(), u32>>> = Rc::new(RefCell::new(SharedStateMap::new()));
    let resolved = Rc::new(Cell::new(false));

    // create the future and ask the host for a zero-delay timer that will
    // fire the one-shot wake callback with the correlation id
    let state_id: u32 = 1;
    let (future, correlation_id) =
        EventHandlerFuture::create_future_with_state_id(&mut map.borrow_mut(), state_id);
    let timer_call = sleep(0.0f64.to_bits(), (state_id as f64).to_bits());
    assert_eq!(timer_call.result_kind, ReturnKind::Void);

    // polling a task asks the future's registry; pending tasks stay queued
    let map_clone = map.clone();
    let resolved_clone = resolved.clone();
    let poll = move |task: EventHandlerFuture| {
        match task.poll(&mut map_clone.borrow_mut(), task.state_id) {
            Ok(Some(())) => {
                resolved_clone.set(true);
                None
            }
            Ok(None) => Some(task),
            Err(_) => None,
        }
    };

    // spawn: the first poll happens before run returns and finds the
    // timer not yet fired
    let mut rt: Runtime<EventHandlerFuture> = Runtime::new();
    run(&mut rt, future, &poll);
    assert_eq!(resolved.get(), false);
    assert_eq!(rt.task_count(), 1);

    // the host fires the one-shot callback: the wake hands back the waker
    // stored by the poll, which schedules the next tick
    let waker = handle_empty_callback(&mut map.borrow_mut(), correlation_id)
        .unwrap()
        .unwrap();
    assert_eq!(waker, state_id);

    // the next tick resolves the future to its unit value
    rt.poll_tasks(&poll);
    assert_eq!(resolved.get(), true);
    assert_eq!(rt.task_count(), 0);
    assert_eq!(map.borrow().len(), 0);
}

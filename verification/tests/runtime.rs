use std::cell::{Cell, RefCell};
use std::rc::Rc;

use guestlink::runtime::{run, EventHandlerFuture, Runtime, SharedStateMap};
use guestlink::Fault;

#[test]
fn runtime_test_run() {
    let has_run = Rc::new(Cell::new(false));
    let has_run_clone = has_run.clone();
    let poll = move |_task: u32| {
        has_run_clone.set(true);
        None
    };
    let mut rt: Runtime<u32> = Runtime::new();
    run(&mut rt, 0, &poll);
    assert_eq!(has_run.get(), true);
}

#[test]
fn test_future() {
    let mut map: SharedStateMap<bool, u32> = SharedStateMap::new();
    let (future, state_id) = EventHandlerFuture::create_future_with_state_id(&mut map, 11);
    assert_eq!(map.has_result(state_id), false);

    EventHandlerFuture::wake_future_with_state_id(&mut map, state_id, true).unwrap();
    assert_eq!(map.has_result(state_id), true);

    let result = future.poll(&mut map, 0).unwrap();
    assert_eq!(result, Some(true));
}

#[test]
fn test_buffered_completion() {
    // waking before the first poll buffers the value; the first poll gets it
    let mut map: SharedStateMap<u32, u32> = SharedStateMap::new();
    map.create_future(5);
    assert_eq!(map.wake_future(5, 42), Ok(None));
    assert_eq!(map.poll_future(5, 0), Ok(Some(42)));
    // the consumed entry is gone
    assert_eq!(map.len(), 0);
    assert_eq!(map.poll_future(5, 0), Err(Fault::MissingCorrelation));
}

#[test]
fn test_poll_then_wake_returns_waker() {
    let mut map: SharedStateMap<u32, &str> = SharedStateMap::new();
    map.create_future(9);
    // first poll: pending, stores the waker
    assert_eq!(map.poll_future(9, "waker-a"), Ok(None));
    // a later poll replaces it
    assert_eq!(map.poll_future(9, "waker-b"), Ok(None));
    // the wake hands the stored waker back to be invoked
    assert_eq!(map.wake_future(9, 1), Ok(Some("waker-b")));
    // and the buffered result is observed by the next poll
    assert_eq!(map.poll_future(9, "unused"), Ok(Some(1)));
}

#[test]
fn test_wake_unknown_id_is_missing_correlation() {
    let mut map: SharedStateMap<u32, u32> = SharedStateMap::new();
    assert_eq!(map.wake_future(3, 1), Err(Fault::MissingCorrelation));
    map.create_future(3);
    map.wake_future(3, 1).unwrap();
    // a second wake finds the id no longer registered
    assert_eq!(map.wake_future(3, 2), Err(Fault::MissingCorrelation));
    // the first result is still the one buffered
    assert_eq!(map.poll_future(3, 0), Ok(Some(1)));
}

#[test]
fn test_reregistering_an_id_resets_its_state() {
    // correlation ids are not guaranteed collision-free: registering an id
    // again replaces whatever state was there
    let mut map: SharedStateMap<u32, u32> = SharedStateMap::new();
    map.create_future(2);
    map.wake_future(2, 5).unwrap();
    assert!(map.has_result(2));
    map.create_future(2);
    assert!(!map.has_result(2));
    map.wake_future(2, 6).unwrap();
    assert_eq!(map.poll_future(2, 0), Ok(Some(6)));
    assert_eq!(map.len(), 0);
}

#[test]
fn test_tick_serves_fifo_and_requeues_pending() {
    let served: Rc<RefCell<Vec<u32>>> = Rc::new(RefCell::new(Vec::new()));
    let served_clone = served.clone();
    // odd tasks complete, even tasks stay pending
    let poll = move |task: u32| {
        served_clone.borrow_mut().push(task);
        if task % 2 == 0 {
            Some(task)
        } else {
            None
        }
    };
    let mut rt: Runtime<u32> = Runtime::new();
    rt.enqueue(1);
    rt.enqueue(2);
    rt.enqueue(3);
    let n = rt.poll_tasks(&poll);
    assert_eq!(n, 3);
    // FIFO order, each task served exactly once in this tick
    assert_eq!(*served.borrow(), vec![1, 2, 3]);
    // only the pending task was re-queued
    assert_eq!(rt.task_count(), 1);
    let n = rt.poll_tasks(&poll);
    assert_eq!(n, 1);
    assert_eq!(*served.borrow(), vec![1, 2, 3, 2]);
}

#[test]
fn test_run_drains_earlier_tasks_too() {
    let served: Rc<RefCell<Vec<u32>>> = Rc::new(RefCell::new(Vec::new()));
    let served_clone = served.clone();
    let poll = move |task: u32| {
        served_clone.borrow_mut().push(task);
        None
    };
    let mut rt: Runtime<u32> = Runtime::new();
    rt.enqueue(7);
    let n = run(&mut rt, 8, &poll);
    assert_eq!(n, 2);
    assert_eq!(*served.borrow(), vec![7, 8]);
    assert_eq!(rt.task_count(), 0);
}

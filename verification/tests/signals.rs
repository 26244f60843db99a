use std::sync::{Arc, Mutex};

use guestlink::signals::Signal;

fn make_logger(logs: Arc<Mutex<Vec<i32>>>) -> impl Fn(i32) {
    move |v: i32| {
        logs.lock().unwrap().push(v);
    }
}

#[test]
fn test_signals() {
    // create signal
    let logs: Arc<Mutex<Vec<i32>>> = Default::default();
    let mut signal = Signal::new(10);

    // create effects
    signal.on(make_logger(logs.clone()));
    signal.on(make_logger(logs.clone()));

    // update signal
    signal.set(20);
    signal.set(30);

    // check logs
    let received = logs.lock().unwrap().clone();
    assert_eq!(received, vec![10, 10, 20, 20, 30, 30]);
}

#[test]
fn test_signal_get_set() {
    let logs: Arc<Mutex<Vec<i32>>> = Default::default();
    let mut signal = Signal::new(5);
    assert_eq!(signal.get(), 5);
    signal.on(make_logger(logs.clone()));
    signal.set(6);
    assert_eq!(signal.get(), 6);
    assert_eq!(logs.lock().unwrap().clone(), vec![5, 6]);
}

use std::cell::RefCell;
use std::rc::Rc;

use guestlink::bindings::window::handle_one_time_empty_callback;
use guestlink::registry::HandlerRegistry;
use guestlink::Fault;

#[test]
fn dom_test_run() {
    let has_run = Rc::new(RefCell::new(false));
    let has_run_clone = has_run.clone();

    // add listener
    let handler: Box<dyn FnMut(())> = Box::new(move |_| {
        *has_run_clone.borrow_mut() = true;
    });
    let mut registry: HandlerRegistry<Box<dyn FnMut(())>> = HandlerRegistry::new();
    registry.insert(0, handler);

    // call listener
    let mut handler = registry.remove(0).unwrap();
    handler(());
    registry.insert(0, handler);
    assert_eq!(*has_run.borrow(), true);

    // remove listener
    registry.remove(0);
    let count = registry.len();
    assert_eq!(count, 0);
}

#[test]
fn test_register_then_remove_leaves_nothing() {
    let mut registry: HandlerRegistry<u32> = HandlerRegistry::new();
    registry.insert(1, 10);
    assert_eq!(registry.len(), 1);
    registry.insert(2, 20);
    assert_eq!(registry.remove(2), Some(20));
    assert!(!registry.contains(2));
    assert_eq!(registry.len(), 1);
}

#[test]
fn test_insert_replaces() {
    let mut registry: HandlerRegistry<&str> = HandlerRegistry::new();
    registry.insert(4, "first");
    registry.insert(4, "second");
    assert_eq!(registry.len(), 1);
    assert_eq!(registry.remove(4), Some("second"));
}

#[test]
fn test_one_time_callback_removes_handler() {
    let mut registry: HandlerRegistry<u32> = HandlerRegistry::new();
    registry.insert(6, 66);
    assert_eq!(handle_one_time_empty_callback(&mut registry, 6), Ok(66));
    assert_eq!(registry.len(), 0);
    assert_eq!(
        handle_one_time_empty_callback(&mut registry, 6),
        Err(Fault::MissingCorrelation)
    );
}

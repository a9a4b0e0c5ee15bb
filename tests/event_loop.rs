use miofib::event_loop::{Loop, Route, QUEUE_TOKEN, SLAB_CAPACITY};
use miofib::fiber::{ExecContext, TransferSlot, NO_ID, TAG_DONE, TAG_YIELD};

#[test]
fn new_loop_is_empty() {
    let l = Loop::new(4);
    assert_eq!(l.id(), 4);
    assert_eq!(l.len(), 0);
    assert!(!l.contains(0));
}

#[test]
fn queue_token_drains_mailbox_only_when_readable() {
    let l = Loop::new(0);
    assert_eq!(l.route(QUEUE_TOKEN, true), Route::Queue);
    assert_eq!(l.route(QUEUE_TOKEN, false), Route::Ignore);
}

#[test]
fn token_of_absent_fiber_is_ignored() {
    let l = Loop::new(1);
    assert_eq!(l.route(0, true), Route::Ignore);
    assert_eq!(l.route(17, false), Route::Ignore);
}

#[test]
fn design_constants() {
    assert_eq!(SLAB_CAPACITY, 1024);
    assert_eq!(QUEUE_TOKEN, usize::MAX - 1);
    assert_eq!(TAG_YIELD, 0);
    assert_eq!(TAG_DONE, 1);
}

#[test]
fn transfer_slot_starts_empty() {
    let s = TransferSlot::new();
    assert!(s.is_empty());
}

#[test]
fn exec_context_outside_fiber_is_none() {
    let mut e = ExecContext::new();
    assert_eq!(e.current(), None);
    e.enter(2, 11);
    assert_eq!(e.current(), Some((2, 11)));
    e.leave();
    assert_eq!(e.current(), None);
}

#[test]
fn exec_context_resumed_by_token_is_same_fiber() {
    let mut e = ExecContext::new();
    e.enter(3, 42);
    let before = e.current();
    e.leave();
    assert_eq!(e.current(), None);
    e.enter(3, 42);
    assert_eq!(e.current(), before);
}

#[test]
fn exec_context_half_set_is_outside() {
    let mut e = ExecContext::new();
    e.enter(NO_ID, 5);
    assert_eq!(e.current(), None);
    e.enter(1, NO_ID);
    assert_eq!(e.current(), None);
}

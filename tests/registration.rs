use miofib::registration::{Interest, PollerOp, Registrar, Registration};

#[test]
fn first_wait_registers_under_fiber_id() {
    let mut r = Registrar::new();
    let ops = r.notify_on(2, 7, Interest::readable());
    assert_eq!(
        ops,
        vec![PollerOp::Register { loop_id: 2, token: 7, interest: Interest::readable() }]
    );
    assert_eq!(
        r.record,
        Some(Registration { loop_id: 2, fiber_id: 7, interest: Interest::readable() })
    );
}

#[test]
fn same_wait_twice_asks_nothing() {
    let mut r = Registrar::new();
    let first = r.notify_on(0, 3, Interest::writable());
    assert_eq!(first.len(), 1);
    let second = r.notify_on(0, 3, Interest::writable());
    assert!(second.is_empty());
    assert_eq!(
        r.record,
        Some(Registration { loop_id: 0, fiber_id: 3, interest: Interest::writable() })
    );
}

#[test]
fn other_fiber_same_loop_reregisters() {
    let mut r = Registrar::new();
    r.notify_on(1, 4, Interest::readable());
    let ops = r.notify_on(1, 5, Interest::readable());
    assert_eq!(
        ops,
        vec![PollerOp::Reregister { loop_id: 1, token: 5, interest: Interest::readable() }]
    );
}

#[test]
fn other_interest_same_fiber_reregisters() {
    let mut r = Registrar::new();
    r.notify_on(1, 4, Interest::readable());
    let ops = r.notify_on(1, 4, Interest::writable());
    assert_eq!(
        ops,
        vec![PollerOp::Reregister { loop_id: 1, token: 4, interest: Interest::writable() }]
    );
    assert_eq!(
        r.record,
        Some(Registration { loop_id: 1, fiber_id: 4, interest: Interest::writable() })
    );
}

#[test]
fn handle_moved_to_other_loop_deregisters_once_then_registers() {
    let mut r = Registrar::new();
    r.notify_on(0, 9, Interest::readable());
    let ops = r.notify_on(3, 2, Interest::readable());
    assert_eq!(
        ops,
        vec![
            PollerOp::Deregister { loop_id: 0 },
            PollerOp::Register { loop_id: 3, token: 2, interest: Interest::readable() },
        ]
    );
    let deregisters = ops
        .iter()
        .filter(|op| matches!(op, PollerOp::Deregister { .. }))
        .count();
    assert_eq!(deregisters, 1);
    assert!(r.notify_on(3, 2, Interest::readable()).is_empty());
}

#[test]
fn moved_handle_ends_like_a_fresh_one() {
    let mut moved = Registrar::new();
    moved.notify_on(0, 1, Interest::writable());
    let moved_ops = moved.notify_on(5, 6, Interest::readable());
    let mut fresh = Registrar::new();
    let fresh_ops = fresh.notify_on(5, 6, Interest::readable());
    assert_eq!(moved.record, fresh.record);
    assert_eq!(moved_ops[0], PollerOp::Deregister { loop_id: 0 });
    assert_eq!(moved_ops[1..].to_vec(), fresh_ops);
    let next_moved = moved.notify_on(5, 8, Interest::readable());
    let next_fresh = fresh.notify_on(5, 8, Interest::readable());
    assert_eq!(next_moved, next_fresh);
}

#[test]
fn interest_constructors() {
    assert_eq!(Interest::readable(), Interest { readable: true, writable: false });
    assert_eq!(Interest::writable(), Interest { readable: false, writable: true });
}

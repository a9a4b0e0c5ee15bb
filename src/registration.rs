//! Registration of an I/O handle with the readiness pollers of the loops.
//!
//! A handle is registered under the id of the fiber that last waited on it,
//! with the poller of that fiber's loop. The record kept beside the handle
//! says where that registration lives; `Registrar::notify_on` reconciles it
//! with the fiber that is running now and returns the poller operations that
//! make the pollers agree with the new record.
use vstd::prelude::*;

verus! {

/// A set of readiness kinds over {readable, writable}.
#[derive(Clone, Copy, Debug, PartialEq, Eq, Structural)]
pub struct Interest {
    pub readable: bool,
    pub writable: bool,
}

impl Interest {
    pub fn readable() -> (r: Interest)
        ensures
            r.readable && !r.writable,
    {
        Interest { readable: true, writable: false }
    }

    pub fn writable() -> (r: Interest)
        ensures
            !r.readable && r.writable,
    {
        Interest { readable: false, writable: true }
    }
}

/// Where a handle is registered: the loop whose poller holds it, the token
/// (the fiber id) it is registered under, and the interests.
#[derive(Clone, Copy, Debug, PartialEq, Eq, Structural)]
pub struct Registration {
    pub loop_id: usize,
    pub fiber_id: usize,
    pub interest: Interest,
}

/// One call on a loop's poller, on behalf of the handle.
#[derive(Clone, Copy, Debug, PartialEq, Eq, Structural)]
pub enum PollerOp {
    Register { loop_id: usize, token: usize, interest: Interest },
    Reregister { loop_id: usize, token: usize, interest: Interest },
    Deregister { loop_id: usize },
}

/// The registration record of one handle: `None` until the handle is first
/// waited on from a fiber.
pub struct Registrar {
    pub record: Option<Registration>,
}

/// The record and the poller operations that `notify_on` yields.
pub open spec fn plan(
    record: Option<Registration>,
    cur_loop: usize,
    cur_fiber: usize,
    interest: Interest,
) -> (Option<Registration>, Seq<PollerOp>) {
    let target = Registration { loop_id: cur_loop, fiber_id: cur_fiber, interest };
    match record {
        None => (
            Some(target),
            seq![PollerOp::Register { loop_id: cur_loop, token: cur_fiber, interest }],
        ),
        Some(r) => if r.loop_id == cur_loop {
            if r.fiber_id == cur_fiber && r.interest == interest {
                (record, Seq::empty())
            } else {
                (
                    Some(target),
                    seq![PollerOp::Reregister { loop_id: cur_loop, token: cur_fiber, interest }],
                )
            }
        } else {
            (
                Some(target),
                seq![
                    PollerOp::Deregister { loop_id: r.loop_id },
                    PollerOp::Register { loop_id: cur_loop, token: cur_fiber, interest },
                ],
            )
        },
    }
}

/// What the pollers hold for one handle: for each loop id whose poller has a
/// live registration of it, the token and the interests.
pub type PollerState = Map<usize, (usize, Interest)>;

/// The pollers after one operation; `None` where the poller would refuse it
/// (registering twice, or touching a registration that is not there).
pub open spec fn apply_op(m: PollerState, op: PollerOp) -> Option<PollerState> {
    match op {
        PollerOp::Register { loop_id, token, interest } => if m.contains_key(loop_id) {
            None
        } else {
            Some(m.insert(loop_id, (token, interest)))
        },
        PollerOp::Reregister { loop_id, token, interest } => if m.contains_key(loop_id) {
            Some(m.insert(loop_id, (token, interest)))
        } else {
            None
        },
        PollerOp::Deregister { loop_id } => if m.contains_key(loop_id) {
            Some(m.remove(loop_id))
        } else {
            None
        },
    }
}

/// The pollers after a sequence of operations, applied in order.
pub open spec fn apply_ops(m: PollerState, ops: Seq<PollerOp>) -> Option<PollerState>
    decreases ops.len(),
{
    if ops.len() == 0 {
        Some(m)
    } else {
        match apply_op(m, ops[0]) {
            Some(m1) => apply_ops(m1, ops.drop_first()),
            None => None,
        }
    }
}

/// The pollers hold exactly what the record names: nothing when it is `None`,
/// else one registration, on the named loop, under the named token.
pub open spec fn agrees(record: Option<Registration>, m: PollerState) -> bool {
    match record {
        None => m == Map::<usize, (usize, Interest)>::empty(),
        Some(r) => m == Map::<usize, (usize, Interest)>::empty().insert(
            r.loop_id,
            (r.fiber_id, r.interest),
        ),
    }
}

/// A call keeps the pollers in step with the record: when they agreed before,
/// the operations it returns all succeed, and afterwards exactly one poller,
/// the one the new record names, holds the handle, under the new record's
/// token and interests.
pub proof fn lemma_single_registration(
    record: Option<Registration>,
    m: PollerState,
    cur_loop: usize,
    cur_fiber: usize,
    interest: Interest,
)
    requires
        agrees(record, m),
    ensures
        ({
            let (next, ops) = plan(record, cur_loop, cur_fiber, interest);
            &&& next is Some
            &&& apply_ops(m, ops) is Some
            &&& agrees(next, apply_ops(m, ops)->0)
            &&& apply_ops(m, ops)->0.dom() == set![cur_loop]
        }),
{
    reveal_with_fuel(apply_ops, 3);
    let (next, ops) = plan(record, cur_loop, cur_fiber, interest);
    let e = Map::<usize, (usize, Interest)>::empty();
    match record {
        None => {
            assert(ops.drop_first() =~= Seq::<PollerOp>::empty());
            assert(apply_ops(m, ops) == Some(m.insert(cur_loop, (cur_fiber, interest))));
            assert(e.insert(cur_loop, (cur_fiber, interest)).dom() =~= set![cur_loop]);
        },
        Some(r) => {
            if r.loop_id == cur_loop {
                if r.fiber_id == cur_fiber && r.interest == interest {
                    assert(m.dom() =~= set![cur_loop]);
                } else {
                    assert(ops.drop_first() =~= Seq::<PollerOp>::empty());
                    assert(m.insert(cur_loop, (cur_fiber, interest)) =~= e.insert(
                        cur_loop,
                        (cur_fiber, interest),
                    ));
                    assert(e.insert(cur_loop, (cur_fiber, interest)).dom() =~= set![cur_loop]);
                }
            } else {
                let m1 = m.remove(r.loop_id);
                assert(m1 =~= e);
                let rest = ops.drop_first();
                assert(rest[0] == PollerOp::Register { loop_id: cur_loop, token: cur_fiber, interest });
                assert(rest.drop_first() =~= Seq::<PollerOp>::empty());
                assert(apply_ops(m1, rest) == Some(m1.insert(cur_loop, (cur_fiber, interest))));
                assert(e.insert(cur_loop, (cur_fiber, interest)).dom() =~= set![cur_loop]);
            }
        },
    }
}

/// Asking twice for the same loop, fiber and interests: the second call keeps
/// the record and asks nothing of any poller.
pub proof fn lemma_notify_idempotent(
    record: Option<Registration>,
    cur_loop: usize,
    cur_fiber: usize,
    interest: Interest,
)
    ensures
        ({
            let first = plan(record, cur_loop, cur_fiber, interest);
            let second = plan(first.0, cur_loop, cur_fiber, interest);
            &&& second.0 == first.0
            &&& second.1 == Seq::<PollerOp>::empty()
        }),
{
}

/// Moving a handle that is registered on one loop to a fiber of another loop
/// leaves the same record as a handle used there from the start, and costs
/// exactly one deregistration from the old loop ahead of the same register.
pub proof fn lemma_migration(
    r: Registration,
    cur_loop: usize,
    cur_fiber: usize,
    interest: Interest,
)
    requires
        r.loop_id != cur_loop,
    ensures
        ({
            let moved = plan(Some(r), cur_loop, cur_fiber, interest);
            let fresh = plan(None, cur_loop, cur_fiber, interest);
            &&& moved.0 == fresh.0
            &&& moved.1 == seq![PollerOp::Deregister { loop_id: r.loop_id }].add(fresh.1)
        }),
{
    let moved = plan(Some(r), cur_loop, cur_fiber, interest);
    let fresh = plan(None, cur_loop, cur_fiber, interest);
    assert(moved.1 =~= seq![PollerOp::Deregister { loop_id: r.loop_id }].add(fresh.1));
}

/// The token that a handle is registered under is the id of the fiber that
/// waited on it last.
pub proof fn lemma_token_is_fiber(
    record: Option<Registration>,
    cur_loop: usize,
    cur_fiber: usize,
    interest: Interest,
)
    ensures
        ({
            let (next, ops) = plan(record, cur_loop, cur_fiber, interest);
            &&& next == Some(Registration { loop_id: cur_loop, fiber_id: cur_fiber, interest })
            &&& forall|i: int|
                0 <= i < ops.len() ==> match #[trigger] ops[i] {
                    PollerOp::Register { loop_id, token, .. } => loop_id == cur_loop && token
                        == cur_fiber,
                    PollerOp::Reregister { loop_id, token, .. } => loop_id == cur_loop && token
                        == cur_fiber,
                    PollerOp::Deregister { .. } => true,
                }
        }),
{
}

impl Registrar {
    pub fn new() -> (r: Registrar)
        ensures
            r.record is None,
    {
        Registrar { record: None }
    }

    /// Make the handle wake fiber `cur_fiber` of loop `cur_loop` on `interest`:
    /// update the record and return the poller operations to perform, in order.
    pub fn notify_on(&mut self, cur_loop: usize, cur_fiber: usize, interest: Interest) -> (ops:
        Vec<PollerOp>)
        ensures
            (final(self).record, ops@) == plan(old(self).record, cur_loop, cur_fiber, interest),
    {
        let target = Registration { loop_id: cur_loop, fiber_id: cur_fiber, interest };
        let mut ops: Vec<PollerOp> = Vec::new();
        match self.record {
            None => {
                ops.push(PollerOp::Register { loop_id: cur_loop, token: cur_fiber, interest });
                self.record = Some(target);
            },
            Some(r) => {
                if r.loop_id == cur_loop {
                    if r.fiber_id != cur_fiber || r.interest != interest {
                        ops.push(
                            PollerOp::Reregister { loop_id: cur_loop, token: cur_fiber, interest },
                        );
                        self.record = Some(target);
                    }
                } else {
                    ops.push(PollerOp::Deregister { loop_id: r.loop_id });
                    ops.push(PollerOp::Register { loop_id: cur_loop, token: cur_fiber, interest });
                    self.record = Some(target);
                }
            },
        }
        proof {
            assert(ops@ =~= plan(old(self).record, cur_loop, cur_fiber, interest).1);
        }
        ops
    }
}

} // verus!

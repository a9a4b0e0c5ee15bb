//! A fiber's saved execution context and its life cycle, and the slot that
//! holds the other side's context while a fiber runs.
use context::stack::ProtectedFixedSizeStack;
use context::{Context, Transfer};
use vstd::prelude::*;

verus! {

#[verifier::external_type_specification]
#[verifier::external_body]
pub struct ExContext(Context);

#[verifier::external_type_specification]
#[verifier::external_body]
pub struct ExTransfer(Transfer);

#[verifier::external_type_specification]
#[verifier::external_body]
pub struct ExProtectedFixedSizeStack(ProtectedFixedSizeStack);

/// The tag a fiber passes back when it suspends.
pub const TAG_YIELD: usize = 0;

/// The tag a fiber passes back once its body has returned.
pub const TAG_DONE: usize = 1;

/// A stackful task: its stack, its saved context while it is suspended, and
/// whether its body has returned.
pub struct Fiber {
    saved: Option<Context>,
    stack: ProtectedFixedSizeStack,
    finished: bool,
}

impl Fiber {
    /// Whether the body has returned.
    pub closed spec fn done(&self) -> bool {
        self.finished
    }

    /// The context the fiber is suspended at, if it is suspended.
    pub closed spec fn saved_context(&self) -> Option<Context> {
        self.saved
    }

    /// Whether the fiber is suspended, its context saved.
    pub closed spec fn suspended(&self) -> bool {
        self.saved is Some
    }

    /// A fiber whose body has not run yet, suspended at `saved` on `stack`.
    pub fn new(saved: Context, stack: ProtectedFixedSizeStack) -> (r: Fiber)
        ensures
            !r.done(),
            r.suspended(),
    {
        Fiber { saved: Some(saved), stack, finished: false }
    }

    pub fn is_finished(&self) -> (r: bool)
        ensures
            r == self.done(),
    {
        self.finished
    }

    pub fn is_suspended(&self) -> (r: bool)
        ensures
            r == self.suspended(),
    {
        self.saved.is_some()
    }

    /// Take the saved context out, to switch to it.
    pub fn begin_resume(&mut self) -> (r: Context)
        requires
            old(self).suspended(),
        ensures
            old(self).saved_context() == Some(r),
            !final(self).suspended(),
            final(self).done() == old(self).done(),
    {
        self.saved.take().unwrap()
    }

    /// Store the context the fiber suspended at and the tag it passed back.
    /// Tag one marks the body as returned, for good.
    pub fn end_resume(&mut self, saved: Context, tag: usize)
        ensures
            final(self).saved_context() == Some(saved),
            final(self).suspended(),
            final(self).done() == (old(self).done() || tag == TAG_DONE),
    {
        self.saved = Some(saved);
        if tag == TAG_DONE {
            self.finished = true;
        }
    }
}

/// While a fiber runs, the transfer that switched to it: it holds the context
/// to switch back to. Saved right after every switch, taken right before the
/// next one.
pub struct TransferSlot {
    cur: Option<Transfer>,
}

impl TransferSlot {
    pub closed spec fn held(&self) -> Option<Transfer> {
        self.cur
    }

    pub fn new() -> (r: TransferSlot)
        ensures
            r.held() is None,
    {
        TransferSlot { cur: None }
    }

    pub fn is_empty(&self) -> (r: bool)
        ensures
            r == (self.held() is None),
    {
        self.cur.is_none()
    }

    pub fn save(&mut self, t: Transfer)
        requires
            old(self).held() is None,
        ensures
            final(self).held() == Some(t),
    {
        self.cur = Some(t);
    }

    pub fn pop(&mut self) -> (r: Transfer)
        requires
            old(self).held() is Some,
        ensures
            old(self).held() == Some(r),
            final(self).held() is None,
    {
        self.cur.take().unwrap()
    }
}

/// The id that stands for "no loop" and "no fiber".
pub const NO_ID: usize = usize::MAX;

/// Which loop and which fiber the thread is running now. Set around every
/// resume of a fiber; both ids are `NO_ID` outside a fiber.
pub struct ExecContext {
    loop_id: usize,
    fiber_id: usize,
}

impl ExecContext {
    pub closed spec fn ids(&self) -> (usize, usize) {
        (self.loop_id, self.fiber_id)
    }

    /// The running loop and fiber, or `None` outside a fiber.
    pub open spec fn running(&self) -> Option<(usize, usize)> {
        if self.ids().0 == NO_ID || self.ids().1 == NO_ID {
            None
        } else {
            Some(self.ids())
        }
    }

    pub fn new() -> (r: ExecContext)
        ensures
            r.ids() == (NO_ID, NO_ID),
            r.running() is None,
    {
        ExecContext { loop_id: NO_ID, fiber_id: NO_ID }
    }

    /// Mark fiber `fiber_id` of loop `loop_id` as running.
    pub fn enter(&mut self, loop_id: usize, fiber_id: usize)
        ensures
            final(self).ids() == (loop_id, fiber_id),
    {
        self.loop_id = loop_id;
        self.fiber_id = fiber_id;
    }

    /// Mark the thread as running no fiber.
    pub fn leave(&mut self)
        ensures
            final(self).ids() == (NO_ID, NO_ID),
            final(self).running() is None,
    {
        self.loop_id = NO_ID;
        self.fiber_id = NO_ID;
    }

    /// The running loop and fiber, or `None` outside a fiber.
    pub fn current(&self) -> (r: Option<(usize, usize)>)
        ensures
            r == self.running(),
    {
        if self.loop_id == NO_ID || self.fiber_id == NO_ID {
            None
        } else {
            Some((self.loop_id, self.fiber_id))
        }
    }
}

} // verus!

//! The table of live fibers of one event loop, and how the loop reads a
//! poller event.
use crate::fiber::{ExecContext, Fiber};
use crate::registration::{plan, Interest, Registration};
use slab::Slab;
use vstd::prelude::*;

verus! {

#[verifier::external_type_specification]
#[verifier::external_body]
#[verifier::reject_recursive_types(T)]
pub struct ExSlab<T>(Slab<T>);

/// The poller token of a loop's mailbox; fiber ids are the other tokens.
pub const QUEUE_TOKEN: usize = usize::MAX - 1;

/// How many fibers one loop holds at most.
pub const SLAB_CAPACITY: usize = 1024;

/// Fiber id to whether that fiber's body has returned.
pub type FiberMap = Map<usize, bool>;

/// What a slab of fibers holds: for each key in use, whether that fiber's
/// body has returned.
pub uninterp spec fn fiber_slab(s: Slab<Fiber>) -> FiberMap;

/// Relies on `Slab::with_capacity`: a new slab holds nothing.
#[verifier::external_body]
fn slab_with_capacity(capacity: usize) -> (r: Slab<Fiber>)
    ensures
        fiber_slab(r) == FiberMap::empty(),
{
    Slab::with_capacity(capacity)
}

/// Relies on `Slab::len`: the number of values stored.
#[verifier::external_body]
fn slab_len(s: &Slab<Fiber>) -> (r: usize)
    ensures
        r == fiber_slab(*s).len(),
{
    s.len()
}

/// Relies on `Slab::contains`: whether a value is stored at `key`.
#[verifier::external_body]
fn slab_contains(s: &Slab<Fiber>, key: usize) -> (r: bool)
    ensures
        r == fiber_slab(*s).contains_key(key),
{
    s.contains(key)
}

/// Relies on `Slab::insert`: stores the value at a key that was free, and
/// returns that key.
#[verifier::external_body]
fn slab_insert(s: &mut Slab<Fiber>, f: Fiber) -> (r: usize)
    requires
        fiber_slab(*old(s)).len() < SLAB_CAPACITY,
    ensures
        !fiber_slab(*old(s)).contains_key(r),
        fiber_slab(*final(s)) == fiber_slab(*old(s)).insert(r, f.done()),
{
    s.insert(f)
}

/// Relies on `Slab::get_mut`: the value stored at `key`, to change in place.
#[verifier::external_body]
fn slab_get_mut(s: &mut Slab<Fiber>, key: usize) -> (r: &mut Fiber)
    requires
        fiber_slab(*old(s)).contains_key(key),
    ensures
        r.done() == fiber_slab(*old(s))[key],
        fiber_slab(*final(s)) == fiber_slab(*old(s)).insert(key, final(r).done()),
{
    s.get_mut(key).unwrap()
}

/// Relies on `Slab::remove`: takes the value out of `key`, which is then free.
#[verifier::external_body]
fn slab_remove(s: &mut Slab<Fiber>, key: usize) -> (r: Fiber)
    requires
        fiber_slab(*old(s)).contains_key(key),
    ensures
        r.done() == fiber_slab(*old(s))[key],
        fiber_slab(*final(s)) == fiber_slab(*old(s)).remove(key),
{
    s.remove(key)
}

/// What the loop does with one poller event.
#[derive(Clone, Copy, Debug, PartialEq, Eq, Structural)]
pub enum Route {
    /// Drain the mailbox.
    Queue,
    /// Resume the fiber with this id.
    Resume(usize),
    /// Nothing: the fiber is gone, or the event is not one the loop acts on.
    Ignore,
}

/// The route of an event with `token` when the fibers with ids `ids` live.
pub open spec fn route_of(ids: Set<usize>, token: usize, readable: bool) -> Route {
    if token == QUEUE_TOKEN && readable {
        Route::Queue
    } else if ids.contains(token) {
        Route::Resume(token)
    } else {
        Route::Ignore
    }
}

/// One event loop's fibers. Ids are the slab's keys, and a fiber's id is the
/// poller token of every handle that waits on its behalf.
pub struct Loop {
    id: usize,
    fibers: Slab<Fiber>,
}

impl Loop {
    /// The live fibers: id to whether the body has returned.
    pub closed spec fn fibers(&self) -> FiberMap {
        fiber_slab(self.fibers)
    }

    pub closed spec fn loop_id(&self) -> usize {
        self.id
    }

    pub fn new(id: usize) -> (r: Loop)
        ensures
            r.loop_id() == id,
            r.fibers() == FiberMap::empty(),
    {
        Loop { id, fibers: slab_with_capacity(SLAB_CAPACITY) }
    }

    pub fn id(&self) -> (r: usize)
        ensures
            r == self.loop_id(),
    {
        self.id
    }

    pub fn len(&self) -> (r: usize)
        ensures
            r == self.fibers().len(),
    {
        slab_len(&self.fibers)
    }

    pub fn contains(&self, id: usize) -> (r: bool)
        ensures
            r == self.fibers().contains_key(id),
    {
        slab_contains(&self.fibers, id)
    }

    /// What to do with an event for `token`, readable or not.
    pub fn route(&self, token: usize, readable: bool) -> (r: Route)
        ensures
            r == route_of(self.fibers().dom(), token, readable),
    {
        if token == QUEUE_TOKEN && readable {
            Route::Queue
        } else if slab_contains(&self.fibers, token) {
            Route::Resume(token)
        } else {
            Route::Ignore
        }
    }

    /// Take a new fiber in and give it an id; hand it back when the loop is
    /// full.
    pub fn insert(&mut self, f: Fiber) -> (r: Result<usize, Fiber>)
        ensures
            final(self).loop_id() == old(self).loop_id(),
            r is Ok <==> old(self).fibers().len() < SLAB_CAPACITY,
            match r {
                Ok(id) => {
                    &&& !old(self).fibers().contains_key(id)
                    &&& final(self).fibers() == old(self).fibers().insert(id, f.done())
                },
                Err(g) => g == f && final(self).fibers() == old(self).fibers(),
            },
    {
        if slab_len(&self.fibers) < SLAB_CAPACITY {
            Ok(slab_insert(&mut self.fibers, f))
        } else {
            Err(f)
        }
    }

    /// The fiber with id `id`, to resume it.
    pub fn fiber_mut(&mut self, id: usize) -> (r: &mut Fiber)
        requires
            old(self).fibers().contains_key(id),
        ensures
            r.done() == old(self).fibers()[id],
            final(self).loop_id() == old(self).loop_id(),
            final(self).fibers() == old(self).fibers().insert(id, final(r).done()),
    {
        slab_get_mut(&mut self.fibers, id)
    }

    /// After fiber `id` was resumed: remove it if its body has returned.
    /// Returns whether it was removed.
    pub fn settle(&mut self, id: usize) -> (r: bool)
        requires
            old(self).fibers().contains_key(id),
        ensures
            r == old(self).fibers()[id],
            final(self).loop_id() == old(self).loop_id(),
            final(self).fibers() == if r {
                old(self).fibers().remove(id)
            } else {
                old(self).fibers()
            },
    {
        let done = slab_get_mut(&mut self.fibers, id).is_finished();
        if done {
            let _ = slab_remove(&mut self.fibers, id);
        }
        proof {
            assert(fiber_slab(self.fibers) =~= if done {
                old(self).fibers().remove(id)
            } else {
                old(self).fibers()
            });
        }
        done
    }
}

/// An event whose token names a fiber that has been removed does nothing.
pub proof fn lemma_removed_fiber_ignored(fibers: FiberMap, id: usize, readable: bool)
    requires
        id != QUEUE_TOKEN,
    ensures
        route_of(fibers.remove(id).dom(), id, readable) == Route::Ignore,
{
}

/// A fiber is seen to have finished once: `settle` removes it on that first
/// sight, so no later event resumes it, and only a later `insert` can hand its
/// id out again.
pub proof fn lemma_finished_seen_once(fibers: FiberMap, id: usize, readable: bool, k: usize, b: bool)
    requires
        fibers.contains_key(id),
        fibers[id],
        id != QUEUE_TOKEN,
    ensures
        !fibers.remove(id).contains_key(id),
        route_of(fibers.remove(id).dom(), id, readable) != Route::Resume(id),
        fibers.remove(id).insert(k, b).contains_key(id) ==> k == id,
{
}

/// A handle that a live fiber of a loop waited on is registered under that
/// fiber's id, and an event for that token resumes that very fiber.
pub proof fn lemma_token_reaches_fiber(
    fibers: FiberMap,
    record: Option<Registration>,
    cur_loop: usize,
    cur_fiber: usize,
    interest: Interest,
    readable: bool,
)
    requires
        fibers.contains_key(cur_fiber),
        cur_fiber != QUEUE_TOKEN,
    ensures
        ({
            let next = plan(record, cur_loop, cur_fiber, interest).0;
            &&& next is Some
            &&& next->0.loop_id == cur_loop
            &&& route_of(fibers.dom(), next->0.fiber_id, readable) == Route::Resume(cur_fiber)
        }),
{
}

/// A fiber that yields comes back as itself: the loop resumes a fiber only
/// for an event whose token is its id, and enters that id before the switch,
/// so the running fiber after the yield is the one that was running before.
pub proof fn lemma_yield_keeps_fiber(
    fibers: FiberMap,
    before: ExecContext,
    after: ExecContext,
    loop_id: usize,
    fiber_id: usize,
    token: usize,
    readable: bool,
)
    requires
        before.ids() == (loop_id, fiber_id),
        before.running() is Some,
        fibers.contains_key(fiber_id),
        route_of(fibers.dom(), token, readable) == Route::Resume(fiber_id),
        after.ids() == (loop_id, token),
    ensures
        after.running() == before.running(),
{
}

} // verus!

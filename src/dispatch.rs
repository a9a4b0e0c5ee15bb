//! Round-robin choice of the event loop that receives a new fiber.
use std::sync::atomic::{AtomicUsize, Ordering};
use vstd::prelude::*;

verus! {

/// Number of event loops in a runtime.
pub const POOL_SIZE: usize = 8;

/// Hands out spawn tickets to any number of threads; ticket `t` goes to loop
/// `t % n_loops`.
pub struct Dispatcher {
    ticket: AtomicUsize,
    n_loops: usize,
}

/// The loop that ticket `ticket` goes to.
pub open spec fn loop_of(ticket: int, n_loops: int) -> int {
    ticket % n_loops
}

/// How many of the `len` tickets from `start` on go to loop `l`.
pub open spec fn placed(start: int, len: nat, n_loops: int, l: int) -> nat
    decreases len,
{
    if len == 0 {
        0
    } else {
        placed(start, (len - 1) as nat, n_loops, l) + if loop_of(start + len - 1, n_loops) == l {
            1nat
        } else {
            0nat
        }
    }
}

/// The loop for ticket `ticket` out of `n_loops` loops.
pub fn pick_loop(ticket: usize, n_loops: usize) -> (r: usize)
    requires
        n_loops > 0,
    ensures
        r as int == loop_of(ticket as int, n_loops as int),
        r < n_loops,
{
    ticket % n_loops
}

impl Dispatcher {
    pub fn new(n_loops: usize) -> (r: Dispatcher)
        requires
            n_loops > 0,
        ensures
            r.n_loops() == n_loops,
            r.wf(),
    {
        Dispatcher { ticket: AtomicUsize::new(0), n_loops }
    }

    pub closed spec fn n_loops(&self) -> usize {
        self.n_loops
    }

    pub fn loops(&self) -> (r: usize)
        ensures
            r == self.n_loops(),
    {
        self.n_loops
    }

    /// Whether the dispatcher can hand out tickets.
    pub closed spec fn wf(&self) -> bool {
        self.n_loops > 0
    }
}

/// Take the next ticket and return the loop that the new fiber goes to. Other
/// threads take tickets at the same time, so which ticket comes back is open;
/// the loop is the one that ticket names.
pub fn spawn(d: &Dispatcher) -> (r: usize)
    requires
        d.wf(),
    ensures
        r < d.n_loops(),
{
    let t = d.ticket.fetch_add(1, Ordering::Relaxed);
    pick_loop(t, d.n_loops)
}

proof fn lemma_placed_append(start: int, a: nat, b: nat, n: int, l: int)
    ensures
        placed(start, a + b, n, l) == placed(start, a, n, l) + placed(start + a, b, n, l),
    decreases b,
{
    if b > 0 {
        lemma_placed_append(start, a, (b - 1) as nat, n, l);
    }
}

proof fn lemma_placed_shift(start: int, len: nat, n: int, l: int)
    requires
        n > 0,
    ensures
        placed(start + n, len, n, l) == placed(start, len, n, l),
    decreases len,
{
    if len > 0 {
        lemma_placed_shift(start, (len - 1) as nat, n, l);
        vstd::arithmetic::div_mod::lemma_mod_add_multiples_vanish(start + len - 1, n);
        assert(start + n + len - 1 == n + (start + len - 1));
    }
}

proof fn lemma_placed_prefix(m: nat, n: int, l: int)
    requires
        0 < n,
        m <= n,
    ensures
        placed(0, m, n, l) == if 0 <= l < m { 1nat } else { 0nat },
    decreases m,
{
    if m > 0 {
        lemma_placed_prefix((m - 1) as nat, n, l);
        vstd::arithmetic::div_mod::lemma_small_mod((m - 1) as nat, n as nat);
    }
}

/// One window of `n` consecutive tickets from `start` places exactly one on
/// each loop.
proof fn lemma_window(start: int, n: int, l: int)
    requires
        0 < n,
        0 <= l < n,
    ensures
        placed(start, n as nat, n, l) == 1,
{
    let s = start % n;
    let q = start / n;
    vstd::arithmetic::div_mod::lemma_fundamental_div_mod(start, n);
    vstd::arithmetic::div_mod::lemma_mod_bound(start, n);
    // placed(start, n) == placed(s, n) by shifting by whole multiples of n
    lemma_shift_multiple(s, q, n, l);
    assert(s + q * n == start) by (nonlinear_arith)
        requires
            start == n * q + s,
    ;
    // split the window from s at n
    let a = (n - s) as nat;
    lemma_placed_append(s, a, s as nat, n, l);
    assert(a + s as nat == n as nat);
    lemma_placed_shift(0, s as nat, n, l);
    assert(0 + n == s + a);
    lemma_placed_prefix(s as nat, n, l);
    lemma_placed_tail(s, n, l);
}

proof fn lemma_shift_multiple(s: int, q: int, n: int, l: int)
    requires
        0 < n,
    ensures
        placed(s + q * n, n as nat, n, l) == placed(s, n as nat, n, l),
    decreases (if q >= 0 { q } else { -q }),
{
    if q > 0 {
        lemma_shift_multiple(s, q - 1, n, l);
        lemma_placed_shift(s + (q - 1) * n, n as nat, n, l);
        assert(s + (q - 1) * n + n == s + q * n) by (nonlinear_arith);
    } else if q < 0 {
        lemma_shift_multiple(s, q + 1, n, l);
        lemma_placed_shift(s + q * n, n as nat, n, l);
        assert(s + q * n + n == s + (q + 1) * n) by (nonlinear_arith);
    } else {
        assert(q * n == 0) by (nonlinear_arith)
            requires
                q == 0,
        ;
    }
}

/// The tickets `s .. n` go to loops `s .. n`.
proof fn lemma_placed_tail(s: int, n: int, l: int)
    requires
        0 <= s < n,
    ensures
        placed(s, (n - s) as nat, n, l) == if s <= l < n { 1nat } else { 0nat },
    decreases n - s,
{
    if s + 1 < n {
        lemma_placed_append(s, 1, (n - s - 1) as nat, n, l);
        lemma_placed_tail(s + 1, n, l);
    }
    vstd::arithmetic::div_mod::lemma_small_mod(s as nat, n as nat);
    assert(placed(s, 1, n, l) == if s == l { 1nat } else { 0nat }) by {
        reveal_with_fuel(placed, 2);
    }
}

/// Tickets handed out one after another, `k` times the number of loops of
/// them, place exactly `k` fibers on each loop, wherever the count started.
pub proof fn lemma_round_robin(start: int, k: nat, n: int, l: int)
    requires
        0 < n,
        0 <= l < n,
    ensures
        placed(start, k * n as nat, n, l) == k,
    decreases k,
{
    if k > 0 {
        lemma_round_robin(start, (k - 1) as nat, n, l);
        assert(k * n as nat == (k - 1) as nat * n as nat + n as nat) by (nonlinear_arith)
            requires
                k > 0,
        ;
        lemma_placed_append(start, (k - 1) as nat * n as nat, n as nat, n, l);
        lemma_window(start + (k - 1) as nat * n as nat, n, l);
    } else {
        assert(k * n as nat == 0) by (nonlinear_arith)
            requires
                k == 0,
        ;
    }
}

} // verus!

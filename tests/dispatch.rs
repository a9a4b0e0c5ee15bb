use miofib::dispatch::{pick_loop, Dispatcher, POOL_SIZE};
use miofib::spawn;

#[test]
fn pick_loop_is_ticket_modulo_pool() {
    assert_eq!(pick_loop(0, 8), 0);
    assert_eq!(pick_loop(7, 8), 7);
    assert_eq!(pick_loop(8, 8), 0);
    assert_eq!(pick_loop(21, 8), 5);
    assert_eq!(pick_loop(usize::MAX, 8), 7);
    assert_eq!(pick_loop(10, 1), 0);
}

#[test]
fn round_robin_places_k_on_each_loop() {
    let d = Dispatcher::new(POOL_SIZE);
    assert_eq!(d.loops(), 8);
    let k = 5;
    let mut counts = vec![0usize; POOL_SIZE];
    for _ in 0..k * POOL_SIZE {
        let i = spawn(&d);
        assert!(i < POOL_SIZE);
        counts[i] += 1;
    }
    assert_eq!(counts, vec![k; POOL_SIZE]);
}

#[test]
fn consecutive_spawns_visit_loops_in_order() {
    let d = Dispatcher::new(3);
    let picks: Vec<usize> = (0..7).map(|_| spawn(&d)).collect();
    assert_eq!(picks, vec![0, 1, 2, 0, 1, 2, 0]);
}

#[test]
fn window_from_any_start_covers_every_loop_once() {
    let n = 8;
    for start in [0usize, 3, 13, 1000] {
        let mut seen: Vec<usize> = (start..start + n).map(|t| pick_loop(t, n)).collect();
        seen.sort();
        assert_eq!(seen, (0..n).collect::<Vec<usize>>());
    }
}

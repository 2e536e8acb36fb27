use lb_simple::counters::{
    stats_line, yield_stats_snapshot, Counter, YieldCounters, YieldStatsSnapshot, COUNTERS,
};
use lb_simple::text::{push_decimal, push_signed};
use lb_simple::vip::{
    alloc_vip_dsq_id, strong_handoff_enabled, vip_dsq_id, vip_dsq_valid, VIP_DSQ_LAST,
};
use lb_simple::words::SpinparkLock;

const ALL: [Counter; COUNTERS] = [
    Counter::LockAcquire,
    Counter::ContentionYield,
    Counter::RequeueYield,
    Counter::HandoffYield,
    Counter::FallbackYield,
    Counter::HandoffTaken,
    Counter::HandoffMiss,
];

#[test]
fn every_counter_has_its_own_cell() {
    let mut counters = YieldCounters::new();
    for (i, counter) in ALL.iter().enumerate() {
        assert_eq!(counter.index(), i);
        for _ in 0..=i {
            counters.bump(*counter);
        }
    }
    assert_eq!(
        yield_stats_snapshot(&counters),
        YieldStatsSnapshot {
            lock_acquire: 1,
            contention_yield: 2,
            requeue_yield: 3,
            handoff_yield: 4,
            fallback_yield: 5,
            handoff_taken: 6,
            handoff_miss: 7,
        }
    );
}

#[test]
fn counters_wrap_around() {
    let mut counters = YieldCounters {
        cells: [u64::MAX; COUNTERS],
    };
    counters.bump(Counter::HandoffYield);
    let stats = yield_stats_snapshot(&counters);
    assert_eq!((stats.handoff_yield, stats.handoff_miss), (0, u64::MAX));
}

#[test]
fn all_counters_are_printed() {
    let stats = YieldStatsSnapshot {
        lock_acquire: 1000,
        contention_yield: 0,
        requeue_yield: 9,
        handoff_yield: 10,
        fallback_yield: 11,
        handoff_taken: 99,
        handoff_miss: u64::MAX,
    };
    assert_eq!(
        stats_line(&stats),
        "yield stats: lock_acquire=1000 contention_yield=0 requeue_yield=9 handoff_yield=10 \
         fallback_yield=11 handoff_taken=99 handoff_miss=18446744073709551615"
    );
}

#[test]
fn numbers_are_written_in_decimal() {
    for n in [0, 1, 9, 10, 11, 99, 100, 1234567890, u64::MAX] {
        let mut text = String::from("n=");
        push_decimal(&mut text, n);
        assert_eq!(text, format!("n={}", n));
    }
    for n in [0, -1, 7, -70, i32::MAX, i32::MIN] {
        let mut text = String::new();
        push_signed(&mut text, n);
        assert_eq!(text, format!("{}", n));
    }
}

#[test]
fn the_first_4096_locks_get_a_queue() {
    let mut next = 0;
    for i in 1..=4096 {
        assert_eq!(alloc_vip_dsq_id(&mut next), i);
    }
    assert_eq!(alloc_vip_dsq_id(&mut next), 0);
    assert_eq!(alloc_vip_dsq_id(&mut next), 0);
    assert_eq!(next, 4096);
    next = u32::MAX;
    assert_eq!(alloc_vip_dsq_id(&mut next), 0);
    assert_eq!(next, u32::MAX);
    assert_eq!(alloc_vip_dsq_id(&mut next), 0);
    assert_eq!((vip_dsq_id(0), vip_dsq_id(4095), vip_dsq_id(4096)), (1, 4096, 0));
}

#[test]
fn no_queue_is_given_twice() {
    let mut next = 0;
    let mut given = vec![false; 4097];
    let mut left = true;
    for _ in 0..10_000 {
        let id = alloc_vip_dsq_id(&mut next) as usize;
        assert!(id <= 4096);
        assert!(left || id == 0);
        left = id != 0;
        if left {
            assert!(!given[id]);
            given[id] = true;
        }
    }
    assert!(given[1..].iter().all(|id| *id));
}

#[test]
fn queues_of_locks_are_told_from_others() {
    assert!(vip_dsq_valid(1));
    assert!(vip_dsq_valid(VIP_DSQ_LAST));
    assert!(!vip_dsq_valid(0));
    assert!(!vip_dsq_valid(4097));
    assert!(strong_handoff_enabled(&SpinparkLock::new(4096)));
    assert!(!strong_handoff_enabled(&SpinparkLock::new(0)));
    assert!(!strong_handoff_enabled(&SpinparkLock::new(4097)));
}

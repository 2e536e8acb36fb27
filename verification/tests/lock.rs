use lb_simple::acquire::{
    spinpark_lock, spinpark_trylock, LockAt, LockAttempt, TryAttempt, SPINPARK_SPIN_TIME,
    SPINPARK_WAIT_SPIN_TIME,
};
use lb_simple::counters::{yield_stats_snapshot, Counter, YieldCounters, YieldStatsSnapshot};
use lb_simple::release::{spinpark_unlock, UnlockAt, UnlockAttempt};
use lb_simple::waiting::{
    dec_waiters, mark_contended, settle_post_acquire, try_consume_handoff, Consume, DropWaiter,
};
use lb_simple::words::{
    apply, perform, Action, Errno, Reply, SpinparkLock, LOCK_STATE_LOCKED, LOCK_STATE_QUEUED,
    LOCK_STATE_UNLOCKED, YIELD_LOCK_CONTENTION, YIELD_LOCK_HANDOFF,
};

const NO_STATS: YieldStatsSnapshot = YieldStatsSnapshot {
    lock_acquire: 0,
    contention_yield: 0,
    requeue_yield: 0,
    handoff_yield: 0,
    fallback_yield: 0,
    handoff_taken: 0,
    handoff_miss: 0,
};

fn lock_with(data: u32, handoff: u32, waiters: u32, vip_dsq_id: u64) -> SpinparkLock {
    SpinparkLock {
        data,
        handoff,
        waiters,
        vip_dsq_id,
    }
}

#[test]
fn a_new_lock_is_free() {
    assert_eq!(SpinparkLock::new(7), lock_with(LOCK_STATE_UNLOCKED, 0, 0, 7));
    assert_eq!((LOCK_STATE_UNLOCKED, LOCK_STATE_LOCKED, LOCK_STATE_QUEUED), (0, 1, 2));
}

#[test]
fn trylock_takes_a_free_lock_and_refuses_a_held_one() {
    let mut lock = SpinparkLock::new(1);
    let mut counters = YieldCounters::new();
    assert_eq!(spinpark_trylock(&mut lock, &mut counters), Ok(()));
    assert_eq!(lock, lock_with(LOCK_STATE_LOCKED, 0, 0, 1));
    assert_eq!(spinpark_trylock(&mut lock, &mut counters), Err(Errno::Busy));
    lock.data = LOCK_STATE_QUEUED;
    assert_eq!(spinpark_trylock(&mut lock, &mut counters), Err(Errno::Busy));
    assert_eq!(
        yield_stats_snapshot(&counters),
        YieldStatsSnapshot {
            lock_acquire: 1,
            ..NO_STATS
        }
    );
}

#[test]
fn lock_and_unlock_leave_a_free_lock_as_it_was() {
    for vip in [0, 1, 4096, 4097] {
        let mut lock = SpinparkLock::new(vip);
        let mut counters = YieldCounters::new();
        let mut told = Vec::new();
        spinpark_lock(&mut lock, &mut counters, &mut told);
        assert_eq!(lock, lock_with(LOCK_STATE_LOCKED, 0, 0, vip));
        spinpark_unlock(&mut lock, &mut counters, &mut told);
        assert_eq!(lock, SpinparkLock::new(vip));
        assert_eq!(told, vec![]);
        assert_eq!(
            yield_stats_snapshot(&counters),
            YieldStatsSnapshot {
                lock_acquire: 1,
                ..NO_STATS
            }
        );
    }
}

#[test]
fn a_lock_on_offer_is_taken_before_parking() {
    let mut lock = lock_with(LOCK_STATE_QUEUED, 1, 0, 3);
    let mut counters = YieldCounters::new();
    let mut told = Vec::new();
    spinpark_lock(&mut lock, &mut counters, &mut told);
    assert_eq!(lock, lock_with(LOCK_STATE_LOCKED, 0, 0, 3));
    assert_eq!(
        yield_stats_snapshot(&counters),
        YieldStatsSnapshot {
            lock_acquire: 1,
            handoff_taken: 1,
            ..NO_STATS
        }
    );

    let mut lock = lock_with(LOCK_STATE_QUEUED, 1, 2, 3);
    spinpark_lock(&mut lock, &mut counters, &mut told);
    assert_eq!(lock, lock_with(LOCK_STATE_QUEUED, 0, 2, 3));
    assert_eq!(told, vec![]);
}

#[test]
fn unlock_with_waiters_makes_one_offer() {
    let mut lock = lock_with(LOCK_STATE_QUEUED, 0, 2, 3);
    let mut counters = YieldCounters::new();
    let mut told = Vec::new();
    spinpark_unlock(&mut lock, &mut counters, &mut told);
    assert_eq!(lock, lock_with(LOCK_STATE_UNLOCKED, 0, 2, 3));
    assert_eq!(
        told,
        vec![
            Action::Register,
            Action::Publish {
                reason: YIELD_LOCK_HANDOFF,
                vip_dsq_id: 3
            },
            Action::Yield,
        ]
    );
    assert_eq!(
        yield_stats_snapshot(&counters),
        YieldStatsSnapshot {
            handoff_yield: 1,
            handoff_miss: 1,
            ..NO_STATS
        }
    );
}

#[test]
fn unlock_without_waiters_or_queue_makes_no_offer() {
    for lock in [
        lock_with(LOCK_STATE_QUEUED, 0, 0, 3),
        lock_with(LOCK_STATE_QUEUED, 0, 2, 0),
        lock_with(LOCK_STATE_LOCKED, 0, 2, 3),
        lock_with(LOCK_STATE_UNLOCKED, 0, 2, 3),
    ] {
        let mut lock = lock;
        let waiters = lock.waiters;
        let vip = lock.vip_dsq_id;
        let mut counters = YieldCounters::new();
        let mut told = Vec::new();
        spinpark_unlock(&mut lock, &mut counters, &mut told);
        assert_eq!(lock, lock_with(LOCK_STATE_UNLOCKED, 0, waiters, vip));
        assert_eq!(yield_stats_snapshot(&counters), NO_STATS);
        assert_eq!(told, vec![]);
    }
}

#[test]
fn only_a_held_lock_is_marked_as_contended() {
    for (before, after) in [(0, 0), (1, 2), (2, 2), (9, 9)] {
        let mut lock = lock_with(before, 0, 5, 3);
        mark_contended(&mut lock);
        assert_eq!(lock, lock_with(after, 0, 5, 3));
    }
}

#[test]
fn the_count_of_waiters_stops_at_zero() {
    let mut lock = lock_with(LOCK_STATE_LOCKED, 0, 2, 3);
    assert_eq!(dec_waiters(&mut lock), 1);
    assert_eq!(dec_waiters(&mut lock), 0);
    assert_eq!(dec_waiters(&mut lock), 0);
    assert_eq!(lock, lock_with(LOCK_STATE_LOCKED, 0, 0, 3));
}

#[test]
fn a_waiter_that_took_the_lock_settles() {
    for (waiters, left, state) in [
        (3, 2, LOCK_STATE_QUEUED),
        (1, 0, LOCK_STATE_LOCKED),
        (0, 0, LOCK_STATE_LOCKED),
    ] {
        let mut lock = lock_with(LOCK_STATE_LOCKED, 0, waiters, 3);
        let mut accounted = true;
        settle_post_acquire(&mut lock, &mut accounted);
        assert_eq!(lock, lock_with(state, 0, left, 3));
        assert!(!accounted);
    }
    let mut lock = lock_with(LOCK_STATE_LOCKED, 0, 3, 3);
    let mut accounted = false;
    settle_post_acquire(&mut lock, &mut accounted);
    assert_eq!(lock, lock_with(LOCK_STATE_LOCKED, 0, 3, 3));
}

#[test]
fn an_offer_is_consumed_once() {
    let mut lock = lock_with(LOCK_STATE_QUEUED, 1, 2, 3);
    let mut counters = YieldCounters::new();
    let mut accounted = true;
    assert!(try_consume_handoff(&mut lock, &mut accounted, &mut counters));
    assert!(!accounted);
    assert_eq!(lock, lock_with(LOCK_STATE_QUEUED, 0, 1, 3));

    let mut accounted = true;
    assert!(!try_consume_handoff(&mut lock, &mut accounted, &mut counters));
    assert!(accounted);
    assert_eq!(lock, lock_with(LOCK_STATE_QUEUED, 0, 1, 3));
    assert_eq!(
        yield_stats_snapshot(&counters),
        YieldStatsSnapshot {
            lock_acquire: 1,
            handoff_taken: 1,
            ..NO_STATS
        }
    );
}

#[test]
fn a_stranger_may_consume_an_offer_too() {
    for (waiters, state) in [(0, LOCK_STATE_LOCKED), (2, LOCK_STATE_QUEUED)] {
        let mut lock = lock_with(LOCK_STATE_QUEUED, 1, waiters, 3);
        let mut counters = YieldCounters::new();
        let mut accounted = false;
        assert!(try_consume_handoff(&mut lock, &mut accounted, &mut counters));
        assert_eq!(lock, lock_with(state, 0, waiters, 3));
    }
}

fn steps_until_yield(attempt: &mut LockAttempt, lock: &mut SpinparkLock) -> (u32, Vec<Action>) {
    let mut counters = YieldCounters::new();
    let mut spins = 0;
    let mut trace = Vec::new();
    loop {
        let action = attempt.action().unwrap();
        let reply = perform(lock, &mut counters, action);
        attempt.advance(reply);
        match action {
            Action::Spin => spins += 1,
            other => trace.push(other),
        }
        if action == Action::Yield {
            return (spins, trace);
        }
    }
}

#[test]
fn a_thread_reports_contention_before_it_parks() {
    let mut lock = lock_with(LOCK_STATE_LOCKED, 0, 0, 5);
    let mut attempt = LockAttempt::new(5);
    let (spins, trace) = steps_until_yield(&mut attempt, &mut lock);
    assert_eq!(spins, SPINPARK_SPIN_TIME - 1);
    assert_eq!(
        trace[trace.len() - 4..],
        [
            Action::Register,
            Action::Publish {
                reason: YIELD_LOCK_CONTENTION,
                vip_dsq_id: 5
            },
            Action::Count {
                counter: Counter::ContentionYield
            },
            Action::Yield,
        ]
    );
    assert_eq!(lock, lock_with(LOCK_STATE_QUEUED, 0, 1, 5));

    // It stays counted as one waiter and parks again after more rounds.
    let (spins, trace) = steps_until_yield(&mut attempt, &mut lock);
    assert_eq!(spins, SPINPARK_WAIT_SPIN_TIME - 1);
    assert_eq!(
        trace[trace.len() - 2..],
        [
            Action::Count {
                counter: Counter::RequeueYield
            },
            Action::Yield,
        ]
    );
    assert_eq!(lock, lock_with(LOCK_STATE_QUEUED, 0, 1, 5));
}

#[test]
fn a_lock_without_a_queue_is_only_yielded_for() {
    let mut lock = lock_with(LOCK_STATE_LOCKED, 0, 0, 0);
    let mut attempt = LockAttempt::new(0);
    for _ in 0..3 {
        let (spins, trace) = steps_until_yield(&mut attempt, &mut lock);
        assert_eq!(spins, SPINPARK_SPIN_TIME - 1);
        assert_eq!(
            trace[trace.len() - 2..],
            [
                Action::Count {
                    counter: Counter::FallbackYield
                },
                Action::Yield,
            ]
        );
        assert!(!trace.iter().any(|a| matches!(a, Action::Publish { .. })));
        assert_eq!(lock, lock_with(LOCK_STATE_LOCKED, 0, 0, 0));
    }
}

#[test]
fn a_release_reports_the_handoff_before_it_yields() {
    let mut lock = lock_with(LOCK_STATE_QUEUED, 0, 1, 5);
    let mut attempt = UnlockAttempt::new(5);
    let mut trace = Vec::new();
    while attempt.at != UnlockAt::OfferYield {
        let action = attempt.action().unwrap();
        trace.push(action);
        let reply = apply(&mut lock, action);
        attempt.advance(reply);
    }
    assert_eq!(lock, lock_with(LOCK_STATE_QUEUED, 1, 1, 5));
    assert_eq!(
        trace[trace.len() - 2..],
        [
            Action::Publish {
                reason: YIELD_LOCK_HANDOFF,
                vip_dsq_id: 5
            },
            Action::Count {
                counter: Counter::HandoffYield
            },
        ]
    );
    // The offer is gone when the thread comes back: it is done.
    attempt.advance(Reply {
        word: 0,
        swapped: false,
    });
    attempt.advance(Reply {
        word: 0,
        swapped: false,
    });
    assert_eq!(attempt.at, UnlockAt::Released);
    assert_eq!(attempt.action(), None);
}

#[test]
fn a_weak_exchange_may_fail_for_no_reason() {
    let mut attempt = LockAttempt::new(5);
    attempt.advance(Reply {
        word: LOCK_STATE_UNLOCKED,
        swapped: false,
    });
    assert_eq!(attempt.at, LockAt::TakeFree);
    attempt.advance(Reply {
        word: LOCK_STATE_UNLOCKED,
        swapped: false,
    });
    assert_eq!(attempt.at, LockAt::Spin);
    assert_eq!(attempt.spin_count, 1);
}

#[derive(Clone, Copy)]
enum Doing {
    Locking(LockAttempt),
    Trying(TryAttempt),
    Reading,
    Writing(u64, u64),
    Unlocking(UnlockAttempt),
    Finished,
}

struct Rng(u64);

impl Rng {
    fn below(&mut self, n: u64) -> u64 {
        self.0 ^= self.0 << 13;
        self.0 ^= self.0 >> 7;
        self.0 ^= self.0 << 17;
        self.0 % n
    }
}

/// Threads that count together under one lock, taking turns at random, with
/// weak exchanges that sometimes fail. A thread holds the lock for `hold`
/// turns, and gives way about every `burst` turns. Returns the count, the lock
/// and the counters.
fn count_together(
    threads: usize,
    loops: u64,
    vip: u64,
    hold: u64,
    seed: u64,
    burst: u64,
) -> (u64, SpinparkLock, YieldStatsSnapshot) {
    let mut rng = Rng(seed);
    let mut lock = SpinparkLock::new(vip);
    let mut counters = YieldCounters::new();
    let mut shared = 0u64;
    let mut done = vec![0u64; threads];
    let mut doing = vec![Doing::Locking(LockAttempt::new(vip)); threads];
    let mut running = 0;
    while doing.iter().any(|d| !matches!(d, Doing::Finished)) {
        if rng.below(burst) == 0 {
            running = rng.below(threads as u64) as usize;
        }
        let mut yielded = false;
        let i = running;
        let spurious = rng.below(10) == 0;
        let mut act = |lock: &mut SpinparkLock, action: Action| {
            yielded = action == Action::Yield;
            if let Action::Exchange { weak: true, .. } = action {
                if spurious {
                    return Reply {
                        word: 0,
                        swapped: false,
                    };
                }
            }
            perform(lock, &mut counters, action)
        };
        doing[i] = match doing[i] {
            Doing::Locking(mut attempt) => match attempt.action() {
                Some(action) => {
                    let reply = act(&mut lock, action);
                    attempt.advance(reply);
                    Doing::Locking(attempt)
                }
                None => Doing::Reading,
            },
            Doing::Trying(attempt) => match attempt.action() {
                Some(action) => Doing::Trying(attempt.next(act(&mut lock, action))),
                None if attempt.outcome() == Some(Ok(())) => Doing::Reading,
                None => Doing::Locking(LockAttempt::new(vip)),
            },
            Doing::Reading => Doing::Writing(shared, hold),
            Doing::Writing(seen, left) if left > 0 => Doing::Writing(seen, left - 1),
            Doing::Writing(seen, _) => {
                shared = seen + 1;
                Doing::Unlocking(UnlockAttempt::new(vip))
            }
            Doing::Unlocking(mut attempt) => match attempt.action() {
                Some(action) => {
                    let reply = act(&mut lock, action);
                    attempt.advance(reply);
                    Doing::Unlocking(attempt)
                }
                None => {
                    done[i] += 1;
                    if done[i] == loops {
                        Doing::Finished
                    } else if rng.below(3) == 0 {
                        Doing::Trying(TryAttempt::Take)
                    } else {
                        Doing::Locking(LockAttempt::new(vip))
                    }
                }
            },
            Doing::Finished => Doing::Finished,
        };
        assert!(lock.data <= LOCK_STATE_QUEUED && lock.handoff <= 1);
        assert!(lock.data != LOCK_STATE_UNLOCKED || lock.handoff == 0);
        let inside = |d: &&Doing| matches!(d, Doing::Reading | Doing::Writing(..));
        assert!(doing.iter().filter(inside).count() <= 1);
        assert!(
            lock.handoff == 0
                || doing.iter().any(|d| match d {
                    Doing::Unlocking(attempt) => matches!(
                        attempt.at,
                        UnlockAt::Publish
                            | UnlockAt::CountOffer
                            | UnlockAt::OfferYield
                            | UnlockAt::Reclaim
                    ),
                    _ => false,
                })
        );
        if yielded || matches!(doing[i], Doing::Finished) {
            running = rng.below(threads as u64) as usize;
        }
    }
    (shared, lock, yield_stats_snapshot(&counters))
}

#[test]
fn threads_that_take_turns_count_right() {
    for (threads, loops, vip, hold, seed, burst) in [
        (2, 50, 1, 1000, 0x1234_5678_9abc_def1, 4000),
        (8, 25, 1, 500, 0x0fed_cba9_8765_4321, 3000),
        (8, 25, 0, 500, 0x2468_ace0_1357_9bdf, 3000),
        (3, 60, 4096, 0, 0x1111_2222_3333_4444, 700),
        (5, 40, 9, 10, 0x9999_8888_7777_6666, 37),
        (4, 40, 9, 3, 0x5555_aaaa_5555_aaaa, 1),
    ] {
        let (count, lock, stats) = count_together(threads, loops, vip, hold, seed, burst);
        let expected = threads as u64 * loops;
        assert_eq!(count, expected);
        assert_eq!(lock, SpinparkLock::new(vip));
        assert_eq!(stats.lock_acquire, expected);
        assert_eq!(stats.handoff_yield, stats.handoff_taken + stats.handoff_miss);
        assert!(stats.handoff_taken <= stats.lock_acquire);
        assert!(stats.requeue_yield == 0 || stats.contention_yield > 0);
        if vip == 0 {
            assert_eq!(stats.contention_yield + stats.requeue_yield + stats.handoff_yield, 0);
        } else {
            assert_eq!(stats.fallback_yield, 0);
        }
    }
}

#[test]
fn contended_locks_are_handed_over() {
    let (_, _, stats) = count_together(8, 25, 1, 500, 0x0fed_cba9_8765_4321, 3000);
    assert!(stats.contention_yield > 0);
    assert!(stats.handoff_taken > 0);
}

/// Thread A offers the lock, B accepts, works, and offers it again before A
/// comes back. A then takes B's offer back and frees the lock for it.
#[test]
fn an_offer_may_be_taken_back_for_another_thread() {
    let mut lock = lock_with(LOCK_STATE_QUEUED, 0, 2, 5);
    let mut counters = YieldCounters::new();
    let mut run = |lock: &mut SpinparkLock, attempt: &mut UnlockAttempt, until: UnlockAt| {
        while attempt.at != until {
            let reply = perform(lock, &mut counters, attempt.action().unwrap());
            attempt.advance(reply);
        }
    };
    let mut a = UnlockAttempt::new(5);
    run(&mut lock, &mut a, UnlockAt::Reclaim);
    assert_eq!(lock.handoff, 1);

    let mut accounted = true;
    let mut taken = YieldCounters::new();
    assert!(try_consume_handoff(&mut lock, &mut accounted, &mut taken));
    assert_eq!(lock, lock_with(LOCK_STATE_QUEUED, 0, 1, 5));

    let mut b = UnlockAttempt::new(5);
    run(&mut lock, &mut b, UnlockAt::Reclaim);
    run(&mut lock, &mut a, UnlockAt::Released);
    assert_eq!(lock, lock_with(LOCK_STATE_UNLOCKED, 0, 1, 5));
    run(&mut lock, &mut b, UnlockAt::Released);
    assert_eq!(lock, lock_with(LOCK_STATE_UNLOCKED, 0, 1, 5));
}

#[test]
fn a_parked_thread_gets_a_lock_that_nobody_owns() {
    for offered in [false, true] {
        let mut lock = lock_with(LOCK_STATE_LOCKED, 0, 0, 5);
        let mut attempt = LockAttempt::new(5);
        steps_until_yield(&mut attempt, &mut lock);
        if offered {
            lock.handoff = 1;
        } else {
            lock.data = LOCK_STATE_UNLOCKED;
        }
        let mut steps = 0;
        while let Some(action) = attempt.action() {
            let reply = apply(&mut lock, action);
            attempt.advance(reply);
            steps += 1;
        }
        assert!(steps < 20);
        assert_eq!(lock, lock_with(LOCK_STATE_LOCKED, 0, 0, 5));
    }
}

#[test]
fn an_offer_has_one_taker() {
    let mut rng = Rng(0x3141_5926_5358_9793);
    for round in 0..200 {
        let threads = 1 + round % 7;
        let mut lock = lock_with(LOCK_STATE_QUEUED, 1, threads as u32, 5);
        let mut takers = vec![Consume::Accept; threads];
        while takers.iter().any(|t| t.action().is_some()) {
            let i = rng.below(threads as u64) as usize;
            if let Some(action) = takers[i].action() {
                let reply = apply(&mut lock, action);
                takers[i] = takers[i].next(true, reply);
            }
            let accepted = |t: &&Consume| {
                **t != Consume::Accept && **t != Consume::Done { taken: false }
            };
            let looked = takers.iter().any(|t| *t != Consume::Accept);
            assert_eq!(takers.iter().filter(accepted).count(), usize::from(looked));
        }
        let took = |t: &&Consume| **t == Consume::Done { taken: true };
        assert_eq!(takers.iter().filter(took).count(), 1);
        assert_eq!((lock.handoff, lock.waiters), (0, threads as u32 - 1));
    }
}

#[test]
fn waiters_that_leave_together_are_all_taken_off() {
    let mut rng = Rng(0x2718_2818_2845_9045);
    for (counted, threads) in [(5, 5), (9, 5), (3, 5), (0, 4), (1, 1)] {
        for _ in 0..50 {
            let mut lock = lock_with(LOCK_STATE_QUEUED, 0, counted, 5);
            let mut steps = vec![DropWaiter::Read; threads];
            while steps.iter().any(|s| s.action().is_some()) {
                let i = rng.below(threads as u64) as usize;
                if let Some(action) = steps[i].action() {
                    let fails = matches!(action, Action::Exchange { weak: true, .. })
                        && rng.below(4) == 0;
                    let reply = if fails {
                        Reply { word: 0, swapped: false }
                    } else {
                        apply(&mut lock, action)
                    };
                    steps[i] = steps[i].next(reply);
                }
            }
            assert_eq!(lock.waiters, counted.saturating_sub(threads as u32));
            let mut told = Vec::new();
            for step in &steps {
                if let DropWaiter::Done { remaining } = step {
                    told.push(*remaining);
                }
            }
            assert_eq!(told.len(), threads);
            told.retain(|remaining| *remaining > 0);
            told.sort();
            let all = told.len();
            told.dedup();
            assert_eq!(told.len(), all);
        }
    }
}

/// Whatever a registration answers, an operation goes on in the same way.
#[test]
fn a_registration_may_fail() {
    let replies = [(0, false), (1, true), (u32::MAX, false)].map(|(word, swapped)| Reply {
        word,
        swapped,
    });
    let mut lock = lock_with(LOCK_STATE_QUEUED, 0, 1, 5);
    let mut attempt = LockAttempt::new(5);
    while attempt.action() != Some(Action::Register) {
        let reply = apply(&mut lock, attempt.action().unwrap());
        attempt.advance(reply);
    }
    let mut release = UnlockAttempt::new(5);
    while release.action() != Some(Action::Register) {
        let reply = apply(&mut lock, release.action().unwrap());
        release.advance(reply);
    }
    let before = lock;
    apply(&mut lock, Action::Register);
    assert_eq!(lock, before);
    for reply in replies {
        let mut next = attempt;
        next.advance(reply);
        assert_eq!(next.at, LockAt::Publish);
        let mut next = release;
        next.advance(reply);
        assert_eq!(next.at, UnlockAt::Offer);
    }
}

use std::cmp::Ordering;

use lb_simple::condvar::{
    apply_to_cond, require_deadline, signal_action, spin_yield_backoff, spinpark_cond_broadcast,
    spinpark_cond_signal, spinpark_cond_wait, timespec_cmp, Broadcast, CondAction, CondAt,
    CondReply, CondWait, CondWord, SpinparkCond, Timespec,
};
use lb_simple::counters::{yield_stats_snapshot, YieldCounters};
use lb_simple::words::{
    apply, Action, Errno, MemOrder, Reply, SpinparkLock, LOCK_STATE_LOCKED, LOCK_STATE_QUEUED,
    YIELD_LOCK_HANDOFF,
};

fn at(tv_sec: i64, tv_nsec: i64) -> Timespec {
    Timespec { tv_sec, tv_nsec }
}

fn held() -> SpinparkLock {
    SpinparkLock {
        data: LOCK_STATE_LOCKED,
        ..SpinparkLock::new(2)
    }
}

#[test]
fn times_are_compared_by_seconds_first() {
    assert_eq!(timespec_cmp(&at(1, 9), &at(2, 0)), Ordering::Less);
    assert_eq!(timespec_cmp(&at(2, 0), &at(1, 9)), Ordering::Greater);
    assert_eq!(timespec_cmp(&at(2, 3), &at(2, 4)), Ordering::Less);
    assert_eq!(timespec_cmp(&at(2, 4), &at(2, 3)), Ordering::Greater);
    assert_eq!(timespec_cmp(&at(2, 4), &at(2, 4)), Ordering::Equal);
    assert_eq!(timespec_cmp(&at(-1, 5), &at(0, 0)), Ordering::Less);
}

#[test]
fn a_timed_wait_needs_a_deadline() {
    assert_eq!(require_deadline(None), Err(Errno::Invalid));
    assert_eq!(require_deadline(Some(at(3, 4))), Ok(at(3, 4)));
}

#[test]
fn every_256th_round_gives_up_the_cpu() {
    let mut counter = 0;
    for round in 1..=512 {
        assert_eq!(spin_yield_backoff(&mut counter), round % 256 == 0);
    }
    assert_eq!(counter, 0);
    counter = 1000;
    assert!(spin_yield_backoff(&mut counter));
}

#[test]
fn signals_let_tickets_pass_one_by_one() {
    let mut cond = SpinparkCond::new();
    assert_eq!(cond, SpinparkCond { seq: 0, target: 0 });
    spinpark_cond_signal(&mut cond);
    spinpark_cond_signal(&mut cond);
    assert_eq!(cond, SpinparkCond { seq: 2, target: 0 });
    let mut cond = SpinparkCond {
        seq: u32::MAX,
        target: 4,
    };
    spinpark_cond_signal(&mut cond);
    assert_eq!(cond, SpinparkCond { seq: 0, target: 4 });
}

#[test]
fn a_broadcast_lets_all_drawn_tickets_pass() {
    let mut cond = SpinparkCond { seq: 1, target: 5 };
    spinpark_cond_broadcast(&mut cond);
    assert_eq!(cond, SpinparkCond { seq: 5, target: 5 });
    let mut cond = SpinparkCond { seq: 9, target: 5 };
    spinpark_cond_broadcast(&mut cond);
    assert_eq!(cond, SpinparkCond { seq: 5, target: 5 });
}

#[test]
fn a_broadcast_spares_tickets_drawn_after_it_looked() {
    let mut cond = SpinparkCond { seq: 0, target: 2 };
    let mut step = Broadcast::ReadTicket;
    step = step.next(apply_to_cond(&mut cond, step.action().unwrap()));
    cond.target = 3;
    step = step.next(apply_to_cond(&mut cond, step.action().unwrap()));
    assert_eq!(step.action(), None);
    assert_eq!(cond, SpinparkCond { seq: 2, target: 3 });
}

#[test]
fn the_signal_is_a_release() {
    assert_eq!(
        signal_action(),
        CondAction::Increment {
            word: CondWord::Sequence,
            order: MemOrder::Release
        }
    );
}

#[test]
fn a_ticket_that_may_pass_does_not_wait() {
    let mut cond = SpinparkCond { seq: 3, target: 2 };
    let mut lock = held();
    let mut counters = YieldCounters::new();
    let mut told = Vec::new();
    let outcome =
        spinpark_cond_wait(&mut cond, &mut lock, &mut counters, &mut told, None, at(0, 0));
    assert_eq!(outcome, Ok(()));
    assert_eq!(told, vec![]);
    assert_eq!(cond, SpinparkCond { seq: 3, target: 3 });
    assert_eq!(lock, held());
    assert_eq!(yield_stats_snapshot(&counters).lock_acquire, 1);
}

#[test]
fn a_wait_times_out_at_its_deadline() {
    for (now, deadline) in [(at(5, 0), at(5, 0)), (at(6, 0), at(5, 9)), (at(5, 9), at(5, 8))] {
        let mut cond = SpinparkCond::new();
        let mut lock = SpinparkLock {
            data: LOCK_STATE_QUEUED,
            waiters: 1,
            ..SpinparkLock::new(2)
        };
        let mut counters = YieldCounters::new();
        let mut told = Vec::new();
        let outcome = spinpark_cond_wait(
            &mut cond,
            &mut lock,
            &mut counters,
            &mut told,
            Some(deadline),
            now,
        );
        assert_eq!(outcome, Err(Errno::TimedOut));
        assert_eq!(
            told,
            vec![
                Action::Register,
                Action::Publish {
                    reason: YIELD_LOCK_HANDOFF,
                    vip_dsq_id: 2
                },
                Action::Yield,
            ]
        );
        assert_eq!(cond, SpinparkCond { seq: 0, target: 1 });
        // Nobody came for the lock while it was free.
        assert_eq!(
            lock,
            SpinparkLock {
                data: LOCK_STATE_LOCKED,
                waiters: 1,
                ..SpinparkLock::new(2)
            }
        );
        let stats = yield_stats_snapshot(&counters);
        assert_eq!(
            (stats.lock_acquire, stats.handoff_yield, stats.handoff_miss),
            (1, 1, 1)
        );
    }
}

fn drive(
    wait: &mut CondWait,
    cond: &mut SpinparkCond,
    lock: &mut SpinparkLock,
    now: Timespec,
) -> CondAction {
    let action = wait.action().unwrap();
    let mut reply = CondReply {
        word: 0,
        lock: Reply {
            word: 0,
            swapped: false,
        },
        now,
    };
    match action {
        CondAction::Lock { action } => reply.lock = apply(lock, action),
        action => reply.word = apply_to_cond(cond, action),
    }
    wait.advance(reply);
    action
}

#[test]
fn a_waiter_has_released_the_lock_and_takes_it_again() {
    let mut cond = SpinparkCond::new();
    let mut lock = held();
    let mut wait = CondWait::new(2, None);
    let mut rounds = 0;
    while rounds < 600 {
        match drive(&mut wait, &mut cond, &mut lock, at(0, 0)) {
            CondAction::Spin | CondAction::YieldCpu => rounds += 1,
            CondAction::ReadClock => unreachable!(),
            _ => {}
        }
    }
    assert_eq!(lock, SpinparkLock::new(2));
    assert_eq!(wait.outcome(), None);

    spinpark_cond_signal(&mut cond);
    while wait.outcome().is_none() {
        drive(&mut wait, &mut cond, &mut lock, at(0, 0));
    }
    assert_eq!(wait.outcome(), Some(Ok(())));
    assert_eq!(lock, held());
}

#[test]
fn a_timed_wait_looks_at_the_clock_in_every_round() {
    let mut cond = SpinparkCond::new();
    let mut lock = held();
    let mut wait = CondWait::new(2, Some(at(10, 0)));
    let mut clock_reads = 0;
    let mut rounds = 0;
    let mut yields = 0;
    while wait.outcome().is_none() {
        let now = if clock_reads < 300 { at(9, 999_999_999) } else { at(10, 0) };
        match drive(&mut wait, &mut cond, &mut lock, now) {
            CondAction::ReadClock => clock_reads += 1,
            CondAction::Spin => rounds += 1,
            CondAction::YieldCpu => {
                rounds += 1;
                yields += 1;
            }
            _ => {}
        }
    }
    assert_eq!((clock_reads, rounds, yields), (301, 300, 1));
    assert_eq!(wait.outcome(), Some(Err(Errno::TimedOut)));
    assert_eq!(lock, held());
}

#[test]
fn a_ticket_that_passes_wins_over_a_deadline_that_has_come() {
    let mut cond = SpinparkCond::new();
    let mut lock = held();
    let mut wait = CondWait::new(2, Some(at(10, 0)));
    while wait.at != CondAt::Look {
        drive(&mut wait, &mut cond, &mut lock, at(9, 0));
    }
    spinpark_cond_broadcast(&mut cond);
    while wait.outcome().is_none() {
        drive(&mut wait, &mut cond, &mut lock, at(11, 0));
    }
    assert_eq!(wait.outcome(), Some(Ok(())));
}

#[test]
fn the_ticket_is_drawn_before_the_lock_is_touched() {
    let mut cond = SpinparkCond { seq: 0, target: 6 };
    let mut lock = held();
    let mut wait = CondWait::new(2, None);
    assert!(matches!(
        drive(&mut wait, &mut cond, &mut lock, at(0, 0)),
        CondAction::Increment { word: CondWord::Target, .. }
    ));
    assert_eq!((wait.ticket, cond.target), (7, 7));
    assert!(matches!(
        drive(&mut wait, &mut cond, &mut lock, at(0, 0)),
        CondAction::Load { word: CondWord::Sequence, .. }
    ));
    assert!(matches!(wait.action(), Some(CondAction::Lock { .. })));
    assert_eq!(lock, held());
}

/// A broadcast that begins after the ticket was drawn wakes the waiter,
/// wherever the waiter then stands.
#[test]
fn a_broadcast_wakes_a_waiter_wherever_it_stands() {
    for steps in 1..40 {
        let mut cond = SpinparkCond { seq: 2, target: 2 };
        let mut lock = held();
        let mut wait = CondWait::new(2, None);
        for _ in 0..steps {
            drive(&mut wait, &mut cond, &mut lock, at(0, 0));
        }
        let mut step = Broadcast::ReadTicket;
        step = step.next(apply_to_cond(&mut cond, step.action().unwrap()));
        // Another waiter draws a ticket, and somebody signals.
        cond.target += 1;
        spinpark_cond_signal(&mut cond);
        step.next(apply_to_cond(&mut cond, step.action().unwrap()));
        assert_eq!(cond, SpinparkCond { seq: 3, target: 4 });
        let mut left = 0;
        while wait.outcome().is_none() {
            drive(&mut wait, &mut cond, &mut lock, at(0, 0));
            left += 1;
            assert!(left < 40);
        }
        assert_eq!(wait.outcome(), Some(Ok(())));
        assert_eq!(lock, held());
    }
}

#[test]
fn waiters_have_different_tickets() {
    let mut cond = SpinparkCond::new();
    let mut tickets = Vec::new();
    for _ in 0..5 {
        let mut lock = held();
        let mut wait = CondWait::new(2, None);
        drive(&mut wait, &mut cond, &mut lock, at(0, 0));
        tickets.push(wait.ticket);
    }
    assert_eq!(tickets, vec![1, 2, 3, 4, 5]);
}

/// A waiter that was woken while another thread holds the lock parks, and gets
/// the lock when that thread has freed or offered it.
#[test]
fn a_woken_waiter_gets_a_lock_that_nobody_owns() {
    for offered in [false, true] {
        let mut cond = SpinparkCond::new();
        let mut lock = held();
        let mut wait = CondWait::new(2, None);
        while wait.at != CondAt::Look {
            drive(&mut wait, &mut cond, &mut lock, at(0, 0));
        }
        lock.data = LOCK_STATE_LOCKED;
        spinpark_cond_signal(&mut cond);
        for _ in 0..5000 {
            drive(&mut wait, &mut cond, &mut lock, at(0, 0));
        }
        assert_eq!((lock.data, lock.waiters), (LOCK_STATE_QUEUED, 1));
        if offered {
            lock.handoff = 1;
        } else {
            lock.data = 0;
        }
        let mut steps = 0;
        while wait.outcome().is_none() {
            drive(&mut wait, &mut cond, &mut lock, at(0, 0));
            steps += 1;
            assert!(steps < 20_000);
        }
        assert_eq!(wait.outcome(), Some(Ok(())));
        assert_eq!(lock, held());
    }
}

/// A broadcast that is halfway when another begins does no harm to a waiter
/// whose ticket it has seen.
#[test]
fn a_halfway_broadcast_that_saw_the_ticket_does_no_harm() {
    let mut cond = SpinparkCond { seq: 0, target: 4 };
    let look = |cond: &mut SpinparkCond| {
        let step = Broadcast::ReadTicket;
        step.next(apply_to_cond(cond, step.action().unwrap()))
    };
    let first = look(&mut cond);
    cond.target = 5;
    let second = look(&mut cond);
    apply_to_cond(&mut cond, second.action().unwrap());
    assert_eq!(cond.seq, 5);
    apply_to_cond(&mut cond, first.action().unwrap());
    // The waiter with ticket 4 passes; the one with ticket 5 was not seen.
    assert_eq!(cond.seq, 4);
}

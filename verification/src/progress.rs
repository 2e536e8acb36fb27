//! A thread that wants a lock gets it, if it is left alone with it.

use crate::acquire::{obtainable, LockAt, LockAttempt, Site};
use crate::exclusion::{
    attempt_owns, attempt_sound, is_history, law_lock_not_lost, lemma_history, lemma_reliable,
    reliable, Crowd, Thread,
};
use crate::waiting::{Consume, DropWaiter, Settle};
use crate::words::{effect, steady, Action, Reply, SpinparkLock, LOCK_STATE_UNLOCKED};
use vstd::prelude::*;

verus! {

/// The reply to an action when nothing fails without reason.
pub open spec fn steady_reply(lock: SpinparkLock, action: Action) -> Reply {
    match action {
        Action::Load { word, order: _ } => Reply { word: lock.get(word), swapped: false },
        Action::Exchange { word, expect, .. } => Reply {
            word: lock.get(word),
            swapped: lock.get(word) == expect,
        },
        _ => Reply { word: 0, swapped: false },
    }
}

/// The lock after an action when nothing fails without reason.
pub open spec fn steady_effect(lock: SpinparkLock, action: Action) -> SpinparkLock {
    match action {
        Action::Store { word, value, order: _ } => lock.put(word, value),
        Action::Exchange { word, expect, new, .. } => if lock.get(word) == expect {
            lock.put(word, new)
        } else {
            lock
        },
        Action::Add { word, delta, order: _ } => lock.put(
            word,
            lock.get(word).wrapping_add(delta),
        ),
        _ => lock,
    }
}

/// This is one of the things that an action may do.
pub proof fn law_steady_is_possible(lock: SpinparkLock, action: Action)
    ensures
        effect(lock, action, steady_reply(lock, action), steady_effect(lock, action)),
        steady(lock, action, steady_reply(lock, action)),
{
}

/// An attempt and its lock after `n` steps of the attempt in which no other
/// thread takes part and nothing fails without reason.
pub open spec fn alone_after(attempt: LockAttempt, lock: SpinparkLock, n: nat) -> (
    LockAttempt,
    SpinparkLock,
)
    decreases n,
{
    if n == 0 {
        (attempt, lock)
    } else {
        match attempt.spec_action() {
            Some(action) => alone_after(
                attempt.spec_next(steady_reply(lock, action)),
                steady_effect(lock, action),
                (n - 1) as nat,
            ),
            None => (attempt, lock),
        }
    }
}

/// An upper bound on the steps that are left.
spec fn distance(attempt: LockAttempt, lock: SpinparkLock) -> int {
    let rounds = 4 * (attempt.spin_limit() - attempt.spin_count);
    match attempt.at {
        LockAt::Acquired => 0,
        LockAt::CountAcquire => 2,
        LockAt::Consume { site: _, step: Consume::CountAcquire } => 3,
        LockAt::Consume { site: _, step: Consume::CountTaken } => 4,
        LockAt::Consume { site: _, step: Consume::Settle { step } } => settle_distance(step, lock),
        LockAt::Settle { settle } => settle_distance(settle, lock),
        _ => if lock.data == LOCK_STATE_UNLOCKED {
            match attempt.at {
                LockAt::TakeFree | LockAt::Retake => 10,
                LockAt::TestFree | LockAt::Recheck => 11,
                LockAt::Spin | LockAt::FallbackYield | LockAt::Announce => 12,
                LockAt::CountFallback | LockAt::MarkContended => 13,
                LockAt::Consume { site: Site::Woken, .. } => 13,
                LockAt::PeekQueued | LockAt::ParkYield => 14,
                LockAt::Consume { site: Site::Spinning, .. } => 14,
                LockAt::CountPark => 15,
                LockAt::Publish => 16,
                LockAt::Register => 17,
                _ => 18,
            }
        } else {
            match attempt.at {
                LockAt::Consume { site: Site::Woken, .. } => 27,
                LockAt::ParkYield => 28,
                LockAt::CountPark => 29,
                LockAt::Publish => 30,
                LockAt::Consume { site: Site::Parking, .. } => 31,
                LockAt::Register => 31,
                LockAt::Retake => 32,
                LockAt::Recheck => 33,
                LockAt::Announce => 34,
                LockAt::MarkContended => 35,
                LockAt::Consume { site: Site::Spinning, .. } => 98 + rounds,
                LockAt::PeekQueued => 99 + rounds,
                LockAt::TestFree | LockAt::TakeFree => 100 + rounds,
                _ => 101 + rounds,
            }
        },
    }
}

/// The same for a thread that has taken the lock. A count of waiters that
/// has changed since it was read has to be read again.
spec fn settle_distance(settle: Settle, lock: SpinparkLock) -> int {
    match settle {
        Settle::Leave { step: DropWaiter::Lower { seen } } => if seen == lock.waiters {
            7
        } else {
            9
        },
        Settle::Leave { .. } => 8,
        _ => 6,
    }
}

/// Whether the attempt has the lock or can get it.
spec fn promising(attempt: LockAttempt, lock: SpinparkLock) -> bool {
    &&& attempt_sound(attempt, lock.vip_dsq_id)
    &&& reliable(lock, Thread::Locking { attempt, holding: false })
    &&& attempt_owns(attempt) || obtainable(lock)
}

/// A step of an attempt that is left alone brings it closer to the lock.
proof fn lemma_closer(attempt: LockAttempt, lock: SpinparkLock)
    requires
        promising(attempt, lock),
        attempt.at != LockAt::Acquired,
    ensures
        ({
            let action = attempt.spec_action()->Some_0;
            let next = attempt.spec_next(steady_reply(lock, action));
            let post = steady_effect(lock, action);
            &&& attempt.spec_action() is Some
            &&& 0 <= distance(next, post) < distance(attempt, lock)
            &&& next.at == LockAt::Acquired || promising(next, post)
        }),
{
}

proof fn lemma_reaches(attempt: LockAttempt, lock: SpinparkLock)
    requires
        promising(attempt, lock),
    ensures
        exists|n: nat| (#[trigger] alone_after(attempt, lock, n)).0.at == LockAt::Acquired,
    decreases distance(attempt, lock),
{
    lemma_closer(attempt, lock);
    let action = attempt.spec_action()->Some_0;
    let next = attempt.spec_next(steady_reply(lock, action));
    let post = steady_effect(lock, action);
    if next.at == LockAt::Acquired {
        assert(alone_after(next, post, 0).0.at == LockAt::Acquired);
        assert(alone_after(attempt, lock, 1) == alone_after(next, post, 0));
    } else {
        lemma_reaches(next, post);
        let n = choose|n: nat|
            (#[trigger] alone_after(next, post, n)).0.at == LockAt::Acquired;
        assert(alone_after(attempt, lock, n + 1) == alone_after(next, post, n));
    }
}

/// No thread gets stuck: at whatever point of whatever history, if no other
/// thread owns the lock, a thread that is taking it and then runs by itself
/// gets it after finitely many steps, also one that is taking it again after
/// it has waited for a condition. It does not depend on being woken, and on no
/// other thread to go on. Only a thread that holds the lock already waits for
/// itself.
pub proof fn law_attempt_succeeds_alone(history: Seq<Crowd>, k: int, i: int)
    requires
        is_history(history),
        0 <= k < history.len(),
        0 <= i < history[k].threads.len(),
        history[k].threads[i].taking() is Some,
        !history[k].threads[i].waits_for_itself(),
        forall|j: int|
            0 <= j < history[k].threads.len() && j != i
                ==> !(#[trigger] history[k].threads[j]).owns(),
    ensures
        exists|n: nat|
            (#[trigger] alone_after(
                history[k].threads[i].taking()->Some_0,
                history[k].lock,
                n,
            )).0.at == LockAt::Acquired,
{
    let crowd = history[k];
    lemma_history(history, k);
    lemma_reliable(crowd, i);
    if !crowd.threads[i].owns() {
        law_lock_not_lost(history, k);
    }
    lemma_reaches(crowd.threads[i].taking()->Some_0, crowd.lock);
}

} // verus!

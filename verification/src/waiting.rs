//! What a thread does once it has got hold of a lock, or tries to take one
//! that is being handed over.
//!
//! The protocols are written as machines: a value says where a thread stands,
//! its `action` says what the thread does next, and `next` says where it
//! stands after the reply. The functions with the names of whole operations
//! run such a machine to its end on words that no other thread touches.

use crate::counters::{Counter, YieldCounters};
use crate::words::{
    apply, perform, Action, MemOrder, Reply, SpinparkLock, Word, LOCK_STATE_LOCKED, LOCK_STATE_QUEUED,
};
use vstd::prelude::*;

verus! {

/// The exchange by which a waiter tells the holder that it queues.
pub open spec fn contend_exchange() -> Action {
    Action::Exchange {
        word: Word::Data,
        expect: LOCK_STATE_LOCKED,
        new: LOCK_STATE_QUEUED,
        weak: false,
        success: MemOrder::AcqRel,
        failure: MemOrder::Acquire,
    }
}

/// The exchange by which a waiter tells the holder that it queues.
pub fn contend_action() -> (action: Action)
    ensures
        action == contend_exchange(),
{
    Action::Exchange {
        word: Word::Data,
        expect: LOCK_STATE_LOCKED,
        new: LOCK_STATE_QUEUED,
        weak: false,
        success: MemOrder::AcqRel,
        failure: MemOrder::Acquire,
    }
}

/// Marks a held lock as queued for; a lock in any other state stays as it is.
pub fn mark_contended(lock: &mut SpinparkLock)
    ensures
        *final(lock) == if old(lock).data == LOCK_STATE_LOCKED {
            SpinparkLock { data: LOCK_STATE_QUEUED, ..*old(lock) }
        } else {
            *old(lock)
        },
{
    apply(lock, contend_action());
}

/// The state in which a lock is held while `remaining` other threads wait.
pub open spec fn held_state(remaining: int) -> u32 {
    if remaining > 0 {
        LOCK_STATE_QUEUED
    } else {
        LOCK_STATE_LOCKED
    }
}

/// Taking a waiter off the count.
#[derive(Clone, Copy, Debug, PartialEq, Eq, Structural)]
pub enum DropWaiter {
    /// About to read the count.
    Read,
    /// Has read a count other than 0 and is about to lower it.
    Lower { seen: u32 },
    /// Has left `remaining` waiters.
    Done { remaining: u32 },
}

impl DropWaiter {
    /// What the thread does next; `None` if there is nothing left to do.
    pub open spec fn spec_action(self) -> Option<Action> {
        match self {
            DropWaiter::Read => Some(
                Action::Load { word: Word::Waiters, order: MemOrder::Acquire },
            ),
            DropWaiter::Lower { seen } => Some(
                Action::Exchange {
                    word: Word::Waiters,
                    expect: seen,
                    new: seen.wrapping_sub(1),
                    weak: true,
                    success: MemOrder::AcqRel,
                    failure: MemOrder::Acquire,
                },
            ),
            DropWaiter::Done { .. } => None,
        }
    }

    /// Where the thread stands after `reply`. A count of 0 stays 0, and a
    /// count that another thread has changed meanwhile is read again.
    pub open spec fn spec_next(self, reply: Reply) -> Self {
        match self {
            DropWaiter::Read => if reply.word == 0 {
                DropWaiter::Done { remaining: 0 }
            } else {
                DropWaiter::Lower { seen: reply.word }
            },
            DropWaiter::Lower { seen } => if reply.swapped {
                DropWaiter::Done { remaining: seen.wrapping_sub(1) }
            } else {
                DropWaiter::Read
            },
            DropWaiter::Done { .. } => self,
        }
    }

    /// What the thread does next; `None` if there is nothing left to do.
    pub fn action(&self) -> (action: Option<Action>)
        ensures
            action == self.spec_action(),
    {
        match *self {
            DropWaiter::Read => Some(
                Action::Load { word: Word::Waiters, order: MemOrder::Acquire },
            ),
            DropWaiter::Lower { seen } => Some(
                Action::Exchange {
                    word: Word::Waiters,
                    expect: seen,
                    new: seen.wrapping_sub(1),
                    weak: true,
                    success: MemOrder::AcqRel,
                    failure: MemOrder::Acquire,
                },
            ),
            DropWaiter::Done { .. } => None,
        }
    }

    /// Where the thread stands after `reply`.
    pub fn next(self, reply: Reply) -> (next: Self)
        ensures
            next == self.spec_next(reply),
    {
        match self {
            DropWaiter::Read => if reply.word == 0 {
                DropWaiter::Done { remaining: 0 }
            } else {
                DropWaiter::Lower { seen: reply.word }
            },
            DropWaiter::Lower { seen } => if reply.swapped {
                DropWaiter::Done { remaining: seen.wrapping_sub(1) }
            } else {
                DropWaiter::Read
            },
            DropWaiter::Done { .. } => self,
        }
    }
}

/// Takes one waiter off the count and returns how many are left. A count of
/// 0 stays 0.
pub fn dec_waiters(lock: &mut SpinparkLock) -> (remaining: u32)
    ensures
        remaining == if old(lock).waiters == 0 {
            0
        } else {
            old(lock).waiters - 1
        },
        *final(lock) == (SpinparkLock { waiters: remaining, ..*old(lock) }),
{
    let ghost start = *lock;
    let mut step = DropWaiter::Read;
    loop
        invariant
            start == *old(lock),
            match step {
                DropWaiter::Read => *lock == start,
                DropWaiter::Lower { seen } => *lock == start && seen == start.waiters && seen != 0,
                DropWaiter::Done { remaining } => {
                    &&& remaining == if start.waiters == 0 {
                        0
                    } else {
                        start.waiters - 1
                    }
                    &&& *lock == (SpinparkLock { waiters: remaining, ..start })
                },
            },
        decreases
            match step {
                DropWaiter::Read => 2int,
                DropWaiter::Lower { .. } => 1,
                DropWaiter::Done { .. } => 0,
            },
    {
        if let DropWaiter::Done { remaining } = step {
            return remaining;
        }
        if let Some(action) = step.action() {
            let reply = apply(lock, action);
            step = step.next(reply);
        }
    }
}

/// Leaving the ranks of the waiters after the lock was taken: the thread
/// takes itself off the count and writes the state that the others see.
#[derive(Clone, Copy, Debug, PartialEq, Eq, Structural)]
pub enum Settle {
    /// Is taking itself off the count.
    Leave { step: DropWaiter },
    /// About to write the state of the lock.
    Store { state: u32 },
    Done,
}

impl Settle {
    /// The first step.
    pub open spec fn spec_start() -> Self {
        Settle::Leave { step: DropWaiter::Read }
    }

    /// What the thread does next; `None` if there is nothing left to do.
    pub open spec fn spec_action(self) -> Option<Action> {
        match self {
            Settle::Leave { step } => step.spec_action(),
            Settle::Store { state } => Some(
                Action::Store { word: Word::Data, value: state, order: MemOrder::Release },
            ),
            Settle::Done => None,
        }
    }

    /// Where the thread stands after `reply`.
    pub open spec fn spec_next(self, reply: Reply) -> Self {
        match self {
            Settle::Leave { step } => match step.spec_next(reply) {
                DropWaiter::Done { remaining } => Settle::Store {
                    state: held_state(remaining as int),
                },
                step => Settle::Leave { step },
            },
            Settle::Store { .. } => Settle::Done,
            Settle::Done => Settle::Done,
        }
    }

    /// The first step.
    pub fn start() -> (start: Self)
        ensures
            start == Self::spec_start(),
    {
        Settle::Leave { step: DropWaiter::Read }
    }

    /// What the thread does next; `None` if there is nothing left to do.
    pub fn action(&self) -> (action: Option<Action>)
        ensures
            action == self.spec_action(),
    {
        match *self {
            Settle::Leave { step } => step.action(),
            Settle::Store { state } => Some(
                Action::Store { word: Word::Data, value: state, order: MemOrder::Release },
            ),
            Settle::Done => None,
        }
    }

    /// Where the thread stands after `reply`.
    pub fn next(self, reply: Reply) -> (next: Self)
        ensures
            next == self.spec_next(reply),
    {
        match self {
            Settle::Leave { step } => match step.next(reply) {
                DropWaiter::Done { remaining } => if remaining > 0 {
                    Settle::Store { state: LOCK_STATE_QUEUED }
                } else {
                    Settle::Store { state: LOCK_STATE_LOCKED }
                },
                step => Settle::Leave { step },
            },
            Settle::Store { .. } => Settle::Done,
            Settle::Done => Settle::Done,
        }
    }
}

/// Number of waiters after one has left.
pub open spec fn less_one(waiters: u32) -> u32 {
    if waiters == 0 {
        0
    } else {
        (waiters - 1) as u32
    }
}

/// The lock after a waiter that took it has settled.
pub open spec fn settled(lock: SpinparkLock) -> SpinparkLock {
    SpinparkLock {
        waiters: less_one(lock.waiters),
        data: held_state(less_one(lock.waiters) as int),
        ..lock
    }
}

/// Settles a thread that has just taken the lock. A thread that was counted
/// as a waiter leaves the count, and the state says whether others remain; a
/// thread that was not changes nothing.
pub fn settle_post_acquire(lock: &mut SpinparkLock, waiter_accounted: &mut bool)
    ensures
        *final(lock) == if *old(waiter_accounted) {
            settled(*old(lock))
        } else {
            *old(lock)
        },
        !*final(waiter_accounted),
{
    if !*waiter_accounted {
        return;
    }
    let ghost start = *lock;
    let mut step = Settle::start();
    loop
        invariant
            start == *old(lock),
            *old(waiter_accounted),
            match step {
                Settle::Leave { step: DropWaiter::Read } => *lock == start,
                Settle::Leave { step: DropWaiter::Lower { seen } } => *lock == start && seen
                    == start.waiters && seen != 0,
                Settle::Leave { step: DropWaiter::Done { .. } } => false,
                Settle::Store { state } => {
                    &&& *lock == SpinparkLock { waiters: less_one(start.waiters), ..start }
                    &&& state == held_state(lock.waiters as int)
                },
                Settle::Done => *lock == settled(start),
            },
        decreases
            match step {
                Settle::Leave { step: DropWaiter::Read } => 3int,
                Settle::Leave { .. } => 2,
                Settle::Store { .. } => 1,
                Settle::Done => 0,
            },
    {
        match step.action() {
            Some(action) => {
                let reply = apply(lock, action);
                step = step.next(reply);
            },
            None => {
                *waiter_accounted = false;
                return;
            },
        }
    }
}

/// Trying to take a lock that a release may be offering.
#[derive(Clone, Copy, Debug, PartialEq, Eq, Structural)]
pub enum Consume {
    /// About to accept the offer, if there is one.
    Accept,
    /// Has taken the lock and leaves the ranks of the waiters.
    Settle { step: Settle },
    /// Has taken the lock without having been counted as a waiter, and is
    /// about to look whether there are any.
    ReadWaiters,
    /// About to write the state of the lock.
    Store { state: u32 },
    CountTaken,
    CountAcquire,
    Done { taken: bool },
}

impl Consume {
    /// What the thread does next; `None` if there is nothing left to do.
    pub open spec fn spec_action(self) -> Option<Action> {
        match self {
            Consume::Accept => Some(
                Action::Exchange {
                    word: Word::Handoff,
                    expect: 1,
                    new: 0,
                    weak: false,
                    success: MemOrder::AcqRel,
                    failure: MemOrder::Acquire,
                },
            ),
            Consume::Settle { step } => step.spec_action(),
            Consume::ReadWaiters => Some(
                Action::Load { word: Word::Waiters, order: MemOrder::Acquire },
            ),
            Consume::Store { state } => Some(
                Action::Store { word: Word::Data, value: state, order: MemOrder::Release },
            ),
            Consume::CountTaken => Some(Action::Count { counter: Counter::HandoffTaken }),
            Consume::CountAcquire => Some(Action::Count { counter: Counter::LockAcquire }),
            Consume::Done { .. } => None,
        }
    }

    /// Where the thread stands after `reply`. `accounted` says whether it was
    /// counted as a waiter when it accepted.
    pub open spec fn spec_next(self, accounted: bool, reply: Reply) -> Self {
        match self {
            Consume::Accept => if !reply.swapped {
                Consume::Done { taken: false }
            } else if accounted {
                Consume::Settle { step: Settle::spec_start() }
            } else {
                Consume::ReadWaiters
            },
            Consume::Settle { step } => match step.spec_next(reply) {
                Settle::Done => Consume::CountTaken,
                step => Consume::Settle { step },
            },
            Consume::ReadWaiters => Consume::Store { state: held_state(reply.word as int) },
            Consume::Store { .. } => Consume::CountTaken,
            Consume::CountTaken => Consume::CountAcquire,
            Consume::CountAcquire => Consume::Done { taken: true },
            Consume::Done { .. } => self,
        }
    }

    /// What the thread does next; `None` if there is nothing left to do.
    pub fn action(&self) -> (action: Option<Action>)
        ensures
            action == self.spec_action(),
    {
        match *self {
            Consume::Accept => Some(
                Action::Exchange {
                    word: Word::Handoff,
                    expect: 1,
                    new: 0,
                    weak: false,
                    success: MemOrder::AcqRel,
                    failure: MemOrder::Acquire,
                },
            ),
            Consume::Settle { step } => step.action(),
            Consume::ReadWaiters => Some(
                Action::Load { word: Word::Waiters, order: MemOrder::Acquire },
            ),
            Consume::Store { state } => Some(
                Action::Store { word: Word::Data, value: state, order: MemOrder::Release },
            ),
            Consume::CountTaken => Some(Action::Count { counter: Counter::HandoffTaken }),
            Consume::CountAcquire => Some(Action::Count { counter: Counter::LockAcquire }),
            Consume::Done { .. } => None,
        }
    }

    /// Where the thread stands after `reply`.
    pub fn next(self, accounted: bool, reply: Reply) -> (next: Self)
        ensures
            next == self.spec_next(accounted, reply),
    {
        match self {
            Consume::Accept => if !reply.swapped {
                Consume::Done { taken: false }
            } else if accounted {
                Consume::Settle { step: Settle::start() }
            } else {
                Consume::ReadWaiters
            },
            Consume::Settle { step } => match step.next(reply) {
                Settle::Done => Consume::CountTaken,
                step => Consume::Settle { step },
            },
            Consume::ReadWaiters => if reply.word == 0 {
                Consume::Store { state: LOCK_STATE_LOCKED }
            } else {
                Consume::Store { state: LOCK_STATE_QUEUED }
            },
            Consume::Store { .. } => Consume::CountTaken,
            Consume::CountTaken => Consume::CountAcquire,
            Consume::CountAcquire => Consume::Done { taken: true },
            Consume::Done { .. } => self,
        }
    }
}

/// The lock after an offer was accepted.
pub open spec fn consumed(lock: SpinparkLock, accounted: bool) -> SpinparkLock {
    if accounted {
        settled(SpinparkLock { handoff: 0, ..lock })
    } else {
        SpinparkLock { handoff: 0, data: held_state(lock.waiters as int), ..lock }
    }
}

/// Takes the lock if a release is offering it, and says whether it did. If
/// there is no offer, nothing changes.
pub fn try_consume_handoff(
    lock: &mut SpinparkLock,
    waiter_accounted: &mut bool,
    counters: &mut YieldCounters,
) -> (taken: bool)
    ensures
        taken == (old(lock).handoff == 1),
        *final(lock) == if taken {
            consumed(*old(lock), *old(waiter_accounted))
        } else {
            *old(lock)
        },
        *final(waiter_accounted) == (*old(waiter_accounted) && !taken),
        forall|c: Counter| #[trigger]
            final(counters).value(c) == if taken && (c == Counter::HandoffTaken || c
                == Counter::LockAcquire) {
                old(counters).value(c).wrapping_add(1)
            } else {
                old(counters).value(c)
            },
{
    let ghost start = *lock;
    let ghost tally = *counters;
    let accounted: bool = *waiter_accounted;
    let mut step = Consume::Accept;
    loop
        invariant
            start == *old(lock),
            tally == *old(counters),
            accounted == *old(waiter_accounted),
            *waiter_accounted == accounted,
            step != Consume::Accept && step != (Consume::Done { taken: false }) ==> start.handoff
                == 1,
            match step {
                Consume::Accept => *lock == start,
                Consume::Settle { step: inner } => {
                    let base = SpinparkLock { handoff: 0, ..start };
                    &&& accounted
                    &&& match inner {
                        Settle::Leave { step: DropWaiter::Read } => *lock == base,
                        Settle::Leave { step: DropWaiter::Lower { seen } } => *lock == base && seen
                            == start.waiters && seen != 0,
                        Settle::Leave { step: DropWaiter::Done { .. } } => false,
                        Settle::Store { state } => {
                            &&& *lock == SpinparkLock { waiters: less_one(start.waiters), ..base }
                            &&& state == held_state(lock.waiters as int)
                        },
                        Settle::Done => false,
                    }
                },
                Consume::ReadWaiters => !accounted && *lock == (SpinparkLock {
                    handoff: 0,
                    ..start
                }),
                Consume::Store { state } => !accounted && *lock == (SpinparkLock {
                    handoff: 0,
                    ..start
                }) && state == held_state(start.waiters as int),
                Consume::CountTaken | Consume::CountAcquire => *lock == consumed(start, accounted),
                Consume::Done { taken } => {
                    &&& taken == (start.handoff == 1)
                    &&& *lock == if taken {
                        consumed(start, accounted)
                    } else {
                        start
                    }
                },
            },
            forall|c: Counter| #[trigger]
                counters.value(c) == if (c == Counter::HandoffTaken && (step
                    == Consume::CountAcquire || step == (Consume::Done { taken: true }))) || (c
                    == Counter::LockAcquire && step == (Consume::Done { taken: true })) {
                    tally.value(c).wrapping_add(1)
                } else {
                    tally.value(c)
                },
        decreases
            match step {
                Consume::Accept => 8int,
                Consume::Settle { step: Settle::Leave { step: DropWaiter::Read } } => 7,
                Consume::Settle { step: Settle::Leave { .. } } => 6,
                Consume::Settle { .. } => 5,
                Consume::ReadWaiters => 4,
                Consume::Store { .. } => 3,
                Consume::CountTaken => 2,
                Consume::CountAcquire => 1,
                Consume::Done { .. } => 0,
            },
    {
        match step.action() {
            Some(action) => {
                let reply = perform(lock, counters, action);
                step = step.next(accounted, reply);
            },
            None => {
                if let Consume::Done { taken: true } = step {
                    *waiter_accounted = false;
                    return true;
                }
                return false;
            },
        }
    }
}

} // verus!

//! Taking a lock.

use crate::counters::{Counter, YieldCounters};
use crate::vip::{is_vip_dsq, vip_dsq_valid};
use crate::waiting::{
    consumed, contend_action, contend_exchange, held_state, less_one, Consume, DropWaiter, Settle,
};
use crate::words::{
    effect, perform, tell, tells, Action, Errno, MemOrder, Reply, SpinparkLock, Word,
    LOCK_STATE_LOCKED, LOCK_STATE_QUEUED, LOCK_STATE_UNLOCKED, YIELD_LOCK_CONTENTION,
};
use vstd::prelude::*;

verus! {

/// Rounds that a thread spins before it first gives up its CPU.
pub const SPINPARK_SPIN_TIME: u32 = 256;
/// Rounds that a thread spins between two yields once it is counted as a
/// waiter.
pub const SPINPARK_WAIT_SPIN_TIME: u32 = 4096;

/// The exchange by which a thread takes a free lock.
pub open spec fn take_exchange(weak: bool) -> Action {
    Action::Exchange {
        word: Word::Data,
        expect: LOCK_STATE_UNLOCKED,
        new: LOCK_STATE_LOCKED,
        weak,
        success: MemOrder::Acquire,
        failure: MemOrder::Relaxed,
    }
}

fn take_action(weak: bool) -> (action: Action)
    ensures
        action == take_exchange(weak),
{
    Action::Exchange {
        word: Word::Data,
        expect: LOCK_STATE_UNLOCKED,
        new: LOCK_STATE_LOCKED,
        weak,
        success: MemOrder::Acquire,
        failure: MemOrder::Relaxed,
    }
}

/// One attempt to take a lock without waiting.
#[derive(Clone, Copy, Debug, PartialEq, Eq, Structural)]
pub enum TryAttempt {
    /// About to take the lock, if it is free.
    Take,
    /// Has taken the lock and is about to count that.
    Count,
    /// The outcome.
    Done { taken: bool },
}

impl TryAttempt {
    /// What the thread does next; `None` if there is nothing left to do.
    pub open spec fn spec_action(self) -> Option<Action> {
        match self {
            TryAttempt::Take => Some(take_exchange(false)),
            TryAttempt::Count => Some(Action::Count { counter: Counter::LockAcquire }),
            TryAttempt::Done { .. } => None,
        }
    }

    /// Where the thread stands after `reply`.
    pub open spec fn spec_next(self, reply: Reply) -> Self {
        match self {
            TryAttempt::Take => if reply.swapped {
                TryAttempt::Count
            } else {
                TryAttempt::Done { taken: false }
            },
            TryAttempt::Count => TryAttempt::Done { taken: true },
            TryAttempt::Done { .. } => self,
        }
    }

    /// What the thread does next; `None` if there is nothing left to do.
    pub fn action(&self) -> (action: Option<Action>)
        ensures
            action == self.spec_action(),
    {
        match *self {
            TryAttempt::Take => Some(take_action(false)),
            TryAttempt::Count => Some(Action::Count { counter: Counter::LockAcquire }),
            TryAttempt::Done { .. } => None,
        }
    }

    /// Where the thread stands after `reply`.
    pub fn next(self, reply: Reply) -> (next: Self)
        ensures
            next == self.spec_next(reply),
    {
        match self {
            TryAttempt::Take => if reply.swapped {
                TryAttempt::Count
            } else {
                TryAttempt::Done { taken: false }
            },
            TryAttempt::Count => TryAttempt::Done { taken: true },
            TryAttempt::Done { .. } => self,
        }
    }

    /// What the caller is told once the attempt is over; `None` before.
    pub fn outcome(&self) -> (outcome: Option<Result<(), Errno>>)
        ensures
            outcome == match *self {
                TryAttempt::Done { taken: true } => Some(Ok::<(), Errno>(())),
                TryAttempt::Done { taken: false } => Some(Err::<(), Errno>(Errno::Busy)),
                _ => None,
            },
    {
        match *self {
            TryAttempt::Done { taken: true } => Some(Ok(())),
            TryAttempt::Done { taken: false } => Some(Err(Errno::Busy)),
            _ => None,
        }
    }
}

/// Takes the lock if it is free, and fails with [`Errno::Busy`] if it is not.
pub fn spinpark_trylock(lock: &mut SpinparkLock, counters: &mut YieldCounters) -> (outcome: Result<
    (),
    Errno,
>)
    ensures
        outcome == if old(lock).data == LOCK_STATE_UNLOCKED {
            Ok::<(), Errno>(())
        } else {
            Err::<(), Errno>(Errno::Busy)
        },
        outcome is Ok ==> *final(lock) == (SpinparkLock { data: LOCK_STATE_LOCKED, ..*old(lock) })
            && final(counters).bumped(*old(counters), Counter::LockAcquire),
        outcome is Err ==> *final(lock) == *old(lock) && *final(counters) == *old(counters),
{
    let mut step = TryAttempt::Take;
    loop
        invariant
            match step {
                TryAttempt::Take => *lock == *old(lock) && *counters == *old(counters),
                TryAttempt::Count => {
                    &&& old(lock).data == LOCK_STATE_UNLOCKED
                    &&& *lock == SpinparkLock { data: LOCK_STATE_LOCKED, ..*old(lock) }
                    &&& *counters == *old(counters)
                },
                TryAttempt::Done { taken: true } => {
                    &&& old(lock).data == LOCK_STATE_UNLOCKED
                    &&& *lock == SpinparkLock { data: LOCK_STATE_LOCKED, ..*old(lock) }
                    &&& counters.bumped(*old(counters), Counter::LockAcquire)
                },
                TryAttempt::Done { taken: false } => {
                    &&& old(lock).data != LOCK_STATE_UNLOCKED
                    &&& *lock == *old(lock)
                    &&& *counters == *old(counters)
                },
            },
        decreases
            match step {
                TryAttempt::Take => 2int,
                TryAttempt::Count => 1,
                TryAttempt::Done { .. } => 0,
            },
    {
        if let Some(outcome) = step.outcome() {
            return outcome;
        }
        if let Some(action) = step.action() {
            let reply = perform(lock, counters, action);
            step = step.next(reply);
        }
    }
}

/// The places in an attempt where a thread looks for an offer.
#[derive(Clone, Copy, Debug, PartialEq, Eq, Structural)]
pub enum Site {
    /// While it spins, counted as a waiter.
    Spinning,
    /// Right before it parks.
    Parking,
    /// Right after it got its CPU back.
    Woken,
}

/// Where a thread stands in an attempt at a lock.
#[derive(Clone, Copy, Debug, PartialEq, Eq, Structural)]
pub enum LockAt {
    /// About to look whether the lock is free.
    TestFree,
    /// Has seen the lock free and is about to take it.
    TakeFree,
    /// Counted as a waiter, about to look whether the lock may be on offer.
    PeekQueued,
    /// Looks for an offer.
    Consume { site: Site, step: Consume },
    /// About to spin for a round.
    Spin,
    /// About to count a yield for a lock without a queue.
    CountFallback,
    /// About to yield for a lock without a queue.
    FallbackYield,
    /// About to mark the lock as queued for.
    MarkContended,
    /// About to be counted as a waiter.
    Announce,
    /// Counted as a waiter, about to look once more whether the lock is free.
    Recheck,
    /// Has seen the lock free and is about to take it.
    Retake,
    /// About to make sure that the scheduler will find the report.
    Register,
    /// About to leave the report.
    Publish,
    /// About to count the yield.
    CountPark,
    /// About to yield to the scheduler.
    ParkYield,
    /// Has taken the lock and leaves the ranks of the waiters.
    Settle { settle: Settle },
    /// Has taken the lock and is about to count that.
    CountAcquire,
    /// Holds the lock.
    Acquired,
}

/// One attempt to take a lock, waiting as long as it takes.
#[derive(Clone, Copy, Debug, PartialEq, Eq, Structural)]
pub struct LockAttempt {
    pub at: LockAt,
    /// The queue that belongs to the lock.
    pub vip_dsq_id: u64,
    /// Rounds since the last yield.
    pub spin_count: u32,
    /// Whether the thread is counted as a waiter.
    pub waiter_accounted: bool,
    /// Whether the thread is about to park for the first time.
    pub first_park: bool,
}

impl LockAttempt {
    /// A fresh attempt at a lock with the given queue.
    pub open spec fn spec_new(vip_dsq_id: u64) -> Self {
        LockAttempt {
            at: LockAt::TestFree,
            vip_dsq_id,
            spin_count: 0,
            waiter_accounted: false,
            first_park: false,
        }
    }

    /// The same attempt at another place.
    pub open spec fn moved(self, at: LockAt) -> Self {
        LockAttempt { at, ..self }
    }

    /// How many rounds the thread spins before it yields.
    pub open spec fn spin_limit(self) -> u32 {
        if self.waiter_accounted {
            SPINPARK_WAIT_SPIN_TIME
        } else {
            SPINPARK_SPIN_TIME
        }
    }

    /// The lock could not be had: the thread spins for another round, or
    /// yields if it has spun enough.
    pub open spec fn missed(self) -> Self {
        let round = LockAttempt { spin_count: self.spin_count.wrapping_add(1), ..self };
        if round.spin_count < round.spin_limit() {
            round.moved(LockAt::Spin)
        } else if !is_vip_dsq(self.vip_dsq_id) {
            round.moved(LockAt::CountFallback)
        } else {
            round.moved(LockAt::MarkContended)
        }
    }

    /// The lock was not free: a waiter looks whether it may be on offer.
    pub open spec fn not_free(self) -> Self {
        if self.waiter_accounted && is_vip_dsq(self.vip_dsq_id) {
            self.moved(LockAt::PeekQueued)
        } else {
            self.missed()
        }
    }

    /// The lock was free and is taken: a waiter leaves the ranks first.
    pub open spec fn took_free(self) -> Self {
        if self.waiter_accounted {
            self.moved(LockAt::Settle { settle: Settle::spec_start() })
        } else {
            self.moved(LockAt::CountAcquire)
        }
    }

    /// There was no offer.
    pub open spec fn not_offered(self, site: Site) -> Self {
        match site {
            Site::Spinning => self.missed(),
            Site::Parking => self.moved(LockAt::Register),
            Site::Woken => LockAttempt { spin_count: 0, ..self.moved(LockAt::TestFree) },
        }
    }

    /// What the thread does next; `None` once it holds the lock.
    pub open spec fn spec_action(self) -> Option<Action> {
        match self.at {
            LockAt::TestFree => Some(Action::Load { word: Word::Data, order: MemOrder::Relaxed }),
            LockAt::TakeFree => Some(take_exchange(true)),
            LockAt::PeekQueued => Some(Action::Load { word: Word::Data, order: MemOrder::Acquire }),
            LockAt::Consume { site: _, step } => step.spec_action(),
            LockAt::Spin => Some(Action::Spin),
            LockAt::CountFallback => Some(Action::Count { counter: Counter::FallbackYield }),
            LockAt::FallbackYield => Some(Action::Yield),
            LockAt::MarkContended => Some(contend_exchange()),
            LockAt::Announce => Some(
                Action::Add { word: Word::Waiters, delta: 1, order: MemOrder::AcqRel },
            ),
            LockAt::Recheck => Some(Action::Load { word: Word::Data, order: MemOrder::Acquire }),
            LockAt::Retake => Some(take_exchange(false)),
            LockAt::Register => Some(Action::Register),
            LockAt::Publish => Some(
                Action::Publish { reason: YIELD_LOCK_CONTENTION, vip_dsq_id: self.vip_dsq_id },
            ),
            LockAt::CountPark => Some(
                Action::Count {
                    counter: if self.first_park {
                        Counter::ContentionYield
                    } else {
                        Counter::RequeueYield
                    },
                },
            ),
            LockAt::ParkYield => Some(Action::Yield),
            LockAt::Settle { settle } => settle.spec_action(),
            LockAt::CountAcquire => Some(Action::Count { counter: Counter::LockAcquire }),
            LockAt::Acquired => None,
        }
    }

    /// Where the attempt stands after `reply`.
    pub open spec fn spec_next(self, reply: Reply) -> Self {
        match self.at {
            LockAt::TestFree => if reply.word == LOCK_STATE_UNLOCKED {
                self.moved(LockAt::TakeFree)
            } else {
                self.not_free()
            },
            LockAt::TakeFree => if reply.swapped {
                self.took_free()
            } else {
                self.not_free()
            },
            LockAt::PeekQueued => if reply.word == LOCK_STATE_QUEUED {
                self.moved(LockAt::Consume { site: Site::Spinning, step: Consume::Accept })
            } else {
                self.missed()
            },
            LockAt::Consume { site, step } => match step.spec_next(self.waiter_accounted, reply) {
                Consume::Done { taken: false } => self.not_offered(site),
                Consume::Done { taken: true } => LockAttempt {
                    waiter_accounted: false,
                    ..self.moved(LockAt::Acquired)
                },
                step => self.moved(LockAt::Consume { site, step }),
            },
            LockAt::Spin => self.moved(LockAt::TestFree),
            LockAt::CountFallback => self.moved(LockAt::FallbackYield),
            LockAt::FallbackYield => LockAttempt { spin_count: 0, ..self.moved(LockAt::TestFree) },
            LockAt::MarkContended => LockAttempt {
                first_park: !self.waiter_accounted,
                ..self.moved(
                    if self.waiter_accounted {
                        LockAt::Recheck
                    } else {
                        LockAt::Announce
                    },
                )
            },
            LockAt::Announce => LockAttempt {
                waiter_accounted: true,
                ..self.moved(LockAt::Recheck)
            },
            LockAt::Recheck => if reply.word == LOCK_STATE_UNLOCKED {
                self.moved(LockAt::Retake)
            } else {
                self.moved(LockAt::Consume { site: Site::Parking, step: Consume::Accept })
            },
            LockAt::Retake => if reply.swapped {
                self.took_free()
            } else {
                self.moved(LockAt::Consume { site: Site::Parking, step: Consume::Accept })
            },
            LockAt::Register => self.moved(LockAt::Publish),
            LockAt::Publish => self.moved(LockAt::CountPark),
            LockAt::CountPark => self.moved(LockAt::ParkYield),
            LockAt::ParkYield => self.moved(
                LockAt::Consume { site: Site::Woken, step: Consume::Accept },
            ),
            LockAt::Settle { settle } => match settle.spec_next(reply) {
                Settle::Done => LockAttempt {
                    waiter_accounted: false,
                    ..self.moved(LockAt::CountAcquire)
                },
                settle => self.moved(LockAt::Settle { settle }),
            },
            LockAt::CountAcquire => self.moved(LockAt::Acquired),
            LockAt::Acquired => self,
        }
    }

    /// A fresh attempt at a lock with the given queue.
    pub fn new(vip_dsq_id: u64) -> (attempt: Self)
        ensures
            attempt == Self::spec_new(vip_dsq_id),
    {
        LockAttempt {
            at: LockAt::TestFree,
            vip_dsq_id,
            spin_count: 0,
            waiter_accounted: false,
            first_park: false,
        }
    }

    fn set_missed(&mut self)
        ensures
            *final(self) == old(self).missed(),
    {
        self.spin_count = self.spin_count.wrapping_add(1);
        let spin_limit: u32 = if self.waiter_accounted {
            SPINPARK_WAIT_SPIN_TIME
        } else {
            SPINPARK_SPIN_TIME
        };
        if self.spin_count < spin_limit {
            self.at = LockAt::Spin;
        } else if !vip_dsq_valid(self.vip_dsq_id) {
            self.at = LockAt::CountFallback;
        } else {
            self.at = LockAt::MarkContended;
        }
    }

    fn set_not_free(&mut self)
        ensures
            *final(self) == old(self).not_free(),
    {
        if self.waiter_accounted && vip_dsq_valid(self.vip_dsq_id) {
            self.at = LockAt::PeekQueued;
        } else {
            self.set_missed();
        }
    }

    fn set_took_free(&mut self)
        ensures
            *final(self) == old(self).took_free(),
    {
        if self.waiter_accounted {
            self.at = LockAt::Settle { settle: Settle::start() };
        } else {
            self.at = LockAt::CountAcquire;
        }
    }

    fn set_not_offered(&mut self, site: Site)
        ensures
            *final(self) == old(self).not_offered(site),
    {
        match site {
            Site::Spinning => self.set_missed(),
            Site::Parking => {
                self.at = LockAt::Register;
            },
            Site::Woken => {
                self.spin_count = 0;
                self.at = LockAt::TestFree;
            },
        }
    }

    /// What the thread does next; `None` once it holds the lock.
    pub fn action(&self) -> (action: Option<Action>)
        ensures
            action == self.spec_action(),
    {
        match self.at {
            LockAt::TestFree => Some(Action::Load { word: Word::Data, order: MemOrder::Relaxed }),
            LockAt::TakeFree => Some(take_action(true)),
            LockAt::PeekQueued | LockAt::Recheck => Some(
                Action::Load { word: Word::Data, order: MemOrder::Acquire },
            ),
            LockAt::Consume { site: _, step } => step.action(),
            LockAt::Spin => Some(Action::Spin),
            LockAt::CountFallback => Some(Action::Count { counter: Counter::FallbackYield }),
            LockAt::FallbackYield | LockAt::ParkYield => Some(Action::Yield),
            LockAt::MarkContended => Some(contend_action()),
            LockAt::Announce => Some(
                Action::Add { word: Word::Waiters, delta: 1, order: MemOrder::AcqRel },
            ),
            LockAt::Retake => Some(take_action(false)),
            LockAt::Register => Some(Action::Register),
            LockAt::Publish => Some(
                Action::Publish { reason: YIELD_LOCK_CONTENTION, vip_dsq_id: self.vip_dsq_id },
            ),
            LockAt::CountPark => Some(
                Action::Count {
                    counter: if self.first_park {
                        Counter::ContentionYield
                    } else {
                        Counter::RequeueYield
                    },
                },
            ),
            LockAt::Settle { settle } => settle.action(),
            LockAt::CountAcquire => Some(Action::Count { counter: Counter::LockAcquire }),
            LockAt::Acquired => None,
        }
    }

    /// Moves the attempt on with the reply to its action.
    pub fn advance(&mut self, reply: Reply)
        ensures
            *final(self) == old(self).spec_next(reply),
    {
        match self.at {
            LockAt::TestFree => if reply.word == LOCK_STATE_UNLOCKED {
                self.at = LockAt::TakeFree;
            } else {
                self.set_not_free();
            },
            LockAt::TakeFree => if reply.swapped {
                self.set_took_free();
            } else {
                self.set_not_free();
            },
            LockAt::PeekQueued => if reply.word == LOCK_STATE_QUEUED {
                self.at = LockAt::Consume { site: Site::Spinning, step: Consume::Accept };
            } else {
                self.set_missed();
            },
            LockAt::Consume { site, step } => match step.next(self.waiter_accounted, reply) {
                Consume::Done { taken: false } => self.set_not_offered(site),
                Consume::Done { taken: true } => {
                    self.waiter_accounted = false;
                    self.at = LockAt::Acquired;
                },
                step => {
                    self.at = LockAt::Consume { site, step };
                },
            },
            LockAt::Spin => {
                self.at = LockAt::TestFree;
            },
            LockAt::CountFallback => {
                self.at = LockAt::FallbackYield;
            },
            LockAt::FallbackYield => {
                self.spin_count = 0;
                self.at = LockAt::TestFree;
            },
            LockAt::MarkContended => {
                self.first_park = !self.waiter_accounted;
                self.at = if self.waiter_accounted {
                    LockAt::Recheck
                } else {
                    LockAt::Announce
                };
            },
            LockAt::Announce => {
                self.waiter_accounted = true;
                self.at = LockAt::Recheck;
            },
            LockAt::Recheck => {
                self.at = if reply.word == LOCK_STATE_UNLOCKED {
                    LockAt::Retake
                } else {
                    LockAt::Consume { site: Site::Parking, step: Consume::Accept }
                };
            },
            LockAt::Retake => if reply.swapped {
                self.set_took_free();
            } else {
                self.at = LockAt::Consume { site: Site::Parking, step: Consume::Accept };
            },
            LockAt::Register => {
                self.at = LockAt::Publish;
            },
            LockAt::Publish => {
                self.at = LockAt::CountPark;
            },
            LockAt::CountPark => {
                self.at = LockAt::ParkYield;
            },
            LockAt::ParkYield => {
                self.at = LockAt::Consume { site: Site::Woken, step: Consume::Accept };
            },
            LockAt::Settle { settle } => match settle.next(reply) {
                Settle::Done => {
                    self.waiter_accounted = false;
                    self.at = LockAt::CountAcquire;
                },
                settle => {
                    self.at = LockAt::Settle { settle };
                },
            },
            LockAt::CountAcquire => {
                self.at = LockAt::Acquired;
            },
            LockAt::Acquired => {},
        }
    }
}

/// Whether a thread that is left alone with `lock` can take it.
pub open spec fn obtainable(lock: SpinparkLock) -> bool {
    lock.data == LOCK_STATE_UNLOCKED || (lock.handoff == 1 && is_vip_dsq(lock.vip_dsq_id))
}

/// The lock after a thread that is left alone with it has taken it.
pub open spec fn obtained(lock: SpinparkLock) -> SpinparkLock {
    if lock.data == LOCK_STATE_UNLOCKED {
        SpinparkLock { data: LOCK_STATE_LOCKED, ..lock }
    } else {
        consumed(SpinparkLock { waiters: lock.waiters.wrapping_add(1), ..lock }, true)
    }
}

/// Whether `after` is `before` with one acquisition of `lock` counted.
pub open spec fn counted_acquire(
    lock: SpinparkLock,
    before: YieldCounters,
    after: YieldCounters,
) -> bool {
    forall|c: Counter| #[trigger]
        after.value(c) == if c == Counter::LockAcquire || (c == Counter::HandoffTaken && lock.data
            != LOCK_STATE_UNLOCKED) {
            before.value(c).wrapping_add(1)
        } else {
            before.value(c)
        }
}

impl LockAttempt {
    /// Whether the attempt has got here from a fresh one at the obtainable
    /// lock `start` with the counters `tally`, alone, leaving `lock` and
    /// `counters`.
    pub open spec fn alone(
        self,
        start: SpinparkLock,
        tally: YieldCounters,
        lock: SpinparkLock,
        counters: YieldCounters,
    ) -> bool {
        &&& obtainable(start)
        &&& self.vip_dsq_id == start.vip_dsq_id
        &&& self.spin_count <= SPINPARK_SPIN_TIME
        &&& if start.data == LOCK_STATE_UNLOCKED {
            self.alone_with_free(start, lock)
        } else {
            self.alone_with_offer(start, lock)
        }
        &&& match self.at {
            LockAt::Consume { site: _, step: Consume::CountAcquire } => counters.bumped(
                tally,
                Counter::HandoffTaken,
            ),
            LockAt::Acquired => counted_acquire(start, tally, counters),
            _ => counters.same(tally),
        }
    }

    /// [`LockAttempt::alone`] for a lock that is free at the start.
    pub open spec fn alone_with_free(self, start: SpinparkLock, lock: SpinparkLock) -> bool {
        match self.at {
            LockAt::TestFree | LockAt::TakeFree => lock == start && !self.waiter_accounted,
            LockAt::CountAcquire | LockAt::Acquired => lock == obtained(start),
            _ => false,
        }
    }

    /// [`LockAttempt::alone`] for a lock that is on offer at the start.
    pub open spec fn alone_with_offer(self, start: SpinparkLock, lock: SpinparkLock) -> bool {
        let joined = SpinparkLock { waiters: start.waiters.wrapping_add(1), ..start };
        match self.at {
            LockAt::TestFree | LockAt::Spin => lock == start && !self.waiter_accounted
                && self.spin_count < SPINPARK_SPIN_TIME,
            LockAt::MarkContended => lock == start && !self.waiter_accounted,
            LockAt::Announce => lock == (SpinparkLock { data: lock.data, ..start }) && lock.data
                != LOCK_STATE_UNLOCKED && !self.waiter_accounted,
            LockAt::Recheck
            | LockAt::Consume { site: Site::Parking, step: Consume::Accept } => lock == (
            SpinparkLock { data: lock.data, ..joined }) && lock.data != LOCK_STATE_UNLOCKED
                && self.waiter_accounted,
            LockAt::Consume { site: Site::Parking, step: Consume::Settle { step } } => {
                &&& self.waiter_accounted
                &&& lock.handoff == 0
                &&& lock.vip_dsq_id == joined.vip_dsq_id
                &&& match step {
                    Settle::Leave { step: DropWaiter::Read } => lock.waiters == joined.waiters,
                    Settle::Leave { step: DropWaiter::Lower { seen } } => lock.waiters
                        == joined.waiters && seen == joined.waiters && seen != 0,
                    Settle::Store { state } => lock.waiters == less_one(joined.waiters) && state
                        == held_state(lock.waiters as int),
                    _ => false,
                }
            },
            LockAt::Consume { site: Site::Parking, step: Consume::CountTaken }
            | LockAt::Consume { site: Site::Parking, step: Consume::CountAcquire }
            | LockAt::Acquired => lock == obtained(start),
            _ => false,
        }
    }

    /// Steps left in an attempt that no other thread takes part in, at most.
    pub open spec fn steps_left(self) -> int {
        match self.at {
            LockAt::TestFree => 20 + 2 * (SPINPARK_SPIN_TIME - self.spin_count),
            LockAt::Spin => 21 + 2 * (SPINPARK_SPIN_TIME - self.spin_count),
            LockAt::TakeFree => 12,
            LockAt::MarkContended => 11,
            LockAt::Announce => 10,
            LockAt::Recheck => 9,
            LockAt::Consume { site: _, step: Consume::Accept } => 8,
            LockAt::Consume {
                site: _,
                step: Consume::Settle { step: Settle::Leave { step: DropWaiter::Read } },
            } => 7,
            LockAt::Consume { site: _, step: Consume::Settle { step: Settle::Leave { .. } } } => 6,
            LockAt::Consume { site: _, step: Consume::Settle { .. } } => 5,
            LockAt::Consume { site: _, step: Consume::CountTaken } => 4,
            LockAt::Consume { .. } => 3,
            LockAt::CountAcquire => 2,
            _ => 0,
        }
    }
}

/// Takes a lock that is free or on offer, and counts that. A thread that is
/// left alone with a lock can take it in no other case. It takes a free lock
/// at once, and one on offer when it is about to park, after it has been
/// counted as a waiter. Either way it neither reports nor gives up its CPU:
/// `told`, what the scheduler is told, stays as it is.
pub fn spinpark_lock(
    lock: &mut SpinparkLock,
    counters: &mut YieldCounters,
    told: &mut Vec<Action>,
)
    requires
        obtainable(*old(lock)),
    ensures
        *final(lock) == obtained(*old(lock)),
        counted_acquire(*old(lock), *old(counters), *final(counters)),
        final(told)@ == old(told)@,
{
    let mut attempt = LockAttempt::new(lock.vip_dsq_id);
    loop
        invariant
            attempt.alone(*old(lock), *old(counters), *lock, *counters),
            told@ == old(told)@,
        decreases attempt.steps_left(),
    {
        match attempt.action() {
            Some(action) => {
                proof {
                    law_attempt_tells_nothing_alone(
                        attempt,
                        *old(lock),
                        *old(counters),
                        *lock,
                        *counters,
                    );
                }
                tell(told, action);
                let reply = perform(lock, counters, action);
                attempt.advance(reply);
            },
            None => {
                return;
            },
        }
    }
}

/// An attempt that is left alone with a lock that it can get does not turn to
/// the scheduler.
pub proof fn law_attempt_tells_nothing_alone(
    attempt: LockAttempt,
    start: SpinparkLock,
    tally: YieldCounters,
    lock: SpinparkLock,
    counters: YieldCounters,
)
    requires
        attempt.alone(start, tally, lock, counters),
    ensures
        attempt.spec_action() matches Some(action) ==> tells(action) == Seq::<Action>::empty(),
{
}

/// An attempt does not depend on its registration: whatever comes of it, the
/// thread goes on at the same place, and the words stay as they are.
pub proof fn law_attempt_needs_no_registration(
    attempt: LockAttempt,
    first: Reply,
    second: Reply,
    pre: SpinparkLock,
    post: SpinparkLock,
)
    requires
        attempt.spec_action() == Some(Action::Register),
    ensures
        attempt.spec_next(first) == attempt.spec_next(second),
        effect(pre, Action::Register, first, post) <==> post == pre,
{
}

/// A thread does not give up its CPU for a lock with a queue of its own
/// without having left a report that names the queue: of three places that
/// follow each other, the report is made at the first if the thread yields at
/// the third.
pub proof fn law_park_is_reported(attempt: LockAttempt, first: Reply, second: Reply)
    requires
        is_vip_dsq(attempt.vip_dsq_id),
        attempt.spec_next(first).spec_next(second).spec_action() == Some(Action::Yield),
    ensures
        attempt.spec_action() == Some(
            Action::Publish { reason: YIELD_LOCK_CONTENTION, vip_dsq_id: attempt.vip_dsq_id },
        ),
{
}

impl LockAttempt {
    /// The attempt after all the replies.
    pub open spec fn after_all(self, replies: Seq<Reply>) -> Self
        decreases replies.len(),
    {
        if replies.len() == 0 {
            self
        } else {
            self.after_all(replies.drop_last()).spec_next(replies.last())
        }
    }

    /// Whether the attempt only tests the lock, takes it, spins and yields.
    pub open spec fn plain(self) -> bool {
        &&& !self.waiter_accounted
        &&& match self.at {
            LockAt::TestFree
            | LockAt::TakeFree
            | LockAt::Spin
            | LockAt::CountFallback
            | LockAt::FallbackYield
            | LockAt::CountAcquire
            | LockAt::Acquired => true,
            _ => false,
        }
    }
}

/// In an attempt at a lock without a queue of its own, a thread only tests the
/// lock, takes it, spins and yields: it leaves no report and is not counted as
/// a waiter.
pub proof fn law_fallback_is_not_reported(vip_dsq_id: u64, replies: Seq<Reply>)
    requires
        !is_vip_dsq(vip_dsq_id),
    ensures
        ({
            let attempt = LockAttempt::spec_new(vip_dsq_id).after_all(replies);
            &&& attempt.vip_dsq_id == vip_dsq_id
            &&& attempt.plain()
            &&& !(attempt.spec_action() matches Some(Action::Publish { .. }))
        }),
    decreases replies.len(),
{
    if replies.len() > 0 {
        law_fallback_is_not_reported(vip_dsq_id, replies.drop_last());
    }
}

} // verus!

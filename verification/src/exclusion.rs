//! What holds of a lock whatever its threads do and however they take turns.
//!
//! A [`Crowd`] is a lock with all the threads that use it. In each step one
//! thread performs one action of the protocol, or calls an operation that it
//! may call: any thread may lock or try to, even one that holds the lock, and
//! one that holds the lock may release it or wait for a condition. The threads
//! may be scheduled in any way, a weak exchange may fail, and a condition
//! variable may answer anything. Accesses to the words take effect one after
//! the other.

use crate::acquire::{
    obtainable, LockAt, LockAttempt, Site, TryAttempt, SPINPARK_WAIT_SPIN_TIME,
};
use crate::condvar::{CondAction, CondAt, CondReply, CondWait};
use crate::counters::Counter;
use crate::release::{UnlockAt, UnlockAttempt};
use crate::sums::{
    lemma_total_below, lemma_total_bounds, lemma_total_pair, lemma_total_update, lemma_total_zero,
    one_if, total,
};
use crate::vip::is_vip_dsq;
use crate::waiting::{Consume, DropWaiter, Settle};
use crate::words::{
    effect, Action, Reply, SpinparkLock, LOCK_STATE_LOCKED, LOCK_STATE_QUEUED, LOCK_STATE_UNLOCKED,
    YIELD_LOCK_CONTENTION, YIELD_LOCK_HANDOFF,
};
use vstd::prelude::*;

verus! {

/// What a thread is doing with the lock.
pub enum Thread {
    /// Nothing.
    Outside,
    /// Is taking it, waiting as long as it takes. A thread that is holding it
    /// at the same time waits for itself.
    Locking { attempt: LockAttempt, holding: bool },
    /// Is taking it if it is free. A thread that is holding it at the same
    /// time will be refused.
    Trying { trial: TryAttempt, holding: bool },
    /// Has been told that it holds the lock.
    Holding,
    /// Is releasing it.
    Unlocking { release: UnlockAttempt },
    /// Is waiting for a condition.
    Waiting { wait: CondWait },
}

/// A lock, all the threads that use it, and what they have counted.
pub struct Crowd {
    pub lock: SpinparkLock,
    pub threads: Seq<Thread>,
    pub counts: Map<Counter, int>,
    /// How many times a thread was told that it holds the lock.
    pub entered: int,
}

impl Thread {
    /// What the thread does next to the lock; `None` if it does something
    /// else, or nothing.
    pub open spec fn touches(self) -> Option<Action> {
        match self {
            Thread::Locking { attempt, .. } => attempt.spec_action(),
            Thread::Trying { trial, .. } => trial.spec_action(),
            Thread::Unlocking { release } => release.spec_action(),
            Thread::Waiting { wait } => match wait.spec_action() {
                Some(CondAction::Lock { action }) => Some(action),
                _ => None,
            },
            Thread::Outside | Thread::Holding => None,
        }
    }

    /// Whether the thread is in the middle of an operation.
    pub open spec fn busy(self) -> bool {
        !(self is Outside) && !(self is Holding)
    }

    /// Where the thread stands after `reply`. With its last step, an operation
    /// returns to the thread.
    pub open spec fn after(self, reply: CondReply) -> Thread {
        match self {
            Thread::Locking { attempt, holding } => {
                let attempt = attempt.spec_next(reply.lock);
                if attempt.spec_action() is None {
                    Thread::Holding
                } else {
                    Thread::Locking { attempt, holding }
                }
            },
            Thread::Trying { trial, holding } => match trial.spec_next(reply.lock) {
                TryAttempt::Done { taken } => if taken || holding {
                    Thread::Holding
                } else {
                    Thread::Outside
                },
                trial => Thread::Trying { trial, holding },
            },
            Thread::Unlocking { release } => {
                let release = release.spec_next(reply.lock);
                if release.spec_action() is None {
                    Thread::Outside
                } else {
                    Thread::Unlocking { release }
                }
            },
            Thread::Waiting { wait } => {
                let wait = wait.spec_next(reply);
                if wait.spec_action() is None {
                    Thread::Holding
                } else {
                    Thread::Waiting { wait }
                }
            },
            Thread::Outside | Thread::Holding => self,
        }
    }

    /// The attempt by which the thread is taking the lock, for the first time
    /// or again after it has waited for a condition.
    pub open spec fn taking(self) -> Option<LockAttempt> {
        match self {
            Thread::Locking { attempt, .. } => Some(attempt),
            Thread::Waiting { wait } => match wait.at {
                CondAt::Relock { attempt, .. } => Some(attempt),
                _ => None,
            },
            _ => None,
        }
    }

    /// Whether the thread waits for a lock that it holds.
    pub open spec fn waits_for_itself(self) -> bool {
        self matches Thread::Locking { holding: true, .. }
    }

    /// Whether the thread is told with `reply` that it has taken the lock.
    pub open spec fn enters(self, reply: CondReply) -> bool {
        self.after(reply) is Holding && !(self matches Thread::Trying { holding: true, .. })
    }

    /// Whether the thread may go from `self` to `other` by calling an
    /// operation on a lock with the given queue.
    pub open spec fn calls(self, other: Thread, vip_dsq_id: u64) -> bool {
        match (self, other) {
            (Thread::Outside | Thread::Holding, Thread::Locking { attempt, holding }) => {
                attempt == LockAttempt::spec_new(vip_dsq_id) && holding == self is Holding
            },
            (Thread::Outside | Thread::Holding, Thread::Trying { trial, holding }) => {
                trial == TryAttempt::Take && holding == self is Holding
            },
            (Thread::Holding, Thread::Unlocking { release }) => release == UnlockAttempt::spec_new(
                vip_dsq_id,
            ),
            (Thread::Holding, Thread::Waiting { wait }) => wait == CondWait::spec_new(
                vip_dsq_id,
                wait.deadline,
            ),
            _ => false,
        }
    }

    /// Whether the lock is the thread's: it has taken it and has neither
    /// freed nor offered it since.
    pub open spec fn owns(self) -> bool {
        match self {
            Thread::Outside => false,
            Thread::Locking { attempt, holding } => holding || attempt_owns(attempt),
            Thread::Trying { trial, holding } => holding || trial == TryAttempt::Count,
            Thread::Holding => true,
            Thread::Unlocking { release } => release_owns(release),
            Thread::Waiting { wait } => match wait.at {
                CondAt::DrawTicket | CondAt::FirstLook => true,
                CondAt::Release { step } => release_owns(step),
                CondAt::Relock { attempt, .. } => attempt_owns(attempt),
                CondAt::Done { .. } => true,
                _ => false,
            },
        }
    }

    /// Whether the thread is one of the waiters that the lock counts.
    pub open spec fn counted(self) -> bool {
        match self {
            Thread::Locking { attempt, .. } => attempt_counted(attempt),
            Thread::Waiting { wait } => match wait.at {
                CondAt::Relock { attempt, .. } => attempt_counted(attempt),
                _ => false,
            },
            _ => false,
        }
    }

    /// Whether the thread has offered the lock and not come back yet.
    pub open spec fn offering(self) -> bool {
        match self {
            Thread::Unlocking { release } => release_offering(release),
            Thread::Waiting { wait } => match wait.at {
                CondAt::Release { step } => release_offering(step),
                _ => false,
            },
            _ => false,
        }
    }

    /// Offers that the thread has made and not counted yet, less the offers
    /// that it has accepted or taken back and not counted yet.
    pub open spec fn uncounted(self) -> int {
        match self {
            Thread::Locking { attempt, .. } => attempt_uncounted(attempt),
            Thread::Unlocking { release } => release_uncounted(release),
            Thread::Waiting { wait } => match wait.at {
                CondAt::Release { step } => release_uncounted(step),
                CondAt::Relock { attempt, .. } => attempt_uncounted(attempt),
                _ => 0,
            },
            _ => 0,
        }
    }

    /// Whether the thread stands where a thread of a lock with the given
    /// queue can stand.
    pub open spec fn sound(self, vip_dsq_id: u64) -> bool {
        match self {
            Thread::Outside | Thread::Holding => true,
            Thread::Locking { attempt, holding } => attempt_sound(attempt, vip_dsq_id) && (holding
                ==> !attempt_owns(attempt)),
            Thread::Trying { trial, holding } => !(trial is Done) && (holding ==> trial
                == TryAttempt::Take),
            Thread::Unlocking { release } => release_sound(release, vip_dsq_id),
            Thread::Waiting { wait } => {
                &&& wait.vip_dsq_id == vip_dsq_id
                &&& match wait.at {
                    CondAt::Release { step } => release_sound(step, vip_dsq_id),
                    CondAt::Relock { attempt, .. } => attempt_sound(attempt, vip_dsq_id),
                    CondAt::Done { .. } => false,
                    _ => true,
                }
            },
        }
    }
}

/// [`Thread::owns`] for an attempt.
pub open spec fn attempt_owns(attempt: LockAttempt) -> bool {
    match attempt.at {
        LockAt::Consume { site: _, step } => step != Consume::Accept && step != (Consume::Done {
            taken: false,
        }),
        LockAt::Settle { .. } | LockAt::CountAcquire | LockAt::Acquired => true,
        _ => false,
    }
}

/// [`Thread::counted`] for an attempt.
pub open spec fn attempt_counted(attempt: LockAttempt) -> bool {
    attempt.waiter_accounted && match attempt.at {
        LockAt::Consume { site: _, step: Consume::Settle { step } } => step is Leave,
        LockAt::Consume { site: _, step } => step == Consume::Accept,
        LockAt::Settle { settle } => settle is Leave,
        _ => true,
    }
}

/// [`Thread::uncounted`] for an attempt.
pub open spec fn attempt_uncounted(attempt: LockAttempt) -> int {
    match attempt.at {
        LockAt::Consume { site: _, step: Consume::Settle { .. } }
        | LockAt::Consume { site: _, step: Consume::CountTaken } => -1,
        _ => 0,
    }
}

/// Whether a waiter that took the lock can stand here.
pub open spec fn settle_sound(settle: Settle) -> bool {
    match settle {
        Settle::Leave { step: DropWaiter::Read } => true,
        Settle::Leave { step: DropWaiter::Lower { seen } } => seen != 0,
        Settle::Leave { step: DropWaiter::Done { .. } } => false,
        Settle::Store { state } => state == LOCK_STATE_LOCKED || state == LOCK_STATE_QUEUED,
        Settle::Done => false,
    }
}

/// [`Thread::sound`] for an attempt.
pub open spec fn attempt_sound(attempt: LockAttempt, vip_dsq_id: u64) -> bool {
    &&& attempt.vip_dsq_id == vip_dsq_id
    &&& attempt.waiter_accounted ==> is_vip_dsq(vip_dsq_id)
    &&& attempt.spin_count <= SPINPARK_WAIT_SPIN_TIME
    &&& match attempt.at {
        LockAt::TestFree | LockAt::TakeFree | LockAt::Spin => attempt.spin_count
            < attempt.spin_limit(),
        LockAt::PeekQueued => attempt.waiter_accounted && attempt.spin_count
            < attempt.spin_limit(),
        LockAt::Consume { site, step } => match step {
            Consume::Accept => attempt.waiter_accounted && (site == Site::Spinning
                ==> attempt.spin_count < attempt.spin_limit()),
            Consume::Settle { step } => attempt.waiter_accounted && settle_sound(step),
            Consume::CountTaken | Consume::CountAcquire => true,
            _ => false,
        },
        LockAt::CountFallback | LockAt::FallbackYield => !is_vip_dsq(vip_dsq_id),
        LockAt::MarkContended => is_vip_dsq(vip_dsq_id),
        LockAt::Announce => is_vip_dsq(vip_dsq_id) && !attempt.waiter_accounted,
        LockAt::Recheck
        | LockAt::Retake
        | LockAt::Register
        | LockAt::Publish
        | LockAt::CountPark
        | LockAt::ParkYield => attempt.waiter_accounted,
        LockAt::Settle { settle } => attempt.waiter_accounted && settle_sound(settle),
        LockAt::CountAcquire => !attempt.waiter_accounted,
        LockAt::Acquired => false,
    }
}

/// [`Thread::owns`] for a release.
pub open spec fn release_owns(release: UnlockAttempt) -> bool {
    match release.at {
        UnlockAt::Publish
        | UnlockAt::CountOffer
        | UnlockAt::OfferYield
        | UnlockAt::Reclaim
        | UnlockAt::Released => false,
        _ => true,
    }
}

/// [`Thread::offering`] for a release.
pub open spec fn release_offering(release: UnlockAttempt) -> bool {
    match release.at {
        UnlockAt::Publish
        | UnlockAt::CountOffer
        | UnlockAt::OfferYield
        | UnlockAt::Reclaim => true,
        _ => false,
    }
}

/// [`Thread::uncounted`] for a release.
pub open spec fn release_uncounted(release: UnlockAttempt) -> int {
    match release.at {
        UnlockAt::Publish | UnlockAt::CountOffer => 1,
        UnlockAt::Recount | UnlockAt::CountMiss => -1,
        _ => 0,
    }
}

/// [`Thread::sound`] for a release.
pub open spec fn release_sound(release: UnlockAttempt, vip_dsq_id: u64) -> bool {
    &&& release.vip_dsq_id == vip_dsq_id
    &&& match release.at {
        UnlockAt::ReadState | UnlockAt::ClearOffer => release.offers == 0,
        UnlockAt::ReadWaiters
        | UnlockAt::Register
        | UnlockAt::Offer
        | UnlockAt::Publish
        | UnlockAt::CountOffer
        | UnlockAt::OfferYield
        | UnlockAt::Reclaim
        | UnlockAt::Recount => release.offers == 0 && is_vip_dsq(vip_dsq_id),
        UnlockAt::CountMiss => is_vip_dsq(vip_dsq_id),
        UnlockAt::Free => true,
        UnlockAt::Released => false,
    }
}

/// How many threads own the lock.
pub open spec fn owners(threads: Seq<Thread>) -> int {
    total(threads, |t: Thread| one_if(t.owns()))
}

/// How many threads are counted as waiters.
pub open spec fn counted_waiters(threads: Seq<Thread>) -> int {
    total(threads, |t: Thread| one_if(t.counted()))
}

/// How many threads have offered the lock and not come back yet.
pub open spec fn offering(threads: Seq<Thread>) -> int {
    total(threads, |t: Thread| one_if(t.offering()))
}

/// The sum of [`Thread::uncounted`].
pub open spec fn uncounted_offers(threads: Seq<Thread>) -> int {
    total(threads, |t: Thread| t.uncounted())
}

/// The counts after an action.
pub open spec fn tallied(counts: Map<Counter, int>, action: Option<Action>) -> Map<Counter, int> {
    match action {
        Some(Action::Count { counter }) => counts.insert(counter, counts[counter] + 1),
        _ => counts,
    }
}

impl Crowd {
    /// A new lock that all threads are outside of.
    pub open spec fn fresh(self) -> bool {
        &&& self.lock.data == LOCK_STATE_UNLOCKED
        &&& self.lock.handoff == 0
        &&& self.lock.waiters == 0
        &&& self.threads.len() <= u32::MAX
        &&& forall|i: int| 0 <= i < self.threads.len() ==> self.threads[i] == Thread::Outside
        &&& forall|c: Counter| #[trigger] self.counts[c] == 0
        &&& self.entered == 0
    }

    /// Whether thread `i` can turn `self` into `next` by calling an operation.
    pub open spec fn call(self, next: Crowd, i: int) -> bool {
        &&& 0 <= i < self.threads.len()
        &&& self.threads[i].calls(next.threads[i], self.lock.vip_dsq_id)
        &&& next == Crowd { threads: self.threads.update(i, next.threads[i]), ..self }
    }

    /// Whether thread `i` can turn `self` into `next` by performing its next
    /// action and getting `reply`.
    pub open spec fn act(self, next: Crowd, i: int, reply: CondReply) -> bool {
        let thread = self.threads[i];
        &&& 0 <= i < self.threads.len()
        &&& thread.busy()
        &&& match thread.touches() {
            Some(action) => effect(self.lock, action, reply.lock, next.lock),
            None => next.lock == self.lock,
        }
        &&& next.threads == self.threads.update(i, thread.after(reply))
        &&& next.counts == tallied(self.counts, thread.touches())
        &&& next.entered == self.entered + one_if(thread.enters(reply))
    }

    /// Whether some thread can turn `self` into `next` in one step.
    pub open spec fn step(self, next: Crowd) -> bool {
        ||| exists|i: int| self.call(next, i)
        ||| exists|i: int, reply: CondReply| self.act(next, i, reply)
    }

    /// What holds before and after every step.
    pub open spec fn consistent(self) -> bool {
        let lock = self.lock;
        &&& lock.data <= LOCK_STATE_QUEUED
        &&& lock.handoff <= 1
        &&& self.threads.len() <= u32::MAX
        &&& forall|i: int|
            0 <= i < self.threads.len() ==> (#[trigger] self.threads[i]).sound(lock.vip_dsq_id)
        &&& owners(self.threads) + one_if(lock.data == LOCK_STATE_UNLOCKED) + lock.handoff == 1
        &&& counted_waiters(self.threads) == lock.waiters
        &&& lock.handoff <= offering(self.threads)
        &&& !is_vip_dsq(lock.vip_dsq_id) ==> lock.data <= LOCK_STATE_LOCKED && lock.handoff == 0
            && lock.waiters == 0
        &&& self.counts[Counter::LockAcquire] == self.entered
        &&& self.counts[Counter::HandoffYield] + uncounted_offers(self.threads)
            == self.counts[Counter::HandoffTaken] + self.counts[Counter::HandoffMiss] + lock.handoff
    }
}

/// By how much an action advances a counter.
spec fn advance_of(action: Option<Action>, counter: Counter) -> int {
    one_if(action == Some(Action::Count { counter }))
}

/// What one step does, as far as the thread that takes it can tell.
spec fn balanced(
    pre: SpinparkLock,
    from: Thread,
    action: Option<Action>,
    post: SpinparkLock,
    to: Thread,
    enters: bool,
) -> bool {
    &&& to.sound(pre.vip_dsq_id)
    &&& post.vip_dsq_id == pre.vip_dsq_id
    &&& post.data <= LOCK_STATE_QUEUED
    &&& post.handoff <= 1
    &&& one_if(from.owns()) + one_if(pre.data == LOCK_STATE_UNLOCKED) + pre.handoff == one_if(
        to.owns(),
    ) + one_if(post.data == LOCK_STATE_UNLOCKED) + post.handoff
    &&& post.waiters - one_if(to.counted()) == pre.waiters - one_if(from.counted())
    &&& post.handoff <= pre.handoff || to.offering()
    &&& from.offering() && !to.offering() ==> post.handoff == 0
    &&& !is_vip_dsq(pre.vip_dsq_id) ==> post.data <= LOCK_STATE_LOCKED && post.handoff == 0
        && post.waiters == 0
    &&& one_if(enters) == advance_of(action, Counter::LockAcquire)
    &&& advance_of(action, Counter::HandoffYield) + to.uncounted() - from.uncounted() == advance_of(
        action,
        Counter::HandoffTaken,
    ) + advance_of(action, Counter::HandoffMiss) + post.handoff - pre.handoff
}

/// What a thread may rely on about the lock when it takes a step.
pub open spec fn reliable(lock: SpinparkLock, thread: Thread) -> bool {
    &&& thread.sound(lock.vip_dsq_id)
    &&& lock.data <= LOCK_STATE_QUEUED
    &&& lock.handoff <= 1
    &&& thread.owns() ==> lock.data != LOCK_STATE_UNLOCKED && lock.handoff == 0
    &&& lock.handoff == 1 ==> lock.data != LOCK_STATE_UNLOCKED
    &&& if thread.counted() {
        lock.waiters > 0
    } else {
        lock.waiters < u32::MAX
    }
    &&& !is_vip_dsq(lock.vip_dsq_id) ==> lock.data <= LOCK_STATE_LOCKED && lock.handoff == 0
        && lock.waiters == 0
}

proof fn lemma_attempt_step(
    attempt: LockAttempt,
    holding: bool,
    pre: SpinparkLock,
    reply: Reply,
    post: SpinparkLock,
)
    requires
        reliable(pre, Thread::Locking { attempt, holding }),
        effect(pre, attempt.spec_action()->Some_0, reply, post),
    ensures
        ({
            let next = attempt.spec_next(reply);
            let to = if next.spec_action() is None {
                Thread::Holding
            } else {
                Thread::Locking { attempt: next, holding }
            };
            balanced(
                pre,
                Thread::Locking { attempt, holding },
                attempt.spec_action(),
                post,
                to,
                to is Holding,
            )
        }),
{
}

proof fn lemma_release_step(
    release: UnlockAttempt,
    pre: SpinparkLock,
    reply: Reply,
    post: SpinparkLock,
)
    requires
        reliable(pre, Thread::Unlocking { release }),
        effect(pre, release.spec_action()->Some_0, reply, post),
    ensures
        ({
            let next = release.spec_next(reply);
            let to = if next.spec_action() is None {
                Thread::Outside
            } else {
                Thread::Unlocking { release: next }
            };
            balanced(pre, Thread::Unlocking { release }, release.spec_action(), post, to, false)
        }),
{
}

/// A step of any thread keeps the books balanced.
proof fn lemma_thread_step(thread: Thread, pre: SpinparkLock, reply: CondReply, post: SpinparkLock)
    requires
        thread.busy(),
        reliable(pre, thread),
        match thread.touches() {
            Some(action) => effect(pre, action, reply.lock, post),
            None => post == pre,
        },
    ensures
        balanced(pre, thread, thread.touches(), post, thread.after(reply), thread.enters(reply)),
{
    match thread {
        Thread::Locking { attempt, holding } => {
            lemma_attempt_step(attempt, holding, pre, reply.lock, post);
        },
        Thread::Unlocking { release } => {
            lemma_release_step(release, pre, reply.lock, post);
        },
        Thread::Waiting { wait } => {
            match wait.at {
                CondAt::Release { step } => {
                    lemma_release_step(step, pre, reply.lock, post);
                },
                CondAt::Relock { attempt, .. } => {
                    lemma_attempt_step(attempt, false, pre, reply.lock, post);
                },
                _ => {},
            }
        },
        _ => {},
    }
}

proof fn lemma_fresh_consistent(crowd: Crowd)
    requires
        crowd.fresh(),
    ensures
        crowd.consistent(),
{
    lemma_total_zero(crowd.threads, |t: Thread| one_if(t.owns()));
    lemma_total_zero(crowd.threads, |t: Thread| one_if(t.counted()));
    lemma_total_zero(crowd.threads, |t: Thread| one_if(t.offering()));
    lemma_total_zero(crowd.threads, |t: Thread| t.uncounted());
}

/// In a consistent crowd every thread may rely on the lock.
pub proof fn lemma_reliable(crowd: Crowd, i: int)
    requires
        crowd.consistent(),
        0 <= i < crowd.threads.len(),
    ensures
        reliable(crowd.lock, crowd.threads[i]),
{
    let owns = |t: Thread| one_if(t.owns());
    let counted = |t: Thread| one_if(t.counted());
    lemma_total_bounds(crowd.threads, owns);
    lemma_total_bounds(crowd.threads, counted);
    assert(owns(crowd.threads[i]) <= owners(crowd.threads));
    assert(counted(crowd.threads[i]) <= counted_waiters(crowd.threads));
    if !crowd.threads[i].counted() {
        lemma_total_below(crowd.threads, i, counted);
    }
}

/// Replacing one thread changes all sums by the difference.
proof fn lemma_sums_update(threads: Seq<Thread>, i: int, t: Thread)
    requires
        0 <= i < threads.len(),
    ensures
        owners(threads.update(i, t)) == owners(threads) - one_if(threads[i].owns()) + one_if(
            t.owns(),
        ),
        counted_waiters(threads.update(i, t)) == counted_waiters(threads) - one_if(
            threads[i].counted(),
        ) + one_if(t.counted()),
        offering(threads.update(i, t)) == offering(threads) - one_if(threads[i].offering())
            + one_if(t.offering()),
        uncounted_offers(threads.update(i, t)) == uncounted_offers(threads) - threads[i].uncounted()
            + t.uncounted(),
{
    lemma_total_update(threads, i, t, |t: Thread| one_if(t.owns()));
    lemma_total_update(threads, i, t, |t: Thread| one_if(t.counted()));
    lemma_total_update(threads, i, t, |t: Thread| one_if(t.offering()));
    lemma_total_update(threads, i, t, |t: Thread| t.uncounted());
}

proof fn lemma_call_consistent(pre: Crowd, post: Crowd, i: int)
    requires
        pre.consistent(),
        pre.call(post, i),
    ensures
        post.consistent(),
{
    lemma_sums_update(pre.threads, i, post.threads[i]);
}

proof fn lemma_act_consistent(pre: Crowd, post: Crowd, i: int, reply: CondReply)
    requires
        pre.consistent(),
        pre.act(post, i, reply),
    ensures
        post.consistent(),
{
    let from = pre.threads[i];
    let to = from.after(reply);
    lemma_reliable(pre, i);
    lemma_thread_step(from, pre.lock, reply, post.lock);
    lemma_sums_update(pre.threads, i, to);
    lemma_total_bounds(pre.threads, |t: Thread| one_if(t.offering()));
    lemma_total_bounds(post.threads, |t: Thread| one_if(t.offering()));
    assert(post.threads[i] == to);
    assert(one_if(post.threads[i].offering()) <= offering(post.threads)) by {
        let f = |t: Thread| one_if(t.offering());
        assert(f(post.threads[i]) <= total(post.threads, f));
    }
}

/// Whether `history` is what can happen to a new lock, step by step.
pub open spec fn is_history(history: Seq<Crowd>) -> bool {
    &&& history.len() > 0
    &&& history[0].fresh()
    &&& forall|k: int|
        0 <= k < history.len() - 1 ==> (#[trigger] history[k]).step(history[k + 1])
}

/// Every crowd of a history is consistent.
pub proof fn lemma_history(history: Seq<Crowd>, k: int)
    requires
        is_history(history),
        0 <= k < history.len(),
    ensures
        history[k].consistent(),
    decreases k,
{
    if k == 0 {
        lemma_fresh_consistent(history[0]);
    } else {
        let pre = history[k - 1];
        let post = history[k];
        lemma_history(history, k - 1);
        assert(pre.step(history[k - 1 + 1]));
        if exists|i: int| pre.call(post, i) {
            let i = choose|i: int| pre.call(post, i);
            lemma_call_consistent(pre, post, i);
        } else {
            let (i, reply) = choose|i: int, reply: CondReply| pre.act(post, i, reply);
            lemma_act_consistent(pre, post, i, reply);
        }
    }
}

/// Mutual exclusion: at no time do two threads own the lock, and so at no
/// time do two threads hold it.
pub proof fn law_mutual_exclusion(history: Seq<Crowd>, k: int, i: int, j: int)
    requires
        is_history(history),
        0 <= k < history.len(),
        0 <= i < history[k].threads.len(),
        0 <= j < history[k].threads.len(),
        i != j,
    ensures
        !(history[k].threads[i].owns() && history[k].threads[j].owns()),
        !(history[k].threads[i] is Holding && history[k].threads[j] is Holding),
{
    lemma_history(history, k);
    let threads = history[k].threads;
    let owns = |t: Thread| one_if(t.owns());
    if i < j {
        lemma_total_pair(threads, i, j, owns);
    } else {
        lemma_total_pair(threads, j, i, owns);
    }
}

/// The words of the lock always hold one of their few values. The lock is
/// free or on offer, never both, exactly while no thread owns it.
pub proof fn law_lock_state(history: Seq<Crowd>, k: int)
    requires
        is_history(history),
        0 <= k < history.len(),
    ensures
        ({
            let lock = history[k].lock;
            let threads = history[k].threads;
            &&& lock.data == LOCK_STATE_UNLOCKED || lock.data == LOCK_STATE_LOCKED || lock.data
                == LOCK_STATE_QUEUED
            &&& lock.handoff == 0 || lock.handoff == 1
            &&& !(lock.data == LOCK_STATE_UNLOCKED && lock.handoff == 1)
            &&& (lock.data == LOCK_STATE_UNLOCKED || lock.handoff == 1) <==> (forall|i: int|
                0 <= i < threads.len() ==> !(#[trigger] threads[i]).owns())
        }),
{
    lemma_history(history, k);
    let lock = history[k].lock;
    let threads = history[k].threads;
    let owns = |t: Thread| one_if(t.owns());
    lemma_total_bounds(threads, owns);
    if lock.data == LOCK_STATE_UNLOCKED || lock.handoff == 1 {
        assert forall|i: int| 0 <= i < threads.len() implies !(#[trigger] threads[i]).owns() by {
            assert(owns(threads[i]) <= owners(threads));
        }
    }
    if forall|i: int| 0 <= i < threads.len() ==> !(#[trigger] threads[i]).owns() {
        lemma_total_zero(threads, owns);
    }
}

/// A lock that no thread owns can be taken by any thread that then gets to
/// run: it is not lost between a release and the next acquisition.
pub proof fn law_lock_not_lost(history: Seq<Crowd>, k: int)
    requires
        is_history(history),
        0 <= k < history.len(),
        forall|i: int|
            0 <= i < history[k].threads.len() ==> !(#[trigger] history[k].threads[i]).owns(),
    ensures
        obtainable(history[k].lock),
{
    lemma_history(history, k);
    law_lock_state(history, k);
}

/// While the lock is on offer, some release has yet to come back and take the
/// offer back if nobody accepts it.
pub proof fn law_offer_watched(history: Seq<Crowd>, k: int)
    requires
        is_history(history),
        0 <= k < history.len(),
        history[k].lock.handoff == 1,
    ensures
        exists|i: int|
            0 <= i < history[k].threads.len() && (#[trigger] history[k].threads[i]).offering(),
{
    lemma_history(history, k);
    let threads = history[k].threads;
    if forall|i: int| 0 <= i < threads.len() ==> !(#[trigger] threads[i]).offering() {
        lemma_total_zero(threads, |t: Thread| one_if(t.offering()));
    }
}

/// The lock counts exactly the threads that have announced themselves as
/// waiters and have not taken the lock and left since.
pub proof fn law_waiters_counted(history: Seq<Crowd>, k: int)
    requires
        is_history(history),
        0 <= k < history.len(),
    ensures
        history[k].lock.waiters == counted_waiters(history[k].threads),
        forall|i: int|
            0 <= i < history[k].threads.len() && (#[trigger] history[k].threads[i]).counted()
                ==> history[k].lock.waiters > 0,
{
    lemma_history(history, k);
    let threads = history[k].threads;
    let counted = |t: Thread| one_if(t.counted());
    lemma_total_bounds(threads, counted);
    assert forall|i: int| 0 <= i < threads.len() && (#[trigger] threads[i]).counted() implies
        history[k].lock.waiters > 0 by {
        assert(counted(threads[i]) <= counted_waiters(threads));
    }
}

/// A lock keeps the queue that it was made with.
pub proof fn law_queue_is_constant(history: Seq<Crowd>, k: int)
    requires
        is_history(history),
        0 <= k < history.len(),
    ensures
        history[k].lock.vip_dsq_id == history[0].lock.vip_dsq_id,
    decreases k,
{
    if k > 0 {
        let pre = history[k - 1];
        let post = history[k];
        law_queue_is_constant(history, k - 1);
        lemma_history(history, k - 1);
        assert(pre.step(history[k - 1 + 1]));
        if !(exists|i: int| pre.call(post, i)) {
            let (i, reply) = choose|i: int, reply: CondReply| pre.act(post, i, reply);
            lemma_reliable(pre, i);
            lemma_thread_step(pre.threads[i], pre.lock, reply, post.lock);
        }
    }
}

/// Every report names the queue of the lock that it is about. A thread that
/// reports contention is counted as a waiter, and one that reports a handoff
/// has offered the lock. Neither owns the lock, unless the thread waits for a
/// lock that it holds itself.
pub proof fn law_reports_are_true(history: Seq<Crowd>, k: int, i: int)
    requires
        is_history(history),
        0 <= k < history.len(),
        0 <= i < history[k].threads.len(),
    ensures
        history[k].threads[i].touches() matches Some(Action::Publish { reason, vip_dsq_id }) ==> {
            &&& vip_dsq_id == history[k].lock.vip_dsq_id
            &&& is_vip_dsq(vip_dsq_id)
            &&& history[k].threads[i].owns() ==> history[k].threads[i].waits_for_itself()
            &&& reason == YIELD_LOCK_CONTENTION && history[k].threads[i].counted() || reason
                == YIELD_LOCK_HANDOFF && history[k].threads[i].offering()
        },
{
    lemma_history(history, k);
    assert(history[k].threads[i].sound(history[k].lock.vip_dsq_id));
}

/// Registration is optional: a thread that registers, in whatever operation,
/// goes on at the same place whatever comes of it, and leaves the lock as it
/// is.
pub proof fn law_registration_is_optional(
    thread: Thread,
    first: CondReply,
    second: CondReply,
    pre: SpinparkLock,
    post: SpinparkLock,
)
    requires
        thread.touches() == Some(Action::Register),
    ensures
        thread.after(first) == thread.after(second),
        effect(pre, Action::Register, first.lock, post) <==> post == pre,
{
}

/// A lock without a queue of its own is never queued for, never on offer, and
/// counts no waiters.
pub proof fn law_fallback_is_plain(history: Seq<Crowd>, k: int)
    requires
        is_history(history),
        0 <= k < history.len(),
        !is_vip_dsq(history[k].lock.vip_dsq_id),
    ensures
        history[k].lock.data == LOCK_STATE_UNLOCKED || history[k].lock.data == LOCK_STATE_LOCKED,
        history[k].lock.handoff == 0,
        history[k].lock.waiters == 0,
{
    lemma_history(history, k);
}

/// Acquisitions are counted exactly: one for every time that a thread was
/// told that it holds the lock.
pub proof fn law_acquisitions_counted(history: Seq<Crowd>, k: int)
    requires
        is_history(history),
        0 <= k < history.len(),
    ensures
        history[k].counts[Counter::LockAcquire] == history[k].entered,
{
    lemma_history(history, k);
}

/// Every offer ends in one of two ways: whenever no operation is under way,
/// the offers that were made are those that were accepted and those that were
/// missed.
pub proof fn law_offers_balance(history: Seq<Crowd>, k: int)
    requires
        is_history(history),
        0 <= k < history.len(),
        forall|i: int|
            0 <= i < history[k].threads.len() ==> !(#[trigger] history[k].threads[i]).busy(),
    ensures
        history[k].counts[Counter::HandoffYield] == history[k].counts[Counter::HandoffTaken]
            + history[k].counts[Counter::HandoffMiss],
        history[k].lock.handoff == 0,
{
    lemma_history(history, k);
    let threads = history[k].threads;
    assert forall|i: int| 0 <= i < threads.len() implies (#[trigger] threads[i]).uncounted() == 0
        && !threads[i].offering() by {
        assert(!threads[i].busy());
    }
    lemma_total_zero(threads, |t: Thread| t.uncounted());
    lemma_total_zero(threads, |t: Thread| one_if(t.offering()));
}

/// A thread never spins for more than [`SPINPARK_WAIT_SPIN_TIME`] rounds
/// without yielding.
pub proof fn law_spinning_bounded(history: Seq<Crowd>, k: int, i: int)
    requires
        is_history(history),
        0 <= k < history.len(),
        0 <= i < history[k].threads.len(),
        history[k].threads[i].taking() is Some,
    ensures
        history[k].threads[i].taking()->Some_0.spin_count <= SPINPARK_WAIT_SPIN_TIME,
{
    lemma_history(history, k);
    assert(history[k].threads[i].sound(history[k].lock.vip_dsq_id));
}

} // verus!

//! Releasing a lock.

use crate::acquire::{obtainable, obtained};
use crate::counters::{Counter, YieldCounters};
use crate::vip::{is_vip_dsq, vip_dsq_valid};
use crate::words::{
    effect, perform, tell, tells, Action, MemOrder, Reply, SpinparkLock, Word, LOCK_STATE_LOCKED,
    LOCK_STATE_QUEUED, LOCK_STATE_UNLOCKED, YIELD_LOCK_HANDOFF,
};
use vstd::prelude::*;

verus! {

/// How many times a release offers the lock before it lets go of it.
pub const HANDOFF_RETRY_MAX: u32 = 1;

/// Where a thread stands in the release of a lock.
#[derive(Clone, Copy, Debug, PartialEq, Eq, Structural)]
pub enum UnlockAt {
    /// About to look whether others queue for the lock.
    ReadState,
    /// Others queue; about to look whether any is counted as a waiter.
    ReadWaiters,
    /// About to withdraw any offer.
    ClearOffer,
    /// About to make sure that the scheduler will find the report.
    Register,
    /// About to offer the lock.
    Offer,
    /// About to leave the report.
    Publish,
    /// About to count the yield.
    CountOffer,
    /// About to yield to the scheduler.
    OfferYield,
    /// About to take the offer back, if it still stands.
    Reclaim,
    /// Has taken the offer back, about to look whether anyone still waits.
    Recount,
    /// About to count an offer that nobody accepted.
    CountMiss,
    /// About to free the lock.
    Free,
    /// Is done with the lock.
    Released,
}

/// One release of a lock.
#[derive(Clone, Copy, Debug, PartialEq, Eq, Structural)]
pub struct UnlockAttempt {
    pub at: UnlockAt,
    /// The queue that belongs to the lock.
    pub vip_dsq_id: u64,
    /// Number of offers that were taken back.
    pub offers: u32,
}

impl UnlockAttempt {
    /// A fresh release of a lock with the given queue.
    pub open spec fn spec_new(vip_dsq_id: u64) -> Self {
        UnlockAttempt { at: UnlockAt::ReadState, vip_dsq_id, offers: 0 }
    }

    /// The same release at another place.
    pub open spec fn moved(self, at: UnlockAt) -> Self {
        UnlockAttempt { at, ..self }
    }

    /// What the thread does next; `None` once it is done with the lock.
    pub open spec fn spec_action(self) -> Option<Action> {
        match self.at {
            UnlockAt::ReadState => Some(
                Action::Load { word: Word::Data, order: MemOrder::Acquire },
            ),
            UnlockAt::ReadWaiters => Some(
                Action::Load { word: Word::Waiters, order: MemOrder::Acquire },
            ),
            UnlockAt::ClearOffer => Some(
                Action::Store { word: Word::Handoff, value: 0, order: MemOrder::Relaxed },
            ),
            UnlockAt::Register => Some(Action::Register),
            UnlockAt::Offer => Some(
                Action::Store { word: Word::Handoff, value: 1, order: MemOrder::Release },
            ),
            UnlockAt::Publish => Some(
                Action::Publish { reason: YIELD_LOCK_HANDOFF, vip_dsq_id: self.vip_dsq_id },
            ),
            UnlockAt::CountOffer => Some(Action::Count { counter: Counter::HandoffYield }),
            UnlockAt::OfferYield => Some(Action::Yield),
            UnlockAt::Reclaim => Some(
                Action::Exchange {
                    word: Word::Handoff,
                    expect: 1,
                    new: 0,
                    weak: false,
                    success: MemOrder::AcqRel,
                    failure: MemOrder::Acquire,
                },
            ),
            UnlockAt::Recount => Some(
                Action::Load { word: Word::Waiters, order: MemOrder::Acquire },
            ),
            UnlockAt::CountMiss => Some(Action::Count { counter: Counter::HandoffMiss }),
            UnlockAt::Free => Some(
                Action::Store {
                    word: Word::Data,
                    value: LOCK_STATE_UNLOCKED,
                    order: MemOrder::Release,
                },
            ),
            UnlockAt::Released => None,
        }
    }

    /// Where the release stands after `reply`. A lock is offered only if it
    /// has a queue of its own and someone waits in it. If the offer is gone
    /// when the thread comes back, the lock belongs to the thread that took
    /// it.
    pub open spec fn spec_next(self, reply: Reply) -> Self {
        match self.at {
            UnlockAt::ReadState => if reply.word == LOCK_STATE_QUEUED && is_vip_dsq(
                self.vip_dsq_id,
            ) {
                self.moved(UnlockAt::ReadWaiters)
            } else {
                self.moved(UnlockAt::ClearOffer)
            },
            UnlockAt::ReadWaiters => if reply.word != 0 {
                self.moved(UnlockAt::Register)
            } else {
                self.moved(UnlockAt::ClearOffer)
            },
            UnlockAt::ClearOffer => self.moved(UnlockAt::Free),
            UnlockAt::Register => if self.offers < HANDOFF_RETRY_MAX {
                self.moved(UnlockAt::Offer)
            } else {
                self.moved(UnlockAt::CountMiss)
            },
            UnlockAt::Offer => self.moved(UnlockAt::Publish),
            UnlockAt::Publish => self.moved(UnlockAt::CountOffer),
            UnlockAt::CountOffer => self.moved(UnlockAt::OfferYield),
            UnlockAt::OfferYield => self.moved(UnlockAt::Reclaim),
            UnlockAt::Reclaim => if reply.swapped {
                self.moved(UnlockAt::Recount)
            } else {
                self.moved(UnlockAt::Released)
            },
            UnlockAt::Recount => {
                let again = UnlockAttempt { offers: self.offers.wrapping_add(1), ..self };
                if reply.word != 0 && again.offers < HANDOFF_RETRY_MAX {
                    again.moved(UnlockAt::Offer)
                } else {
                    again.moved(UnlockAt::CountMiss)
                }
            },
            UnlockAt::CountMiss => self.moved(UnlockAt::Free),
            UnlockAt::Free => self.moved(UnlockAt::Released),
            UnlockAt::Released => self,
        }
    }

    /// A fresh release of a lock with the given queue.
    pub fn new(vip_dsq_id: u64) -> (attempt: Self)
        ensures
            attempt == Self::spec_new(vip_dsq_id),
    {
        UnlockAttempt { at: UnlockAt::ReadState, vip_dsq_id, offers: 0 }
    }

    /// What the thread does next; `None` once it is done with the lock.
    pub fn action(&self) -> (action: Option<Action>)
        ensures
            action == self.spec_action(),
    {
        match self.at {
            UnlockAt::ReadState => Some(
                Action::Load { word: Word::Data, order: MemOrder::Acquire },
            ),
            UnlockAt::ReadWaiters | UnlockAt::Recount => Some(
                Action::Load { word: Word::Waiters, order: MemOrder::Acquire },
            ),
            UnlockAt::ClearOffer => Some(
                Action::Store { word: Word::Handoff, value: 0, order: MemOrder::Relaxed },
            ),
            UnlockAt::Register => Some(Action::Register),
            UnlockAt::Offer => Some(
                Action::Store { word: Word::Handoff, value: 1, order: MemOrder::Release },
            ),
            UnlockAt::Publish => Some(
                Action::Publish { reason: YIELD_LOCK_HANDOFF, vip_dsq_id: self.vip_dsq_id },
            ),
            UnlockAt::CountOffer => Some(Action::Count { counter: Counter::HandoffYield }),
            UnlockAt::OfferYield => Some(Action::Yield),
            UnlockAt::Reclaim => Some(
                Action::Exchange {
                    word: Word::Handoff,
                    expect: 1,
                    new: 0,
                    weak: false,
                    success: MemOrder::AcqRel,
                    failure: MemOrder::Acquire,
                },
            ),
            UnlockAt::CountMiss => Some(Action::Count { counter: Counter::HandoffMiss }),
            UnlockAt::Free => Some(
                Action::Store {
                    word: Word::Data,
                    value: LOCK_STATE_UNLOCKED,
                    order: MemOrder::Release,
                },
            ),
            UnlockAt::Released => None,
        }
    }

    /// Moves the release on with the reply to its action.
    pub fn advance(&mut self, reply: Reply)
        ensures
            *final(self) == old(self).spec_next(reply),
    {
        self.at = match self.at {
            UnlockAt::ReadState => if reply.word == LOCK_STATE_QUEUED && vip_dsq_valid(
                self.vip_dsq_id,
            ) {
                UnlockAt::ReadWaiters
            } else {
                UnlockAt::ClearOffer
            },
            UnlockAt::ReadWaiters => if reply.word != 0 {
                UnlockAt::Register
            } else {
                UnlockAt::ClearOffer
            },
            UnlockAt::ClearOffer => UnlockAt::Free,
            UnlockAt::Register => if self.offers < HANDOFF_RETRY_MAX {
                UnlockAt::Offer
            } else {
                UnlockAt::CountMiss
            },
            UnlockAt::Offer => UnlockAt::Publish,
            UnlockAt::Publish => UnlockAt::CountOffer,
            UnlockAt::CountOffer => UnlockAt::OfferYield,
            UnlockAt::OfferYield => UnlockAt::Reclaim,
            UnlockAt::Reclaim => if reply.swapped {
                UnlockAt::Recount
            } else {
                UnlockAt::Released
            },
            UnlockAt::Recount => {
                self.offers = self.offers.wrapping_add(1);
                if reply.word != 0 && self.offers < HANDOFF_RETRY_MAX {
                    UnlockAt::Offer
                } else {
                    UnlockAt::CountMiss
                }
            },
            UnlockAt::CountMiss => UnlockAt::Free,
            UnlockAt::Free => UnlockAt::Released,
            UnlockAt::Released => UnlockAt::Released,
        };
    }
}

/// Whether a release of `lock` offers it to its waiters.
pub open spec fn offers_lock(lock: SpinparkLock) -> bool {
    lock.data == LOCK_STATE_QUEUED && is_vip_dsq(lock.vip_dsq_id) && lock.waiters != 0
}

/// Whether `after` is `before` with the offers of one release of `lock`
/// counted.
pub open spec fn counted_release(
    lock: SpinparkLock,
    before: YieldCounters,
    after: YieldCounters,
) -> bool {
    forall|c: Counter| #[trigger]
        after.value(c) == if offers_lock(lock) && (c == Counter::HandoffYield || c
            == Counter::HandoffMiss) {
            before.value(c).wrapping_add(1)
        } else {
            before.value(c)
        }
}

/// What a release of `lock` that no other thread takes part in tells the
/// scheduler: if it offers the lock, it registers, leaves the report of a
/// handoff with the lock's queue and gives up the CPU; if not, nothing.
pub open spec fn told_by_release(lock: SpinparkLock) -> Seq<Action> {
    if offers_lock(lock) {
        seq![
            Action::Register,
            Action::Publish { reason: YIELD_LOCK_HANDOFF, vip_dsq_id: lock.vip_dsq_id },
            Action::Yield,
        ]
    } else {
        Seq::empty()
    }
}

/// The lock after a release that no other thread took part in.
pub open spec fn released(lock: SpinparkLock) -> SpinparkLock {
    SpinparkLock { data: LOCK_STATE_UNLOCKED, handoff: 0, ..lock }
}

impl UnlockAttempt {
    /// Whether the release has got here from a fresh one of the lock `start`
    /// with the counters `tally`, alone, leaving `lock` and `counters`.
    pub open spec fn alone(
        self,
        start: SpinparkLock,
        tally: YieldCounters,
        lock: SpinparkLock,
        counters: YieldCounters,
    ) -> bool {
        let offered = SpinparkLock { handoff: 1, ..start };
        let cleared = SpinparkLock { handoff: 0, ..start };
        &&& self.vip_dsq_id == start.vip_dsq_id
        &&& match self.at {
            UnlockAt::ReadState => self.offers == 0 && lock == start,
            UnlockAt::ReadWaiters => self.offers == 0 && lock == start && start.data
                == LOCK_STATE_QUEUED && is_vip_dsq(start.vip_dsq_id),
            UnlockAt::ClearOffer => lock == start && !offers_lock(start),
            UnlockAt::Register | UnlockAt::Offer => self.offers == 0 && lock == start
                && offers_lock(start),
            UnlockAt::Publish
            | UnlockAt::CountOffer
            | UnlockAt::OfferYield
            | UnlockAt::Reclaim => self.offers == 0 && lock == offered && offers_lock(start),
            UnlockAt::Recount => self.offers == 0 && lock == cleared && offers_lock(start),
            UnlockAt::CountMiss => lock == cleared && offers_lock(start),
            UnlockAt::Free => lock == cleared,
            UnlockAt::Released => lock == released(start),
        }
        &&& match self.at {
            UnlockAt::OfferYield
            | UnlockAt::Reclaim
            | UnlockAt::Recount
            | UnlockAt::CountMiss => counters.bumped(tally, Counter::HandoffYield),
            UnlockAt::Free | UnlockAt::Released => counted_release(start, tally, counters),
            _ => counters.same(tally),
        }
    }

    /// How much of [`told_by_release`] the scheduler has been told when a
    /// release of the lock `start` has got here alone.
    pub open spec fn told_alone(self, start: SpinparkLock) -> Seq<Action> {
        let all = told_by_release(start);
        match self.at {
            UnlockAt::ReadState
            | UnlockAt::ReadWaiters
            | UnlockAt::ClearOffer
            | UnlockAt::Register => Seq::empty(),
            UnlockAt::Offer | UnlockAt::Publish => all.take(1),
            UnlockAt::CountOffer | UnlockAt::OfferYield => all.take(2),
            _ => all,
        }
    }

    /// Steps left in a release that no other thread takes part in, at most.
    pub open spec fn steps_left(self) -> int {
        match self.at {
            UnlockAt::ReadState => 11,
            UnlockAt::ReadWaiters => 10,
            UnlockAt::Register => 9,
            UnlockAt::Offer => 8,
            UnlockAt::Publish => 7,
            UnlockAt::CountOffer => 6,
            UnlockAt::OfferYield => 5,
            UnlockAt::Reclaim => 4,
            UnlockAt::Recount => 3,
            UnlockAt::CountMiss => 2,
            UnlockAt::ClearOffer => 2,
            UnlockAt::Free => 1,
            UnlockAt::Released => 0,
        }
    }
}

/// A step of a release that runs alone tells the scheduler what comes next.
pub(crate) proof fn lemma_told_alone(
    attempt: UnlockAttempt,
    start: SpinparkLock,
    tally: YieldCounters,
    lock: SpinparkLock,
    counters: YieldCounters,
    reply: Reply,
    post: SpinparkLock,
)
    requires
        attempt.alone(start, tally, lock, counters),
        attempt.spec_action() is Some,
        effect(lock, attempt.spec_action()->Some_0, reply, post),
    ensures
        attempt.spec_next(reply).told_alone(start) == attempt.told_alone(start) + tells(
            attempt.spec_action()->Some_0,
        ),
{
    assert(attempt.spec_next(reply).told_alone(start) =~= attempt.told_alone(start) + tells(
        attempt.spec_action()->Some_0,
    ));
}

/// Releases a lock while no other thread gets to run. Whatever the state of
/// the lock was, it ends up free and not on offer; if it had waiters in a
/// queue of its own, one offer was made, reported and missed. `told` is what
/// the scheduler is told.
pub fn spinpark_unlock(
    lock: &mut SpinparkLock,
    counters: &mut YieldCounters,
    told: &mut Vec<Action>,
)
    ensures
        *final(lock) == released(*old(lock)),
        counted_release(*old(lock), *old(counters), *final(counters)),
        final(told)@ == old(told)@ + told_by_release(*old(lock)),
{
    let mut attempt = UnlockAttempt::new(lock.vip_dsq_id);
    loop
        invariant
            attempt.alone(*old(lock), *old(counters), *lock, *counters),
            told@ == old(told)@ + attempt.told_alone(*old(lock)),
        decreases attempt.steps_left(),
    {
        match attempt.action() {
            Some(action) => {
                let ghost before = *lock;
                let ghost count = *counters;
                let ghost step = attempt;
                tell(told, action);
                let reply = perform(lock, counters, action);
                attempt.advance(reply);
                proof {
                    lemma_told_alone(
                        step,
                        *old(lock),
                        *old(counters),
                        before,
                        count,
                        reply,
                        *lock,
                    );
                }
            },
            None => {
                return;
            },
        }
    }
}

/// A release does not give up its CPU without having offered the lock and
/// left a report that names the queue: of four places that follow each other,
/// the offer is made at the first and the report at the second if the thread
/// yields at the last.
pub proof fn law_offer_is_reported(attempt: UnlockAttempt, first: Reply, second: Reply, third: Reply)
    requires
        attempt.spec_next(first).spec_next(second).spec_next(third).spec_action() == Some(
            Action::Yield,
        ),
    ensures
        attempt.spec_action() == Some(
            Action::Store { word: Word::Handoff, value: 1, order: MemOrder::Release },
        ),
        attempt.spec_next(first).spec_action() == Some(
            Action::Publish { reason: YIELD_LOCK_HANDOFF, vip_dsq_id: attempt.vip_dsq_id },
        ),
{
}

/// A release that runs alone turns to the scheduler exactly if it offers the
/// lock: it registers, reports and gives up the CPU only then, and the report
/// is that of a handoff with the lock's queue.
pub proof fn law_release_tells_of_offers(
    attempt: UnlockAttempt,
    start: SpinparkLock,
    tally: YieldCounters,
    lock: SpinparkLock,
    counters: YieldCounters,
)
    requires
        attempt.alone(start, tally, lock, counters),
    ensures
        attempt.spec_action() == Some(Action::Register) ==> offers_lock(start),
        attempt.spec_action() == Some(Action::Yield) ==> offers_lock(start),
        attempt.spec_action() matches Some(Action::Publish { reason, vip_dsq_id }) ==> offers_lock(
            start,
        ) && reason == YIELD_LOCK_HANDOFF && vip_dsq_id == start.vip_dsq_id,
        attempt.at == UnlockAt::Released ==> attempt.told_alone(start) == told_by_release(start),
{
}

/// A release does not depend on its registration: whatever comes of it, the
/// thread goes on at the same place, and the words stay as they are.
pub proof fn law_release_needs_no_registration(
    attempt: UnlockAttempt,
    first: Reply,
    second: Reply,
    pre: SpinparkLock,
    post: SpinparkLock,
)
    requires
        attempt.spec_action() == Some(Action::Register),
    ensures
        attempt.spec_next(first) == attempt.spec_next(second),
        effect(pre, Action::Register, first, post) <==> post == pre,
{
}

/// A release undoes an acquisition: a thread that takes a free lock and
/// releases it leaves it as it was.
pub proof fn law_release_undoes_acquire(lock: SpinparkLock)
    requires
        lock.data == LOCK_STATE_UNLOCKED,
        lock.handoff == 0,
    ensures
        released(obtained(lock)) == lock,
{
}

/// A released lock can be taken at once.
pub proof fn law_released_is_obtainable(lock: SpinparkLock)
    ensures
        obtainable(released(lock)),
        obtained(released(lock)).data == LOCK_STATE_LOCKED,
{
}

} // verus!

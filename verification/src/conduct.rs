//! How threads conduct themselves, as seen from outside: which action follows
//! which, whatever the replies are.
//!
//! The laws here speak of actions and replies. Where a thread stands shows
//! only in what it does next.

use crate::acquire::{
    counted_acquire, obtainable, obtained, LockAt, LockAttempt, Site, TryAttempt,
};
use crate::condvar::counted_wait;
use crate::counters::{Counter, YieldCounters};
use crate::progress::alone_after;
use crate::release::{
    counted_release, offers_lock, released, told_by_release, UnlockAttempt,
};
use crate::sums::one_if;
use crate::waiting::{consumed, contend_exchange, settled, Consume, DropWaiter, Settle};
use crate::words::{Action, MemOrder, Reply, SpinparkLock, Word};
use vstd::prelude::*;

verus! {

/// Reading a word.
pub open spec fn load(word: Word, order: MemOrder) -> Action {
    Action::Load { word, order }
}

/// Taking a lock that is free: its state goes from 0 to 1.
pub open spec fn take(weak: bool) -> Action {
    Action::Exchange {
        word: Word::Data,
        expect: 0,
        new: 1,
        weak,
        success: MemOrder::Acquire,
        failure: MemOrder::Relaxed,
    }
}

/// Marking a held lock as queued for: its state goes from 1 to 2.
pub open spec fn mark() -> Action {
    Action::Exchange {
        word: Word::Data,
        expect: 1,
        new: 2,
        weak: false,
        success: MemOrder::AcqRel,
        failure: MemOrder::Acquire,
    }
}

/// Taking or taking back a lock that is on offer: the offer goes from 1 to 0.
pub open spec fn accept() -> Action {
    Action::Exchange {
        word: Word::Handoff,
        expect: 1,
        new: 0,
        weak: false,
        success: MemOrder::AcqRel,
        failure: MemOrder::Acquire,
    }
}

/// Lowering the count of waiters from `seen` by one.
pub open spec fn lower(seen: u32) -> Action {
    Action::Exchange {
        word: Word::Waiters,
        expect: seen,
        new: (seen - 1) as u32,
        weak: true,
        success: MemOrder::AcqRel,
        failure: MemOrder::Acquire,
    }
}

/// Writing a word for other threads to rely on.
pub open spec fn publish_word(word: Word, value: u32) -> Action {
    Action::Store { word, value, order: MemOrder::Release }
}

/// Counting an event.
pub open spec fn count(counter: Counter) -> Action {
    Action::Count { counter }
}

/// The state that the owner of a lock writes when `others` other threads wait.
pub open spec fn state_with(others: int) -> u32 {
    if others > 0 {
        2
    } else {
        1
    }
}

/// Whether a queue number names one of the queues of locks.
pub open spec fn queued(vip_dsq_id: u64) -> bool {
    1 <= vip_dsq_id <= 4096
}

/// Whether an access has an order that it allows and that the protocol needs:
/// whatever gives a lock up, or says how many wait, releases; whatever takes
/// it acquires; an exchange that does both does both. Only a look at the
/// state that no decision rests on, a failed take, and the withdrawal of an
/// offer by an owner are relaxed.
pub open spec fn well_ordered(action: Action) -> bool {
    match action {
        Action::Load { word, order } => order == MemOrder::Acquire || (order == MemOrder::Relaxed
            && word == Word::Data),
        Action::Store { word, value, order } => if word == Word::Handoff && value == 0 {
            order == MemOrder::Relaxed
        } else {
            order == MemOrder::Release
        },
        Action::Exchange { word, expect, success, failure, .. } => if word == Word::Data && expect
            == 0 {
            success == MemOrder::Acquire && failure == MemOrder::Relaxed
        } else {
            success == MemOrder::AcqRel && failure == MemOrder::Acquire
        },
        Action::Add { order, .. } => order == MemOrder::AcqRel,
        _ => true,
    }
}

/// Every access of every operation on a lock is well ordered.
pub proof fn law_accesses_are_ordered(
    attempt: LockAttempt,
    trial: TryAttempt,
    release: UnlockAttempt,
    consume: Consume,
    settle: Settle,
    leave: DropWaiter,
)
    ensures
        attempt.spec_action() matches Some(action) ==> well_ordered(action),
        trial.spec_action() matches Some(action) ==> well_ordered(action),
        release.spec_action() matches Some(action) ==> well_ordered(action),
        consume.spec_action() matches Some(action) ==> well_ordered(action),
        settle.spec_action() matches Some(action) ==> well_ordered(action),
        leave.spec_action() matches Some(action) ==> well_ordered(action),
        contend_exchange() == mark(),
{
}

/// Only the owner's last word frees a lock or offers it, and it is always a
/// release; nothing but an exchange takes one.
pub proof fn law_lock_is_given_up_by_release(release: UnlockAttempt, attempt: LockAttempt)
    ensures
        release.spec_action() matches Some(Action::Store { word, value, order }) ==> {
            ||| word == Word::Data && value == 0 && order == MemOrder::Release
            ||| word == Word::Handoff && value == 1 && order == MemOrder::Release
            ||| word == Word::Handoff && value == 0 && order == MemOrder::Relaxed
        },
        attempt.spec_action() matches Some(Action::Store { word, order, .. }) ==> word == Word::Data
            && order == MemOrder::Release,
        release.spec_action() matches Some(Action::Exchange { word, expect, new, .. }) ==> word
            == Word::Handoff && expect == 1 && new == 0,
        !(release.spec_action() matches Some(Action::Add { .. })),
        attempt.spec_action() matches Some(Action::Add { word, delta, .. }) ==> word
            == Word::Waiters && delta == 1,
{
}

/// A trial is one exchange. It succeeds exactly if the exchange does, and is
/// then counted once.
pub proof fn law_trial_is_one_exchange(reply: Reply, any: Reply)
    ensures
        TryAttempt::Take.spec_action() == Some(take(false)),
        ({
            let next = TryAttempt::Take.spec_next(reply);
            if reply.swapped {
                &&& next.spec_action() == Some(count(Counter::LockAcquire))
                &&& next.spec_next(any) == (TryAttempt::Done { taken: true })
            } else {
                next == (TryAttempt::Done { taken: false })
            }
        }),
        (TryAttempt::Done { taken: reply.swapped }).spec_action() is None,
{
}

/// An attempt begins as a stranger with a look at the state. Whenever it looks
/// like this and sees a free lock it tries to take it; if it loses, it goes on
/// just as if it had seen the lock busy.
pub proof fn law_test_then_take(
    vip_dsq_id: u64,
    attempt: LockAttempt,
    free: Reply,
    lost: Reply,
    busy: Reply,
)
    requires
        free.word == 0,
        !lost.swapped,
        busy.word != 0,
    ensures
        LockAttempt::spec_new(vip_dsq_id).spec_action() == Some(
            load(Word::Data, MemOrder::Relaxed),
        ),
        !LockAttempt::spec_new(vip_dsq_id).waiter_accounted,
        LockAttempt::spec_new(vip_dsq_id).spin_count == 0,
        LockAttempt::spec_new(vip_dsq_id).vip_dsq_id == vip_dsq_id,
        attempt.spec_action() == Some(load(Word::Data, MemOrder::Relaxed)) ==> {
            &&& attempt.spec_next(free).spec_action() == Some(take(true))
            &&& attempt.spec_next(free).waiter_accounted == attempt.waiter_accounted
            &&& attempt.spec_next(free).spec_next(lost) == attempt.spec_next(busy)
        },
{
}

/// What a thread that was counted as a waiter does after it has taken the
/// lock: it takes itself off the count, trying again whenever another thread
/// was faster, and writes 2 as the state if it has left any waiter and 1 if it
/// has left none. Only then does it count, and hold the lock.
pub open spec fn settles(
    entered: LockAttempt,
    offered: bool,
    seen: Reply,
    lost: Reply,
    won: Reply,
    any: Reply,
) -> bool {
    let read = entered.spec_next(seen);
    let others = if seen.word == 0 {
        0
    } else {
        seen.word - 1
    };
    let stores = if seen.word == 0 {
        read
    } else {
        read.spec_next(won)
    };
    let stored = stores.spec_next(any);
    let counts = if offered {
        stored.spec_next(any)
    } else {
        stored
    };
    &&& entered.spec_action() == Some(load(Word::Waiters, MemOrder::Acquire))
    &&& seen.word != 0 ==> read.spec_action() == Some(lower(seen.word)) && read.spec_next(lost)
        == entered
    &&& stores.spec_action() == Some(publish_word(Word::Data, state_with(others)))
    &&& offered ==> stored.spec_action() == Some(count(Counter::HandoffTaken))
    &&& counts.spec_action() == Some(count(Counter::LockAcquire))
    &&& counts.spec_next(any).spec_action() is None
    &&& !counts.spec_next(any).waiter_accounted
}

/// A thread that takes a free lock counts that and holds the lock. If it was
/// counted as a waiter it settles first.
pub proof fn law_taker_settles(
    attempt: LockAttempt,
    weak: bool,
    won: Reply,
    seen: Reply,
    lost: Reply,
    any: Reply,
)
    requires
        attempt.spec_action() == Some(take(weak)),
        won.swapped,
        !lost.swapped,
    ensures
        attempt.waiter_accounted ==> settles(attempt.spec_next(won), false, seen, lost, won, any),
        !attempt.waiter_accounted ==> {
            let entered = attempt.spec_next(won);
            &&& entered.spec_action() == Some(count(Counter::LockAcquire))
            &&& entered.spec_next(any).spec_action() is None
            &&& !entered.spec_next(any).waiter_accounted
        },
{
    if seen.word != 0 {
        assert(seen.word.wrapping_sub(1) == seen.word - 1);
    }
}

/// A waiter that accepts an offer settles, and counts both the offer and the
/// acquisition.
pub proof fn law_accepter_settles(
    attempt: LockAttempt,
    won: Reply,
    seen: Reply,
    lost: Reply,
    any: Reply,
)
    requires
        attempt.spec_action() == Some(accept()),
        attempt.waiter_accounted,
        won.swapped,
        !lost.swapped,
    ensures
        settles(attempt.spec_next(won), true, seen, lost, won, any),
{
    if seen.word != 0 {
        assert(seen.word.wrapping_sub(1) == seen.word - 1);
    }
}

/// A thread that accepts an offer without being counted as a waiter leaves the
/// count as it is, and writes the state that goes with it.
pub proof fn law_stranger_keeps_count(won: Reply, seen: Reply, any: Reply)
    requires
        won.swapped,
    ensures
        ({
            let reads = Consume::Accept.spec_next(false, won);
            let stores = reads.spec_next(false, seen);
            let taken = stores.spec_next(false, any);
            let counts = taken.spec_next(false, any);
            &&& Consume::Accept.spec_action() == Some(accept())
            &&& reads.spec_action() == Some(load(Word::Waiters, MemOrder::Acquire))
            &&& stores.spec_action() == Some(publish_word(Word::Data, state_with(seen.word as int)))
            &&& taken.spec_action() == Some(count(Counter::HandoffTaken))
            &&& counts.spec_action() == Some(count(Counter::LockAcquire))
            &&& counts.spec_next(false, any) == (Consume::Done { taken: true })
        }),
{
}

/// A waiter that looks at a busy lock looks for an offer as well, but touches
/// it only if the lock is queued for. If there is no offer, it goes on just as
/// if the lock had not been queued for.
pub proof fn law_waiter_peeks_at_offer(
    attempt: LockAttempt,
    busy: Reply,
    queued_for: Reply,
    held: Reply,
    lost: Reply,
)
    requires
        attempt.spec_action() == Some(load(Word::Data, MemOrder::Relaxed)),
        attempt.waiter_accounted,
        queued(attempt.vip_dsq_id),
        busy.word != 0,
        queued_for.word == 2,
        held.word != 2,
        !lost.swapped,
    ensures
        ({
            let peeks = attempt.spec_next(busy);
            let accepts = peeks.spec_next(queued_for);
            &&& peeks.spec_action() == Some(load(Word::Data, MemOrder::Acquire))
            &&& accepts.spec_action() == Some(accept())
            &&& accepts.waiter_accounted
            &&& accepts.spec_next(lost) == peeks.spec_next(held)
        }),
{
}

/// A round that is lost counts as one, however it is lost: the thread spins
/// and tries again, until it has lost 256 rounds as a stranger or 4096 as a
/// waiter since its last yield.
pub proof fn law_lost_round_counts(attempt: LockAttempt, busy: Reply, held: Reply)
    requires
        attempt.spec_action() == Some(load(Word::Data, MemOrder::Relaxed)),
        attempt.spin_count < 4096,
        busy.word != 0,
        held.word != 2,
    ensures
        ({
            let peeked = attempt.spec_next(busy);
            let lost = if attempt.waiter_accounted && queued(attempt.vip_dsq_id) {
                peeked.spec_next(held)
            } else {
                peeked
            };
            let enough = attempt.spin_count + 1 >= if attempt.waiter_accounted {
                4096int
            } else {
                256
            };
            &&& lost.spin_count == attempt.spin_count + 1
            &&& lost.waiter_accounted == attempt.waiter_accounted
            &&& lost.vip_dsq_id == attempt.vip_dsq_id
            &&& lost.spec_action() == Some(
                if !enough {
                    Action::Spin
                } else if queued(attempt.vip_dsq_id) {
                    mark()
                } else {
                    count(Counter::FallbackYield)
                },
            )
        }),
{
}

/// An attempt after `n` steps that were all answered by `reply`.
pub open spec fn answered(attempt: LockAttempt, reply: Reply, n: nat) -> LockAttempt
    decreases n,
{
    if n == 0 {
        attempt
    } else {
        answered(attempt.spec_next(reply), reply, (n - 1) as nat)
    }
}

/// How many accesses a round costs in which the state is seen as `state` and
/// nothing can be had: a stranger looks once, a waiter twice, and tries to
/// accept an offer if the lock is queued for.
pub open spec fn looks(attempt: LockAttempt, state: u32) -> nat {
    if !attempt.waiter_accounted || !queued(attempt.vip_dsq_id) {
        1
    } else if state != 2 {
        2
    } else {
        3
    }
}

/// An attempt after `n` rounds that were lost and spun for.
pub open spec fn lost_rounds(attempt: LockAttempt, reply: Reply, n: nat) -> LockAttempt
    decreases n,
{
    if n == 0 {
        attempt
    } else {
        let before = lost_rounds(attempt, reply, (n - 1) as nat);
        answered(before, reply, looks(before, reply.word) + 1)
    }
}

proof fn lemma_lost_rounds(attempt: LockAttempt, reply: Reply, n: nat)
    requires
        attempt.spec_action() == Some(load(Word::Data, MemOrder::Relaxed)),
        attempt.spin_count == 0,
        reply.word != 0,
        !reply.swapped,
        n < if attempt.waiter_accounted {
            4096int
        } else {
            256
        },
    ensures
        lost_rounds(attempt, reply, n) == (LockAttempt { spin_count: n as u32, ..attempt }),
    decreases n,
{
    if n > 0 {
        lemma_lost_rounds(attempt, reply, (n - 1) as nat);
        reveal_with_fuel(answered, 5);
    }
}

/// A stranger gives up its CPU, or parks, after 256 lost rounds and a waiter
/// after 4096, and after no fewer: in all the rounds before it only spins. It
/// parks, by marking the lock as queued for, if the lock has a queue of its
/// own, and just yields if not.
pub proof fn law_spins_then_parks(attempt: LockAttempt, reply: Reply, n: nat)
    requires
        attempt.spec_action() == Some(load(Word::Data, MemOrder::Relaxed)),
        attempt.spin_count == 0,
        reply.word != 0,
        !reply.swapped,
        n < if attempt.waiter_accounted {
            4096int
        } else {
            256
        },
    ensures
        ({
            let round = lost_rounds(attempt, reply, n);
            let last = if attempt.waiter_accounted {
                4095int
            } else {
                255
            };
            &&& round.spec_action() == Some(load(Word::Data, MemOrder::Relaxed))
            &&& round.waiter_accounted == attempt.waiter_accounted
            &&& round.vip_dsq_id == attempt.vip_dsq_id
            &&& answered(round, reply, looks(round, reply.word)).spec_action() == Some(
                if n < last {
                    Action::Spin
                } else if queued(attempt.vip_dsq_id) {
                    mark()
                } else {
                    count(Counter::FallbackYield)
                },
            )
            &&& answered(round, reply, looks(round, reply.word)).waiter_accounted
                == attempt.waiter_accounted
        }),
{
    lemma_lost_rounds(attempt, reply, n);
    reveal_with_fuel(answered, 5);
}

/// How a thread parks, whatever the replies are. It marks the lock as queued
/// for, every time; it counts itself as a waiter if it is not counted yet; it
/// looks whether the lock is free by now, and takes it if so; it looks for an
/// offer; it registers, reports contention with the lock's queue, counts the
/// park, the first of the attempt apart from all others, and yields. When it
/// comes back it looks for an offer and, if there is none, begins to spin
/// anew.
pub proof fn law_parks_in_order(
    attempt: LockAttempt,
    any: Reply,
    free: Reply,
    busy: Reply,
    lost: Reply,
)
    requires
        attempt.spec_action() == Some(mark()),
        free.word == 0,
        busy.word != 0,
        !lost.swapped,
    ensures
        ({
            let marked = attempt.spec_next(any);
            let counted = if attempt.waiter_accounted {
                marked
            } else {
                marked.spec_next(any)
            };
            let accepts = counted.spec_next(busy);
            let registers = accepts.spec_next(lost);
            let reports = registers.spec_next(any);
            let counts = reports.spec_next(any);
            let yields = counts.spec_next(any);
            let woken = yields.spec_next(any);
            let anew = woken.spec_next(lost);
            &&& !attempt.waiter_accounted ==> marked.spec_action() == Some(
                Action::Add { word: Word::Waiters, delta: 1, order: MemOrder::AcqRel },
            )
            &&& counted.waiter_accounted
            &&& counted.spec_action() == Some(load(Word::Data, MemOrder::Acquire))
            &&& counted.spec_next(free).spec_action() == Some(take(false))
            &&& counted.spec_next(free).waiter_accounted
            &&& counted.spec_next(free).spec_next(lost) == accepts
            &&& accepts.spec_action() == Some(accept())
            &&& accepts.waiter_accounted
            &&& registers.spec_action() == Some(Action::Register)
            &&& reports.spec_action() == Some(
                Action::Publish { reason: 1, vip_dsq_id: attempt.vip_dsq_id },
            )
            &&& counts.spec_action() == Some(
                count(
                    if attempt.waiter_accounted {
                        Counter::RequeueYield
                    } else {
                        Counter::ContentionYield
                    },
                ),
            )
            &&& yields.spec_action() == Some(Action::Yield)
            &&& woken.spec_action() == Some(accept())
            &&& woken.waiter_accounted
            &&& anew.spec_action() == Some(load(Word::Data, MemOrder::Relaxed))
            &&& anew.waiter_accounted
            &&& anew.spin_count == 0
            &&& anew.vip_dsq_id == attempt.vip_dsq_id
        }),
{
}

/// A thread that has counted a yield for a lock without a queue yields and
/// begins to spin anew, as the stranger or waiter that it was.
pub proof fn law_fallback_in_order(attempt: LockAttempt, any: Reply)
    requires
        attempt.spec_action() == Some(count(Counter::FallbackYield)),
    ensures
        attempt.spec_next(any).spec_action() == Some(Action::Yield),
        attempt.spec_next(any).spec_next(any).spec_action() == Some(
            load(Word::Data, MemOrder::Relaxed),
        ),
        attempt.spec_next(any).spec_next(any).spin_count == 0,
        attempt.spec_next(any).spec_next(any).waiter_accounted == attempt.waiter_accounted,
        attempt.spec_next(any).spec_next(any).vip_dsq_id == attempt.vip_dsq_id,
{
}

/// An attempt keeps to the queue that it has begun with, and becomes a waiter
/// when, and only when, it has added itself to the count.
pub proof fn law_attempt_keeps_its_queue(attempt: LockAttempt, reply: Reply)
    ensures
        attempt.spec_next(reply).vip_dsq_id == attempt.vip_dsq_id,
        !attempt.waiter_accounted && attempt.spec_next(reply).waiter_accounted
            ==> attempt.spec_action() matches Some(
            Action::Add { word: Word::Waiters, delta: 1, .. },
        ),
        attempt.spec_action() matches Some(Action::Add { .. }) ==> attempt.spec_next(
            reply,
        ).waiter_accounted,
{
}

/// A release keeps to the queue that it has begun with.
pub proof fn law_release_keeps_its_queue(release: UnlockAttempt, reply: Reply)
    ensures
        release.spec_next(reply).vip_dsq_id == release.vip_dsq_id,
{
}

/// After a round that was spun for, a thread looks at the state again.
pub proof fn law_spin_then_test(attempt: LockAttempt, any: Reply)
    requires
        attempt.spec_action() == Some(Action::Spin),
    ensures
        attempt.spec_next(any) == (LockAttempt { at: LockAt::TestFree, ..attempt }),
        attempt.spec_next(any).spec_action() == Some(load(Word::Data, MemOrder::Relaxed)),
{
}

impl LockAttempt {
    /// The actions that the attempt has performed when it has got all the
    /// replies.
    pub open spec fn deeds(self, replies: Seq<Reply>) -> Seq<Action>
        decreases replies.len(),
    {
        if replies.len() == 0 {
            Seq::empty()
        } else {
            let earlier = replies.drop_last();
            match self.after_all(earlier).spec_action() {
                Some(action) => self.deeds(earlier).push(action),
                None => self.deeds(earlier),
            }
        }
    }
}

/// Whether `what` was done and no yield has followed.
pub open spec fn done_since_yield(deeds: Seq<Action>, what: Action) -> bool
    decreases deeds.len(),
{
    deeds.len() > 0 && (deeds.last() == what || (deeds.last() != Action::Yield && done_since_yield(
        deeds.drop_last(),
        what,
    )))
}

/// How many times `what` was done.
pub open spec fn times(deeds: Seq<Action>, what: Action) -> int
    decreases deeds.len(),
{
    if deeds.len() == 0 {
        0
    } else {
        times(deeds.drop_last(), what) + one_if(deeds.last() == what)
    }
}

/// What an attempt has done since its last yield when it stands here.
spec fn prepared(attempt: LockAttempt, deeds: Seq<Action>) -> bool {
    let report = Action::Publish { reason: 1, vip_dsq_id: attempt.vip_dsq_id };
    &&& match attempt.at {
        LockAt::Announce
        | LockAt::Recheck
        | LockAt::Retake
        | LockAt::Register
        | LockAt::Publish
        | LockAt::CountPark
        | LockAt::ParkYield => done_since_yield(deeds, mark()),
        LockAt::Consume { site: Site::Parking, step: Consume::Accept } => done_since_yield(
            deeds,
            mark(),
        ),
        _ => true,
    }
    &&& match attempt.at {
        LockAt::Publish => done_since_yield(deeds, Action::Register),
        LockAt::CountPark | LockAt::ParkYield => done_since_yield(deeds, Action::Register)
            && done_since_yield(deeds, report),
        _ => true,
    }
}

/// How often an attempt has done what it counts and announces when it stands
/// here.
spec fn books(attempt: LockAttempt, deeds: Seq<Action>) -> bool {
    let yields = times(deeds, Action::Yield);
    let contention = times(deeds, count(Counter::ContentionYield));
    let requeue = times(deeds, count(Counter::RequeueYield));
    let fallback = times(deeds, count(Counter::FallbackYield));
    let announced = times(
        deeds,
        Action::Add { word: Word::Waiters, delta: 1, order: MemOrder::AcqRel },
    );
    let yielding = one_if(attempt.at == LockAt::ParkYield || attempt.at == LockAt::FallbackYield);
    let first = match attempt.at {
        LockAt::Recheck
        | LockAt::Retake
        | LockAt::Register
        | LockAt::Publish
        | LockAt::CountPark
        | LockAt::Consume { site: Site::Parking, step: Consume::Accept } => attempt.first_park,
        _ => false,
    };
    &&& 0 <= yields
    &&& 0 <= contention <= 1
    &&& 0 <= requeue
    &&& 0 <= fallback
    &&& contention <= announced <= 1
    &&& if queued(attempt.vip_dsq_id) {
        &&& fallback == 0
        &&& contention + requeue == yields + yielding
        &&& requeue > 0 ==> contention == 1
        &&& attempt.waiter_accounted ==> announced == 1
        &&& attempt.waiter_accounted && !first && !after_taking(attempt) ==> contention == 1
        &&& attempt.waiter_accounted && first ==> contention == 0
        &&& !attempt.waiter_accounted && !after_taking(attempt) ==> announced == 0 && contention
            == 0
        &&& attempt.at == LockAt::Announce ==> attempt.first_park
        &&& attempt.at == LockAt::CountFallback || attempt.at == LockAt::FallbackYield ==> false
    } else {
        &&& contention == 0 && requeue == 0 && announced == 0
        &&& fallback == yields + yielding
        &&& !attempt.waiter_accounted
        &&& attempt.plain()
    }
}

/// Whether the thread has taken the lock.
spec fn after_taking(attempt: LockAttempt) -> bool {
    match attempt.at {
        LockAt::Settle { .. } | LockAt::CountAcquire | LockAt::Acquired => true,
        LockAt::Consume { site: _, step } => step != Consume::Accept,
        _ => false,
    }
}

/// Whether a thread can stand here after all.
spec fn stands(attempt: LockAttempt) -> bool {
    match attempt.at {
        LockAt::Consume { site: _, step: Consume::Accept } => attempt.waiter_accounted,
        LockAt::Consume { site: _, step: Consume::Settle { step } } => attempt.waiter_accounted
            && !(step is Done) && !(step matches Settle::Leave { step: DropWaiter::Done { .. } }),
        LockAt::Consume { site: _, step: Consume::CountTaken }
        | LockAt::Consume { site: _, step: Consume::CountAcquire } => true,
        LockAt::Consume { .. } => false,
        LockAt::Settle { settle } => attempt.waiter_accounted && !(settle is Done) && !(settle
            matches Settle::Leave { step: DropWaiter::Done { .. } }),
        LockAt::Announce | LockAt::CountAcquire => !attempt.waiter_accounted,
        LockAt::Recheck
        | LockAt::Retake
        | LockAt::Register
        | LockAt::Publish
        | LockAt::CountPark
        | LockAt::ParkYield
        | LockAt::PeekQueued => attempt.waiter_accounted,
        _ => true,
    }
}

proof fn lemma_conduct_step(attempt: LockAttempt, deeds: Seq<Action>, reply: Reply)
    requires
        stands(attempt),
        prepared(attempt, deeds),
        books(attempt, deeds),
    ensures
        ({
            let next = attempt.spec_next(reply);
            let done = match attempt.spec_action() {
                Some(action) => deeds.push(action),
                None => deeds,
            };
            &&& stands(next)
            &&& prepared(next, done)
            &&& books(next, done)
            &&& next.vip_dsq_id == attempt.vip_dsq_id
        }),
{
    if let Some(action) = attempt.spec_action() {
        let done = deeds.push(action);
        assert(done.drop_last() =~= deeds);
        assert(done.last() == action);
    }
}

proof fn lemma_conduct(vip_dsq_id: u64, replies: Seq<Reply>)
    ensures
        ({
            let fresh = LockAttempt::spec_new(vip_dsq_id);
            let attempt = fresh.after_all(replies);
            let deeds = fresh.deeds(replies);
            &&& stands(attempt)
            &&& prepared(attempt, deeds)
            &&& books(attempt, deeds)
            &&& attempt.vip_dsq_id == vip_dsq_id
        }),
    decreases replies.len(),
{
    let fresh = LockAttempt::spec_new(vip_dsq_id);
    if replies.len() > 0 {
        let earlier = replies.drop_last();
        lemma_conduct(vip_dsq_id, earlier);
        lemma_conduct_step(fresh.after_all(earlier), fresh.deeds(earlier), replies.last());
    }
}

/// In whatever way an attempt has come to the point where it reports
/// contention, it has marked the lock as queued for since it last yielded, and
/// registered; and when it yields for a lock with a queue of its own, it has
/// reported as well.
pub proof fn law_every_park_is_marked(vip_dsq_id: u64, replies: Seq<Reply>)
    ensures
        ({
            let attempt = LockAttempt::spec_new(vip_dsq_id).after_all(replies);
            let deeds = LockAttempt::spec_new(vip_dsq_id).deeds(replies);
            &&& attempt.spec_action() matches Some(Action::Publish { .. }) ==> done_since_yield(
                deeds,
                mark(),
            ) && done_since_yield(deeds, Action::Register)
            &&& attempt.spec_action() == Some(Action::Yield) && queued(vip_dsq_id)
                ==> done_since_yield(deeds, mark()) && done_since_yield(deeds, Action::Register)
                && done_since_yield(deeds, Action::Publish { reason: 1, vip_dsq_id })
        }),
{
    lemma_conduct(vip_dsq_id, replies);
}

/// What an attempt has counted when it stands anywhere. For a lock with a
/// queue of its own, the parks are the yields, the first is counted as
/// contention and all others as requeueing, and the thread has announced
/// itself at most once. For a lock without, the fallbacks are the yields, and
/// nothing else was counted or announced.
pub proof fn law_yields_are_counted(vip_dsq_id: u64, replies: Seq<Reply>)
    ensures
        ({
            let attempt = LockAttempt::spec_new(vip_dsq_id).after_all(replies);
            let deeds = LockAttempt::spec_new(vip_dsq_id).deeds(replies);
            let yields = times(deeds, Action::Yield) + one_if(
                attempt.spec_action() == Some(Action::Yield),
            );
            let contention = times(deeds, count(Counter::ContentionYield));
            let requeue = times(deeds, count(Counter::RequeueYield));
            let fallback = times(deeds, count(Counter::FallbackYield));
            let announced = times(
                deeds,
                Action::Add { word: Word::Waiters, delta: 1, order: MemOrder::AcqRel },
            );
            &&& contention == if queued(vip_dsq_id) && yields > 0 {
                1int
            } else {
                0
            }
            &&& requeue == if queued(vip_dsq_id) && yields > 0 {
                yields - 1
            } else {
                0
            }
            &&& fallback == if queued(vip_dsq_id) {
                0
            } else {
                yields
            }
            &&& contention <= announced <= 1
            &&& !queued(vip_dsq_id) ==> announced == 0
        }),
{
    lemma_conduct(vip_dsq_id, replies);
}

/// A waiter that is left alone with a free lock takes it and leaves words that
/// are true: one waiter less, and a state of 2 if any other waits and of 1 if
/// none does. A release that follows offers the lock exactly if another waits
/// in the lock's queue.
pub proof fn law_waiter_takes_free_lock_alone(attempt: LockAttempt, lock: SpinparkLock)
    requires
        attempt.waiter_accounted,
        lock.data == 0,
        attempt.spec_action() == Some(load(Word::Data, MemOrder::Relaxed)) || attempt.spec_action()
            == Some(take(true)) || attempt.spec_action() == Some(take(false)),
    ensures
        exists|n: nat|
            {
                let end = #[trigger] alone_after(attempt, lock, n);
                &&& end.0.spec_action() is None
                &&& end.1.data == if lock.waiters > 1 {
                    2u32
                } else {
                    1
                }
                &&& end.1.waiters == if lock.waiters > 0 {
                    lock.waiters - 1
                } else {
                    0
                }
                &&& end.1.handoff == lock.handoff
                &&& end.1.vip_dsq_id == lock.vip_dsq_id
                &&& offers_lock(end.1) <==> lock.waiters > 1 && queued(lock.vip_dsq_id)
            },
{
    let looking: nat = if attempt.spec_action() == Some(load(Word::Data, MemOrder::Relaxed)) {
        1
    } else {
        0
    };
    let settling: nat = if lock.waiters == 0 {
        4
    } else {
        5
    };
    reveal_with_fuel(alone_after, 8);
    if lock.waiters > 0 {
        assert(lock.waiters.wrapping_sub(1) == lock.waiters - 1);
    }
    let end = alone_after(attempt, lock, looking + settling);
    assert(end.0.spec_action() is None);
}

/// A waiter that is left alone with a lock on offer that is queued for takes
/// it in the same way, at once when it looks.
pub proof fn law_waiter_accepts_offer_alone(attempt: LockAttempt, lock: SpinparkLock)
    requires
        attempt.waiter_accounted,
        lock.handoff == 1,
        attempt.spec_action() == Some(accept()),
    ensures
        exists|n: nat|
            {
                let end = #[trigger] alone_after(attempt, lock, n);
                &&& end.0.spec_action() is None
                &&& end.1.data == if lock.waiters > 1 {
                    2u32
                } else {
                    1
                }
                &&& end.1.waiters == if lock.waiters > 0 {
                    lock.waiters - 1
                } else {
                    0
                }
                &&& end.1.handoff == 0
                &&& end.1.vip_dsq_id == lock.vip_dsq_id
            },
{
    let settling: nat = if lock.waiters == 0 {
        5
    } else {
        6
    };
    reveal_with_fuel(alone_after, 8);
    if lock.waiters > 0 {
        assert(lock.waiters.wrapping_sub(1) == lock.waiters - 1);
    }
    let end = alone_after(attempt, lock, settling);
    assert(end.0.spec_action() is None);
}

/// How a lock is released, whatever the replies are. The thread looks at the
/// state and, if the lock is queued for and has a queue of its own, at the
/// count of waiters. Unless there is one, it withdraws any offer and frees the
/// lock, and that is all.
pub proof fn law_release_frees(vip_dsq_id: u64, state: Reply, waiters: Reply, any: Reply)
    ensures
        ({
            let fresh = UnlockAttempt::spec_new(vip_dsq_id);
            let looked = fresh.spec_next(state);
            let contended = state.word == 2 && queued(vip_dsq_id);
            let clears = if contended {
                looked.spec_next(waiters)
            } else {
                looked
            };
            let frees = clears.spec_next(any);
            &&& fresh.spec_action() == Some(load(Word::Data, MemOrder::Acquire))
            &&& contended ==> looked.spec_action() == Some(load(Word::Waiters, MemOrder::Acquire))
            &&& !contended || waiters.word == 0 ==> {
                &&& clears.spec_action() == Some(
                    Action::Store { word: Word::Handoff, value: 0, order: MemOrder::Relaxed },
                )
                &&& frees.spec_action() == Some(publish_word(Word::Data, 0))
                &&& frees.spec_next(any).spec_action() is None
            }
        }),
{
}

/// How a lock is handed over, whatever the replies are. If the lock is queued
/// for, has a queue of its own and a waiter, the thread registers, offers the
/// lock, reports the handoff with the lock's queue, counts and yields. When it
/// comes back it tries to take the offer back. If the offer was accepted, it
/// leaves the lock alone; if not, it looks at the waiters once more, counts the
/// miss and frees the lock.
pub proof fn law_release_hands_over(
    vip_dsq_id: u64,
    state: Reply,
    waiters: Reply,
    any: Reply,
    back: Reply,
)
    requires
        state.word == 2,
        queued(vip_dsq_id),
        waiters.word != 0,
    ensures
        ({
            let registers = UnlockAttempt::spec_new(vip_dsq_id).spec_next(state).spec_next(waiters);
            let offers = registers.spec_next(any);
            let reports = offers.spec_next(any);
            let counts = reports.spec_next(any);
            let yields = counts.spec_next(any);
            let reclaims = yields.spec_next(any);
            let returned = reclaims.spec_next(back);
            let missed = returned.spec_next(any);
            let frees = missed.spec_next(any);
            &&& registers.spec_action() == Some(Action::Register)
            &&& offers.spec_action() == Some(publish_word(Word::Handoff, 1))
            &&& reports.spec_action() == Some(Action::Publish { reason: 2, vip_dsq_id })
            &&& counts.spec_action() == Some(count(Counter::HandoffYield))
            &&& yields.spec_action() == Some(Action::Yield)
            &&& reclaims.spec_action() == Some(accept())
            &&& !back.swapped ==> returned.spec_action() is None
            &&& back.swapped ==> {
                &&& returned.spec_action() == Some(load(Word::Waiters, MemOrder::Acquire))
                &&& missed.spec_action() == Some(count(Counter::HandoffMiss))
                &&& frees.spec_action() == Some(publish_word(Word::Data, 0))
                &&& frees.spec_next(any).spec_action() is None
            }
        }),
{
}

/// What a release that runs alone comes to. The lock is free and not on offer,
/// and its waiters and its queue are what they were. If it was queued for, had
/// a queue of its own and a waiter, one offer and one miss were counted and
/// the scheduler was told; if not, nothing else has changed.
pub proof fn law_release_alone(lock: SpinparkLock, before: YieldCounters, after: YieldCounters)
    requires
        counted_release(lock, before, after),
    ensures
        released(lock).data == 0,
        released(lock).handoff == 0,
        released(lock).waiters == lock.waiters,
        released(lock).vip_dsq_id == lock.vip_dsq_id,
        ({
            let offers = lock.data == 2 && queued(lock.vip_dsq_id) && lock.waiters > 0;
            &&& offers_lock(lock) <==> offers
            &&& told_by_release(lock) == if offers {
                seq![
                    Action::Register,
                    Action::Publish { reason: 2, vip_dsq_id: lock.vip_dsq_id },
                    Action::Yield,
                ]
            } else {
                Seq::empty()
            }
            &&& advanced(before, after, Counter::HandoffYield, offers)
            &&& advanced(before, after, Counter::HandoffMiss, offers)
            &&& advanced(before, after, Counter::LockAcquire, false)
            &&& advanced(before, after, Counter::ContentionYield, false)
            &&& advanced(before, after, Counter::RequeueYield, false)
            &&& advanced(before, after, Counter::FallbackYield, false)
            &&& advanced(before, after, Counter::HandoffTaken, false)
        }),
{
}

/// Whether a counter has advanced by one, or stayed.
pub open spec fn advanced(
    before: YieldCounters,
    after: YieldCounters,
    counter: Counter,
    by_one: bool,
) -> bool {
    after.value(counter) == if by_one {
        before.value(counter).wrapping_add(1)
    } else {
        before.value(counter)
    }
}

/// What an attempt that runs alone comes to. A free lock is held, and nothing
/// else has changed; a lock on offer is held and no longer on offer, with the
/// waiters that it had and a state that says whether there are any. The
/// acquisition was counted, and the offer if there was one.
pub proof fn law_acquire_alone(lock: SpinparkLock, before: YieldCounters, after: YieldCounters)
    requires
        counted_acquire(lock, before, after),
        lock.waiters < u32::MAX,
    ensures
        obtainable(lock) <==> lock.data == 0 || (lock.handoff == 1 && queued(lock.vip_dsq_id)),
        obtained(lock).vip_dsq_id == lock.vip_dsq_id,
        obtained(lock).waiters == lock.waiters,
        lock.data == 0 ==> obtained(lock).data == 1 && obtained(lock).handoff == lock.handoff,
        lock.data != 0 ==> obtained(lock).data == state_with(lock.waiters as int) && obtained(
            lock,
        ).handoff == 0,
        advanced(before, after, Counter::LockAcquire, true),
        advanced(before, after, Counter::HandoffTaken, lock.data != 0),
        advanced(before, after, Counter::HandoffYield, false),
        advanced(before, after, Counter::HandoffMiss, false),
        advanced(before, after, Counter::ContentionYield, false),
        advanced(before, after, Counter::RequeueYield, false),
        advanced(before, after, Counter::FallbackYield, false),
{
    assert(lock.waiters.wrapping_add(1) == lock.waiters + 1);
}

/// What a wait that runs alone counts: one acquisition, and one offer and one
/// miss if its release offers the lock.
pub proof fn law_wait_alone_counts(lock: SpinparkLock, before: YieldCounters, after: YieldCounters)
    requires
        counted_wait(lock, before, after),
    ensures
        ({
            let offers = lock.data == 2 && queued(lock.vip_dsq_id) && lock.waiters > 0;
            &&& advanced(before, after, Counter::LockAcquire, true)
            &&& advanced(before, after, Counter::HandoffYield, offers)
            &&& advanced(before, after, Counter::HandoffMiss, offers)
            &&& advanced(before, after, Counter::HandoffTaken, false)
            &&& advanced(before, after, Counter::ContentionYield, false)
            &&& advanced(before, after, Counter::RequeueYield, false)
            &&& advanced(before, after, Counter::FallbackYield, false)
        }),
{
}

/// What becomes of the words when a thread settles or accepts an offer, with
/// no other thread at work.
pub proof fn law_settling_alone(lock: SpinparkLock)
    ensures
        settled(lock).waiters == if lock.waiters > 0 {
            lock.waiters - 1
        } else {
            0
        },
        settled(lock).data == state_with(lock.waiters - 1),
        settled(lock).handoff == lock.handoff,
        settled(lock).vip_dsq_id == lock.vip_dsq_id,
        consumed(lock, true).waiters == settled(lock).waiters,
        consumed(lock, true).data == settled(lock).data,
        consumed(lock, true).handoff == 0,
        consumed(lock, true).vip_dsq_id == lock.vip_dsq_id,
        consumed(lock, false).waiters == lock.waiters,
        consumed(lock, false).data == state_with(lock.waiters as int),
        consumed(lock, false).handoff == 0,
        consumed(lock, false).vip_dsq_id == lock.vip_dsq_id,
{
}

} // verus!

//! How the event counters of a lock go together.

use crate::acquire::{LockAt, LockAttempt, Site};
use crate::condvar::CondReply;
use crate::counters::Counter;
use crate::exclusion::{is_history, lemma_history, Crowd, Thread};
use crate::sums::{lemma_total_update, lemma_total_zero, one_if, total};
use crate::waiting::Consume;
use crate::words::{Action, Reply};
use vstd::prelude::*;

verus! {

/// Whether the thread has accepted an offer, has counted that, and is about to
/// count that it has acquired the lock.
pub open spec fn acquiring(thread: Thread) -> bool {
    thread.taking() matches Some(attempt) && attempt.at matches LockAt::Consume {
        site: _,
        step: Consume::CountAcquire,
    }
}

/// How many threads are about to do so.
pub open spec fn acquirers(threads: Seq<Thread>) -> int {
    total(threads, |t: Thread| one_if(acquiring(t)))
}

/// Whether an attempt has counted its first park. A waiter has, unless it is
/// on its way to that park, or has the lock.
spec fn has_parked(attempt: LockAttempt) -> bool {
    attempt.waiter_accounted && match attempt.at {
        LockAt::Recheck
        | LockAt::Retake
        | LockAt::Register
        | LockAt::Publish
        | LockAt::CountPark
        | LockAt::Consume { site: Site::Parking, .. } => !attempt.first_park,
        LockAt::Settle { .. } => false,
        _ => true,
    }
}

/// Whether an attempt that is about to be counted as a waiter knows that its
/// first park is ahead.
spec fn knows_first_park(attempt: LockAttempt) -> bool {
    attempt.at == LockAt::Announce ==> attempt.first_park
}

/// What holds of one thread before and after every step.
spec fn parks_well(thread: Thread, parks: int) -> bool {
    match thread.taking() {
        Some(attempt) => knows_first_park(attempt) && (has_parked(attempt) ==> parks > 0),
        None => true,
    }
}

/// What holds of the counters before and after every step.
spec fn tallies_agree(crowd: Crowd) -> bool {
    let counts = crowd.counts;
    &&& 0 <= counts[Counter::HandoffTaken] <= counts[Counter::LockAcquire] + acquirers(
        crowd.threads,
    )
    &&& counts[Counter::ContentionYield] >= 0
    &&& counts[Counter::RequeueYield] > 0 ==> counts[Counter::ContentionYield] > 0
    &&& forall|i: int|
        0 <= i < crowd.threads.len() ==> parks_well(
            #[trigger] crowd.threads[i],
            counts[Counter::ContentionYield],
        )
}

/// An attempt comes to have parked only by counting its first park.
proof fn lemma_attempt_parks(attempt: LockAttempt, reply: Reply)
    requires
        knows_first_park(attempt),
    ensures
        knows_first_park(attempt.spec_next(reply)),
        has_parked(attempt.spec_next(reply)) ==> has_parked(attempt) || attempt.spec_action()
            == Some(Action::Count { counter: Counter::ContentionYield }),
        attempt.spec_action() == Some(
            Action::Count { counter: Counter::RequeueYield },
        ) && attempt.waiter_accounted ==> has_parked(attempt),
{
}

proof fn lemma_act_tallies(pre: Crowd, post: Crowd, i: int, reply: CondReply)
    requires
        pre.consistent(),
        tallies_agree(pre),
        pre.act(post, i, reply),
    ensures
        tallies_agree(post),
{
    let from = pre.threads[i];
    let to = from.after(reply);
    let parks = pre.counts[Counter::ContentionYield];
    lemma_total_update(pre.threads, i, to, |t: Thread| one_if(acquiring(t)));
    assert(from.sound(pre.lock.vip_dsq_id));
    assert(parks_well(from, parks));
    if let Some(attempt) = from.taking() {
        lemma_attempt_parks(attempt, reply.lock);
    }
    assert(parks_well(to, post.counts[Counter::ContentionYield]));
    assert forall|j: int| 0 <= j < post.threads.len() implies parks_well(
        #[trigger] post.threads[j],
        post.counts[Counter::ContentionYield],
    ) by {
        if j != i {
            assert(parks_well(pre.threads[j], parks));
        }
    }
}

proof fn lemma_tallies(history: Seq<Crowd>, k: int)
    requires
        is_history(history),
        0 <= k < history.len(),
    ensures
        tallies_agree(history[k]),
    decreases k,
{
    if k == 0 {
        lemma_total_zero(history[0].threads, |t: Thread| one_if(acquiring(t)));
    } else {
        let pre = history[k - 1];
        let post = history[k];
        lemma_history(history, k - 1);
        lemma_tallies(history, k - 1);
        assert(pre.step(history[k - 1 + 1]));
        if exists|i: int| pre.call(post, i) {
            let i = choose|i: int| pre.call(post, i);
            let to = post.threads[i];
            lemma_total_update(pre.threads, i, to, |t: Thread| one_if(acquiring(t)));
            assert forall|j: int| 0 <= j < post.threads.len() implies parks_well(
                #[trigger] post.threads[j],
                post.counts[Counter::ContentionYield],
            ) by {
                if j != i {
                    assert(parks_well(pre.threads[j], post.counts[Counter::ContentionYield]));
                }
            }
        } else {
            let (i, reply) = choose|i: int, reply: CondReply| pre.act(post, i, reply);
            lemma_act_tallies(pre, post, i, reply);
        }
    }
}

/// Whoever accepts an offer acquires the lock: the accepted offers are never
/// more than the acquisitions and those that are about to be counted, and
/// never more than the acquisitions while no operation is under way.
pub proof fn law_accepted_offers_acquire(history: Seq<Crowd>, k: int)
    requires
        is_history(history),
        0 <= k < history.len(),
    ensures
        history[k].counts[Counter::HandoffTaken] <= history[k].counts[Counter::LockAcquire]
            + acquirers(history[k].threads),
        (forall|i: int|
            0 <= i < history[k].threads.len() ==> !(#[trigger] history[k].threads[i]).busy())
            ==> history[k].counts[Counter::HandoffTaken]
            <= history[k].counts[Counter::LockAcquire],
{
    lemma_tallies(history, k);
    let threads = history[k].threads;
    if forall|i: int| 0 <= i < threads.len() ==> !(#[trigger] threads[i]).busy() {
        assert forall|i: int| 0 <= i < threads.len() implies !acquiring(#[trigger] threads[i]) by {
            assert(!threads[i].busy());
        }
        lemma_total_zero(threads, |t: Thread| one_if(acquiring(t)));
    }
}

/// A thread parks again only after it has parked: at no time has a repeated
/// park been counted without a first one.
pub proof fn law_requeue_follows_contention(history: Seq<Crowd>, k: int)
    requires
        is_history(history),
        0 <= k < history.len(),
    ensures
        history[k].counts[Counter::RequeueYield] > 0
            ==> history[k].counts[Counter::ContentionYield] > 0,
{
    lemma_tallies(history, k);
}

} // verus!

//! How waiters conduct themselves, as seen from outside: which action follows
//! which, whatever the replies are.

use crate::acquire::{LockAt, LockAttempt};
use crate::condvar::{
    cond_effect, returns_alone, Broadcast, CondAction, CondAt, CondReply, CondWait, CondWord,
    SpinparkCond, Timespec,
};
use crate::release::UnlockAttempt;
use crate::words::{Errno, MemOrder, Reply};
use vstd::prelude::*;

verus! {

/// Reading which tickets may pass.
pub open spec fn look() -> CondAction {
    CondAction::Load { word: CondWord::Sequence, order: MemOrder::Acquire }
}

/// The replies about the lock.
pub open spec fn lock_replies(replies: Seq<CondReply>) -> Seq<Reply> {
    replies.map_values(|r: CondReply| r.lock)
}

impl UnlockAttempt {
    /// The release after all the replies.
    pub open spec fn after_all(self, replies: Seq<Reply>) -> Self
        decreases replies.len(),
    {
        if replies.len() == 0 {
            self
        } else {
            self.after_all(replies.drop_last()).spec_next(replies.last())
        }
    }
}

/// A wait draws a ticket, looks which tickets may pass, and sets out to
/// release the lock.
pub proof fn law_wait_begins(
    vip_dsq_id: u64,
    deadline: Option<Timespec>,
    drawn: CondReply,
    looked: CondReply,
)
    ensures
        ({
            let fresh = CondWait::spec_new(vip_dsq_id, deadline);
            let looks = fresh.spec_next(drawn);
            let releases = looks.spec_next(looked);
            &&& fresh.spec_action() == Some(
                CondAction::Increment { word: CondWord::Target, order: MemOrder::Relaxed },
            )
            &&& looks.spec_action() == Some(look())
            &&& looks.ticket == drawn.word.wrapping_add(1)
            &&& releases.spec_action() == Some(
                CondAction::Lock {
                    action: UnlockAttempt::spec_new(vip_dsq_id).spec_action()->Some_0,
                },
            )
            &&& releases.ticket == looks.ticket
            &&& releases.seq == looked.word
            &&& releases.deadline == deadline
            &&& releases.vip_dsq_id == vip_dsq_id
            &&& releases.backoff == 0
        }),
{
}

/// Whether a release that gets these replies is not over before the last.
pub open spec fn releasing(vip_dsq_id: u64, replies: Seq<Reply>) -> bool {
    forall|k: int|
        0 <= k < replies.len() ==> (#[trigger] UnlockAttempt::spec_new(vip_dsq_id).after_all(
            replies.take(k),
        )).spec_action() is Some
}

proof fn lemma_releases(begun: CondWait, replies: Seq<CondReply>)
    requires
        begun.at == (CondAt::Release { step: UnlockAttempt::spec_new(begun.vip_dsq_id) }),
        releasing(begun.vip_dsq_id, lock_replies(replies)),
    ensures
        ({
            let step = UnlockAttempt::spec_new(begun.vip_dsq_id).after_all(lock_replies(replies));
            let wait = begun.after_all(replies);
            if step.spec_action() is Some {
                wait == begun.moved(CondAt::Release { step })
            } else {
                replies.len() > 0 && wait == begun.looked()
            }
        }),
    decreases replies.len(),
{
    if replies.len() > 0 {
        let earlier = replies.drop_last();
        let all = lock_replies(replies);
        let fresh = UnlockAttempt::spec_new(begun.vip_dsq_id);
        assert(lock_replies(earlier) =~= all.drop_last());
        assert forall|k: int| 0 <= k < lock_replies(earlier).len() implies (
        #[trigger] fresh.after_all(lock_replies(earlier).take(k))).spec_action() is Some by {
            assert(lock_replies(earlier).take(k) =~= all.take(k));
        }
        lemma_releases(begun, earlier);
        assert(all.take(all.len() - 1) =~= all.drop_last());
        assert(fresh.after_all(all.take(all.len() - 1)).spec_action() is Some);
    }
}

/// While a wait releases the lock it does to the lock exactly what a release
/// does that gets the same replies. When the release is over, the wait goes by
/// what it saw before: it sets out to take the lock again if its ticket may
/// pass; if not, it looks at the clock if it has a deadline, and pauses if it
/// has none.
pub proof fn law_wait_releases(
    vip_dsq_id: u64,
    deadline: Option<Timespec>,
    drawn: CondReply,
    looked: CondReply,
    replies: Seq<CondReply>,
)
    requires
        releasing(vip_dsq_id, lock_replies(replies)),
    ensures
        ({
            let begun = CondWait::spec_new(vip_dsq_id, deadline).spec_next(drawn).spec_next(looked);
            let wait = begun.after_all(replies);
            let ticket = drawn.word.wrapping_add(1);
            match UnlockAttempt::spec_new(vip_dsq_id).after_all(
                lock_replies(replies),
            ).spec_action() {
                Some(action) => wait.spec_action() == Some(CondAction::Lock { action }),
                None => if ticket <= looked.word {
                    wait.at == (CondAt::Relock {
                        attempt: LockAttempt::spec_new(vip_dsq_id),
                        timed_out: false,
                    })
                } else if deadline is Some {
                    wait.spec_action() == Some(CondAction::ReadClock)
                } else {
                    wait.spec_action() == Some(CondAction::Spin)
                },
            }
        }),
{
    let begun = CondWait::spec_new(vip_dsq_id, deadline).spec_next(drawn).spec_next(looked);
    lemma_releases(begun, replies);
}

/// While a wait takes the lock again it does to the lock exactly what an
/// attempt does that gets the same replies, and it is over when the attempt
/// is, with the outcome that it had before.
pub proof fn law_wait_relocks_like_an_attempt(
    wait: CondWait,
    attempt: LockAttempt,
    timed_out: bool,
    replies: Seq<CondReply>,
)
    requires
        wait.at == (CondAt::Relock { attempt, timed_out }),
        attempt.spec_action() is Some,
    ensures
        ({
            let end = wait.after_all(replies);
            match attempt.after_all(lock_replies(replies)).spec_action() {
                Some(action) => end.spec_action() == Some(CondAction::Lock { action })
                    && end.spec_outcome() is None,
                None => end.spec_action() is None && end.spec_outcome() == Some(
                    if timed_out {
                        Err::<(), Errno>(Errno::TimedOut)
                    } else {
                        Ok::<(), Errno>(())
                    },
                ),
            }
        }),
{
    lemma_relocks(wait, attempt, timed_out, replies);
}

proof fn lemma_relocks(
    wait: CondWait,
    attempt: LockAttempt,
    timed_out: bool,
    replies: Seq<CondReply>,
)
    requires
        wait.at == (CondAt::Relock { attempt, timed_out }),
        attempt.spec_action() is Some,
    ensures
        ({
            let reached = attempt.after_all(lock_replies(replies));
            wait.after_all(replies) == wait.moved(
                if reached.spec_action() is None {
                    CondAt::Done { timed_out }
                } else {
                    CondAt::Relock { attempt: reached, timed_out }
                },
            )
        }),
    decreases replies.len(),
{
    if replies.len() > 0 {
        lemma_relocks(wait, attempt, timed_out, replies.drop_last());
        assert(lock_replies(replies.drop_last()) =~= lock_replies(replies).drop_last());
        let before = attempt.after_all(lock_replies(replies.drop_last()));
        lemma_attempt_stays(before, replies.last().lock);
    }
}

/// An attempt that is over stays over.
proof fn lemma_attempt_stays(attempt: LockAttempt, reply: Reply)
    ensures
        attempt.at == LockAt::Acquired ==> attempt.spec_next(reply) == attempt,
{
}

/// After every pause a waiter looks again which tickets may pass, whatever it
/// saw before, and it keeps its ticket and its deadline.
pub proof fn law_pause_then_look(wait: CondWait, reply: CondReply)
    requires
        wait.spec_action() == Some(CondAction::Spin) || wait.spec_action() == Some(
            CondAction::YieldCpu,
        ),
    ensures
        wait.spec_next(reply).spec_action() == Some(look()),
        wait.spec_next(reply).at == CondAt::Look,
        wait.spec_next(reply).ticket == wait.ticket,
        wait.spec_next(reply).deadline == wait.deadline,
        wait.spec_next(reply).vip_dsq_id == wait.vip_dsq_id,
{
}

/// A wait keeps its lock and its deadline throughout, and its ticket once it
/// is drawn. What it goes by is what it has read last: the tickets that may
/// pass when it has looked, and the time when it has read the clock.
pub proof fn law_wait_keeps_its_ticket(wait: CondWait, reply: CondReply)
    ensures
        ({
            let next = wait.spec_next(reply);
            &&& next.vip_dsq_id == wait.vip_dsq_id
            &&& next.deadline == wait.deadline
            &&& next.ticket == if wait.at == CondAt::DrawTicket {
                reply.word.wrapping_add(1)
            } else {
                wait.ticket
            }
            &&& next.seq == if wait.spec_action() == Some(look()) {
                reply.word
            } else {
                wait.seq
            }
            &&& next.now == if wait.spec_action() == Some(CondAction::ReadClock) {
                reply.now
            } else {
                wait.now
            }
        }),
{
}

/// A waiter that has looked at the clock takes the lock again, with the news
/// that it has timed out, exactly if the clock shows the deadline or later:
/// more seconds, or as many and no fewer nanoseconds. If not, it pauses.
pub proof fn law_clock_decides(wait: CondWait, deadline: Timespec, reply: CondReply)
    requires
        wait.spec_action() == Some(CondAction::ReadClock),
        wait.deadline == Some(deadline),
    ensures
        ({
            let next = wait.spec_next(reply);
            let now = reply.now;
            if now.tv_sec > deadline.tv_sec || (now.tv_sec == deadline.tv_sec && now.tv_nsec
                >= deadline.tv_nsec) {
                next.at == (CondAt::Relock {
                    attempt: LockAttempt::spec_new(wait.vip_dsq_id),
                    timed_out: true,
                })
            } else {
                next.spec_action() == Some(CondAction::Spin) || next.spec_action() == Some(
                    CondAction::YieldCpu,
                )
            }
        }),
{
}

/// A waiter spins through 255 pauses and gives up its CPU in the next, over
/// and over: a pause is spun through exactly if fewer than 255 were since the
/// last that was not, and nothing but pauses counts.
pub proof fn law_every_256th_pause_yields(wait: CondWait, reply: CondReply)
    requires
        wait.wf(),
    ensures
        ({
            let next = wait.spec_next(reply);
            let pauses = next.spec_action() == Some(CondAction::Spin) || next.spec_action() == Some(
                CondAction::YieldCpu,
            );
            &&& pauses ==> (next.spec_action() == Some(CondAction::Spin)) == (wait.backoff < 255)
            &&& next.backoff == if !pauses {
                wait.backoff as int
            } else if wait.backoff < 255 {
                wait.backoff + 1
            } else {
                0
            }
        }),
{
}

/// A waiter whose ticket may pass comes back: wherever it stands after the
/// release, if it finds its ticket among those that may pass and no deadline
/// has come, it sets out to take the lock within three steps, and is not told
/// that it has timed out.
pub proof fn law_passed_waiter_comes_back(wait: CondWait, cond: SpinparkCond, reply: CondReply)
    requires
        wait.ticket <= cond.seq,
        reply.word == cond.seq,
        wait.deadline matches Some(deadline) ==> reply.now.before(deadline),
        wait.at == CondAt::ReadClock || wait.at is Pause || wait.at == CondAt::Look,
    ensures
        ({
            let first = wait.spec_next(reply);
            let second = first.spec_next(reply);
            let third = second.spec_next(reply);
            let back = CondAt::Relock {
                attempt: LockAttempt::spec_new(wait.vip_dsq_id),
                timed_out: false,
            };
            first.at == back || second.at == back || third.at == back
        }),
{
}

/// What a caller is told: that it has timed out, or that all is well, and
/// nothing while the wait is not over.
pub proof fn law_wait_is_answered(wait: CondWait)
    ensures
        wait.at == (CondAt::Done { timed_out: true }) ==> wait.spec_outcome() == Some(
            Err::<(), Errno>(Errno::TimedOut),
        ),
        wait.at == (CondAt::Done { timed_out: false }) ==> wait.spec_outcome() == Some(
            Ok::<(), Errno>(()),
        ),
        !(wait.at is Done) ==> wait.spec_outcome() is None,
        wait.at is Done ==> wait.spec_action() is None,
{
}

/// A broadcast reads the last ticket that was drawn and stores just that as
/// the last that may pass, whatever it was before.
pub proof fn law_broadcast_passes_what_it_read(word: u32, any: u32)
    ensures
        Broadcast::ReadTicket.spec_action() == Some(
            CondAction::Load { word: CondWord::Target, order: MemOrder::Acquire },
        ),
        Broadcast::ReadTicket.spec_next(word).spec_action() == Some(
            CondAction::Store { word: CondWord::Sequence, value: word, order: MemOrder::Release },
        ),
        Broadcast::ReadTicket.spec_next(word).spec_next(any).spec_action() is None,
{
}

/// Every access of a wait to the condition variable has the order that it
/// needs: drawing a ticket needs none, and every look acquires what the
/// signals and broadcasts release.
pub proof fn law_wait_accesses_are_ordered(wait: CondWait)
    ensures
        match wait.spec_action() {
            Some(CondAction::Load { word, order }) => word == CondWord::Sequence && order
                == MemOrder::Acquire,
            Some(CondAction::Increment { word, order }) => word == CondWord::Target && order
                == MemOrder::Relaxed,
            Some(CondAction::Store { .. }) => false,
            _ => true,
        },
{
}

/// A point in time comes before another if it has fewer seconds, or as many
/// and fewer nanoseconds; a ticket may pass if it is not above the last that
/// may.
pub proof fn law_what_comes_first(a: Timespec, b: Timespec, cond: SpinparkCond, ticket: u32)
    ensures
        a.tv_sec < b.tv_sec ==> a.before(b) && !b.before(a),
        a.tv_sec == b.tv_sec ==> (a.before(b) <==> a.tv_nsec < b.tv_nsec),
        cond.passes(ticket) <==> ticket <= cond.seq,
{
}

/// An action on a condition variable touches the word that it names and no
/// other: a load leaves it, a store writes it, and an increment adds one to it.
/// What a load or an increment finds is what the word held.
pub proof fn law_cond_action_touches_one_word(
    pre: SpinparkCond,
    action: CondAction,
    word: u32,
    post: SpinparkCond,
)
    requires
        cond_effect(pre, action, word, post),
    ensures
        match action {
            CondAction::Load { word: CondWord::Sequence, .. } => word == pre.seq && post == pre,
            CondAction::Load { word: CondWord::Target, .. } => word == pre.target && post == pre,
            CondAction::Store { word: CondWord::Sequence, value, .. } => post.seq == value
                && post.target == pre.target,
            CondAction::Store { word: CondWord::Target, value, .. } => post.target == value
                && post.seq == pre.seq,
            CondAction::Increment { word: CondWord::Sequence, .. } => word == pre.seq && post.seq
                == pre.seq.wrapping_add(1) && post.target == pre.target,
            CondAction::Increment { word: CondWord::Target, .. } => word == pre.target
                && post.target == pre.target.wrapping_add(1) && post.seq == pre.seq,
            _ => post == pre,
        },
{
}

/// A thread that waits alone comes back if the ticket that it will draw may
/// pass already, or if the clock shows its deadline or later, and in no other
/// case.
pub proof fn law_who_comes_back_alone(
    cond: SpinparkCond,
    deadline: Option<Timespec>,
    now: Timespec,
)
    ensures
        returns_alone(cond, deadline, now) <==> cond.target.wrapping_add(1) <= cond.seq || (deadline
            matches Some(at) && (now.tv_sec > at.tv_sec || (now.tv_sec == at.tv_sec && now.tv_nsec
            >= at.tv_nsec))),
{
}

} // verus!

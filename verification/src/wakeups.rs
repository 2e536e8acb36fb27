//! What becomes of the waiters of a condition however the threads take turns.
//!
//! A [`Gathering`] is a condition variable with all the waits and broadcasts
//! that are ever made on it. In each step a wait or a broadcast performs one
//! action, or some thread signals. What the waits learn of the lock and the
//! clock may be anything.

use crate::condvar::{cond_effect, Broadcast, CondAt, CondReply, CondWait, SpinparkCond};
use vstd::prelude::*;

verus! {

/// A condition variable, the waits and the broadcasts.
pub struct Gathering {
    pub cond: SpinparkCond,
    pub waits: Seq<CondWait>,
    pub broadcasts: Seq<Broadcast>,
    /// How many tickets were drawn.
    pub drawn: int,
    /// How many signals were sent.
    pub signals: int,
}

/// Whether a wait has a ticket.
pub open spec fn has_ticket(wait: CondWait) -> bool {
    wait.at != CondAt::DrawTicket
}

impl Gathering {
    /// A new condition variable, and nothing begun.
    pub open spec fn fresh(self) -> bool {
        &&& self.cond == (SpinparkCond { seq: 0, target: 0 })
        &&& self.drawn == 0
        &&& self.signals == 0
        &&& forall|i: int|
            0 <= i < self.waits.len() ==> (#[trigger] self.waits[i]) == CondWait::spec_new(
                self.waits[i].vip_dsq_id,
                self.waits[i].deadline,
            )
        &&& forall|j: int|
            0 <= j < self.broadcasts.len() ==> (#[trigger] self.broadcasts[j])
                == Broadcast::ReadTicket
    }

    /// Whether wait `i` can turn `self` into `next` by performing its next
    /// action and getting `reply`.
    pub open spec fn wait_acts(self, next: Gathering, i: int, reply: CondReply) -> bool {
        let wait = self.waits[i];
        &&& 0 <= i < self.waits.len()
        &&& wait.spec_action() is Some
        &&& cond_effect(self.cond, wait.spec_action()->Some_0, reply.word, next.cond)
        &&& next.waits == self.waits.update(i, wait.spec_next(reply))
        &&& next.broadcasts == self.broadcasts
        &&& next.drawn == self.drawn + if has_ticket(wait) {
            0int
        } else {
            1
        }
        &&& next.signals == self.signals
    }

    /// Whether broadcast `j` can turn `self` into `next` by performing its
    /// next action and finding `word`.
    pub open spec fn broadcast_acts(self, next: Gathering, j: int, word: u32) -> bool {
        let broadcast = self.broadcasts[j];
        &&& 0 <= j < self.broadcasts.len()
        &&& broadcast.spec_action() is Some
        &&& cond_effect(self.cond, broadcast.spec_action()->Some_0, word, next.cond)
        &&& next.broadcasts == self.broadcasts.update(j, broadcast.spec_next(word))
        &&& next.waits == self.waits
        &&& next.drawn == self.drawn
        &&& next.signals == self.signals
    }

    /// Whether a signal can turn `self` into `next`.
    pub open spec fn signal(self, next: Gathering) -> bool {
        next == Gathering {
            cond: SpinparkCond { seq: self.cond.seq.wrapping_add(1), ..self.cond },
            signals: self.signals + 1,
            ..self
        }
    }

    /// Whether some thread can turn `self` into `next` in one step.
    pub open spec fn step(self, next: Gathering) -> bool {
        ||| exists|i: int, reply: CondReply| self.wait_acts(next, i, reply)
        ||| exists|j: int, word: u32| self.broadcast_acts(next, j, word)
        ||| self.signal(next)
    }

    /// Whether the words have not been counted past their range.
    pub open spec fn in_range(self) -> bool {
        self.drawn + self.signals <= u32::MAX
    }

    /// Whether every broadcast that has looked and not stored yet is going to
    /// let `ticket` pass.
    pub open spec fn none_behind(self, ticket: u32) -> bool {
        forall|j: int|
            0 <= j < self.broadcasts.len() ==> ((#[trigger] self.broadcasts[j])
                matches Broadcast::Pass { ticket: last } ==> ticket <= last)
    }

    /// What holds before and after every step.
    spec fn consistent(self) -> bool {
        &&& 0 <= self.drawn
        &&& 0 <= self.signals
        &&& self.cond.target == self.drawn
        &&& self.cond.seq <= self.drawn + self.signals
        &&& forall|i: int|
            0 <= i < self.waits.len() ==> self.wait_sound(#[trigger] self.waits[i])
        &&& forall|j: int|
            0 <= j < self.broadcasts.len() ==> self.broadcast_sound(#[trigger] self.broadcasts[j])
        &&& forall|i: int, j: int|
            0 <= i < self.waits.len() && 0 <= j < self.waits.len() && i != j ==> ticket_apart(
                #[trigger] self.waits[i],
                #[trigger] self.waits[j],
            )
    }

    spec fn wait_sound(self, wait: CondWait) -> bool {
        has_ticket(wait) ==> 0 < wait.ticket <= self.cond.target
    }

    spec fn broadcast_sound(self, broadcast: Broadcast) -> bool {
        broadcast matches Broadcast::Pass { ticket } ==> ticket <= self.cond.target
    }
}

/// Whether two waits do not have the same ticket.
pub open spec fn ticket_apart(wait: CondWait, other: CondWait) -> bool {
    has_ticket(wait) && has_ticket(other) ==> wait.ticket != other.ticket
}

/// Whether `history` is what can happen to a new condition variable, step by
/// step, as long as its words are not counted past their range.
pub open spec fn is_gathering(history: Seq<Gathering>) -> bool {
    &&& history.len() > 0
    &&& history[0].fresh()
    &&& forall|k: int| 0 <= k < history.len() ==> (#[trigger] history[k]).in_range()
    &&& forall|k: int|
        0 <= k < history.len() - 1 ==> (#[trigger] history[k]).step(history[k + 1])
}

/// A wait keeps its ticket.
proof fn lemma_ticket_kept(wait: CondWait, reply: CondReply)
    requires
        has_ticket(wait),
    ensures
        has_ticket(wait.spec_next(reply)),
        wait.spec_next(reply).ticket == wait.ticket,
{
}

proof fn lemma_gathering_step(pre: Gathering, post: Gathering)
    requires
        pre.consistent(),
        pre.in_range(),
        post.in_range(),
        pre.step(post),
    ensures
        post.consistent(),
        post.waits.len() == pre.waits.len(),
        post.broadcasts.len() == pre.broadcasts.len(),
        post.cond.target >= pre.cond.target,
        forall|i: int|
            0 <= i < pre.waits.len() && has_ticket(#[trigger] pre.waits[i]) ==> has_ticket(
                post.waits[i],
            ) && post.waits[i].ticket == pre.waits[i].ticket,
{
    if exists|i: int, reply: CondReply| pre.wait_acts(post, i, reply) {
        let (i, reply) = choose|i: int, reply: CondReply| pre.wait_acts(post, i, reply);
        assert(pre.wait_sound(pre.waits[i]));
        if has_ticket(pre.waits[i]) {
            lemma_ticket_kept(pre.waits[i], reply);
        }
        assert forall|a: int| 0 <= a < post.waits.len() implies post.wait_sound(
            #[trigger] post.waits[a],
        ) by {
            assert(pre.wait_sound(pre.waits[a]));
        }
        assert forall|a: int, b: int|
            0 <= a < post.waits.len() && 0 <= b < post.waits.len() && a != b implies ticket_apart(
            #[trigger] post.waits[a],
            #[trigger] post.waits[b],
        ) by {
            assert(ticket_apart(pre.waits[a], pre.waits[b]));
            assert(pre.wait_sound(pre.waits[a]));
            assert(pre.wait_sound(pre.waits[b]));
        }
        assert forall|b: int| 0 <= b < post.broadcasts.len() implies post.broadcast_sound(
            #[trigger] post.broadcasts[b],
        ) by {
            assert(pre.broadcast_sound(pre.broadcasts[b]));
        }
    } else if exists|j: int, word: u32| pre.broadcast_acts(post, j, word) {
        let (j, word) = choose|j: int, word: u32| pre.broadcast_acts(post, j, word);
        assert(pre.broadcast_sound(pre.broadcasts[j]));
        assert forall|b: int| 0 <= b < post.broadcasts.len() implies post.broadcast_sound(
            #[trigger] post.broadcasts[b],
        ) by {
            assert(pre.broadcast_sound(pre.broadcasts[b]));
        }
        assert forall|a: int| 0 <= a < post.waits.len() implies post.wait_sound(
            #[trigger] post.waits[a],
        ) by {
            assert(pre.wait_sound(pre.waits[a]));
        }
    } else {
        assert forall|a: int| 0 <= a < post.waits.len() implies post.wait_sound(
            #[trigger] post.waits[a],
        ) by {
            assert(pre.wait_sound(pre.waits[a]));
        }
        assert forall|b: int| 0 <= b < post.broadcasts.len() implies post.broadcast_sound(
            #[trigger] post.broadcasts[b],
        ) by {
            assert(pre.broadcast_sound(pre.broadcasts[b]));
        }
    }
}

proof fn lemma_gathering(history: Seq<Gathering>, k: int)
    requires
        is_gathering(history),
        0 <= k < history.len(),
    ensures
        history[k].consistent(),
        history[k].waits.len() == history[0].waits.len(),
        history[k].broadcasts.len() == history[0].broadcasts.len(),
    decreases k,
{
    if k > 0 {
        lemma_gathering(history, k - 1);
        assert(history[k - 1].step(history[k - 1 + 1]));
        lemma_gathering_step(history[k - 1], history[k]);
    }
}

/// No two waits have the same ticket, and none has a ticket that was not
/// drawn.
pub proof fn law_tickets_differ(history: Seq<Gathering>, k: int, i: int, j: int)
    requires
        is_gathering(history),
        0 <= k < history.len(),
        0 <= i < history[k].waits.len(),
        0 <= j < history[k].waits.len(),
    ensures
        i != j ==> ticket_apart(history[k].waits[i], history[k].waits[j]),
        has_ticket(history[k].waits[i]) ==> 0 < history[k].waits[i].ticket
            <= history[k].cond.target,
{
    lemma_gathering(history, k);
    assert(history[k].wait_sound(history[k].waits[i]));
}

/// Whether all broadcasts that are halfway let `ticket` pass, and so does the
/// condition variable once broadcast `j` is done.
spec fn favours(gathering: Gathering, j: int, ticket: u32) -> bool {
    &&& ticket <= gathering.cond.target
    &&& gathering.broadcasts[j] is Done ==> gathering.cond.passes(ticket)
    &&& gathering.none_behind(ticket)
}

proof fn lemma_favours(history: Seq<Gathering>, from: int, k: int, i: int, j: int)
    requires
        is_gathering(history),
        0 <= from <= k < history.len(),
        0 <= i < history[from].waits.len(),
        has_ticket(history[from].waits[i]),
        0 <= j < history[from].broadcasts.len(),
        history[from].broadcasts[j] == Broadcast::ReadTicket,
        history[from].none_behind(history[from].waits[i].ticket),
    ensures
        has_ticket(history[k].waits[i]),
        history[k].waits[i].ticket == history[from].waits[i].ticket,
        favours(history[k], j, history[from].waits[i].ticket),
    decreases k,
{
    let ticket = history[from].waits[i].ticket;
    lemma_gathering(history, from);
    assert(history[from].wait_sound(history[from].waits[i]));
    if k > from {
        let pre = history[k - 1];
        let post = history[k];
        lemma_favours(history, from, k - 1, i, j);
        lemma_gathering(history, k - 1);
        assert(pre.step(history[k - 1 + 1]));
        lemma_gathering_step(pre, post);
        assert(has_ticket(pre.waits[i]));
        if exists|a: int, reply: CondReply| pre.wait_acts(post, a, reply) {
            let (a, reply) = choose|a: int, reply: CondReply| pre.wait_acts(post, a, reply);
            assert(post.cond.seq == pre.cond.seq);
        } else if exists|b: int, word: u32| pre.broadcast_acts(post, b, word) {
            let (b, word) = choose|b: int, word: u32| pre.broadcast_acts(post, b, word);
            assert(pre.broadcasts[b] matches Broadcast::Pass { ticket: last } ==> ticket <= last);
        }
        assert forall|b: int| 0 <= b < post.broadcasts.len() implies ((
        #[trigger] post.broadcasts[b]) matches Broadcast::Pass { ticket: last } ==> ticket <= last)
            by {
            assert(pre.broadcasts[b] matches Broadcast::Pass { ticket: last } ==> ticket <= last);
        }
    }
}

/// No wake-up is lost: take a wait that has drawn its ticket, and a broadcast
/// that begins after that, while no other broadcast is halfway that is going
/// to store less than the ticket. Once the broadcast is done the ticket may
/// pass, and it may from then on, whatever signals, other broadcasts and new
/// waiters follow. Whenever the waiter then looks, it goes on to take the
/// lock.
pub proof fn law_no_wakeup_lost(
    history: Seq<Gathering>,
    from: int,
    end: int,
    k: int,
    i: int,
    j: int,
    reply: CondReply,
)
    requires
        is_gathering(history),
        0 <= from <= end <= k < history.len(),
        0 <= i < history[from].waits.len(),
        has_ticket(history[from].waits[i]),
        0 <= j < history[from].broadcasts.len(),
        history[from].broadcasts[j] == Broadcast::ReadTicket,
        history[from].none_behind(history[from].waits[i].ticket),
        history[end].broadcasts[j] == Broadcast::Done,
        reply.word == history[k].cond.seq,
    ensures
        history[k].waits[i].ticket == history[from].waits[i].ticket,
        history[k].cond.passes(history[k].waits[i].ticket),
        history[k].waits[i].at == CondAt::Look ==> (history[k].waits[i].spec_next(reply).at matches
            CondAt::Relock { timed_out: false, .. }),
        history[k].waits[i].at == CondAt::FirstLook ==> (history[k].waits[i].spec_next(
            reply,
        ).looked().at matches CondAt::Relock { timed_out: false, .. }),
{
    lemma_gathering(history, from);
    lemma_stays_done(history, end, k, j);
    lemma_favours(history, from, k, i, j);
    lemma_goes_on(history[k].waits[i], history[k].cond, reply);
}

/// A waiter that looks and finds that its ticket may pass goes on.
proof fn lemma_goes_on(wait: CondWait, cond: SpinparkCond, reply: CondReply)
    requires
        cond.passes(wait.ticket),
        reply.word == cond.seq,
    ensures
        wait.at == CondAt::Look ==> (wait.spec_next(reply).at matches CondAt::Relock {
            timed_out: false,
            ..
        }),
        wait.at == CondAt::FirstLook ==> (wait.spec_next(reply).looked().at matches CondAt::Relock {
            timed_out: false,
            ..
        }),
{
}

proof fn lemma_stays_done(history: Seq<Gathering>, end: int, k: int, j: int)
    requires
        is_gathering(history),
        0 <= end <= k < history.len(),
        0 <= j < history[0].broadcasts.len(),
        history[end].broadcasts[j] == Broadcast::Done,
    ensures
        history[k].broadcasts[j] == Broadcast::Done,
    decreases k,
{
    if k > end {
        lemma_stays_done(history, end, k - 1, j);
        lemma_gathering(history, k - 1);
        assert(history[k - 1].step(history[k - 1 + 1]));
    }
}

} // verus!

//! What comes of threads that race for the same thing: for an offer, to leave
//! the count of waiters, or to find the key of the thread cleanup.
//!
//! In each step of a race one thread performs one action of its protocol. The
//! threads may take turns in any way, and a weak exchange may fail for no
//! reason.

use crate::exclusion::settle_sound;
use crate::report::{KeyAction, KeyReply, KeySearch};
use crate::sums::{
    lemma_total_bounds, lemma_total_pair, lemma_total_same, lemma_total_update, lemma_total_zero,
    one_if, total,
};
use crate::waiting::{Consume, DropWaiter};
use crate::words::{effect, Reply, SpinparkLock};
use vstd::prelude::*;

verus! {

/// One of the threads that race for an offer.
pub struct Taker {
    pub step: Consume,
    /// Whether the thread is counted as a waiter.
    pub accounted: bool,
}

/// A lock, and the threads that race for an offer of it.
pub struct Takers {
    pub lock: SpinparkLock,
    pub takers: Seq<Taker>,
}

impl Taker {
    /// Whether the thread has accepted the offer.
    pub open spec fn accepted(self) -> bool {
        self.step != Consume::Accept && self.step != (Consume::Done { taken: false })
    }

    /// Whether the thread was told that it has taken the lock.
    pub open spec fn took(self) -> bool {
        self.step == (Consume::Done { taken: true })
    }
}

/// How many threads have accepted the offer.
pub open spec fn accepters(takers: Seq<Taker>) -> int {
    total(takers, |t: Taker| one_if(t.accepted()))
}

/// How many threads were told that they have taken the lock.
pub open spec fn winners(takers: Seq<Taker>) -> int {
    total(takers, |t: Taker| one_if(t.took()))
}

impl Takers {
    /// A lock that is on offer, and threads that have not looked yet.
    pub open spec fn fresh(self) -> bool {
        &&& self.lock.handoff == 1
        &&& forall|i: int|
            0 <= i < self.takers.len() ==> (#[trigger] self.takers[i]).step == Consume::Accept
    }

    /// Whether thread `i` can turn `self` into `next` by performing its next
    /// action and getting `reply`.
    pub open spec fn act(self, next: Takers, i: int, reply: Reply) -> bool {
        let taker = self.takers[i];
        &&& 0 <= i < self.takers.len()
        &&& taker.step.spec_action() is Some
        &&& effect(self.lock, taker.step.spec_action()->Some_0, reply, next.lock)
        &&& next.takers == self.takers.update(
            i,
            Taker { step: taker.step.spec_next(taker.accounted, reply), ..taker },
        )
    }

    /// Whether some thread can turn `self` into `next` in one step.
    pub open spec fn step(self, next: Takers) -> bool {
        exists|i: int, reply: Reply| self.act(next, i, reply)
    }

    /// Whether a thread stands where it can stand.
    spec fn sound(self, taker: Taker) -> bool {
        match taker.step {
            Consume::Settle { step } => settle_sound(step),
            Consume::Done { taken: false } => self.lock.handoff == 0,
            _ => true,
        }
    }

    /// What holds before and after every step.
    spec fn consistent(self) -> bool {
        &&& self.lock.handoff <= 1
        &&& accepters(self.takers) + self.lock.handoff == 1
        &&& forall|i: int| 0 <= i < self.takers.len() ==> self.sound(#[trigger] self.takers[i])
    }
}

/// Whether `history` is what can happen, step by step, when threads race for
/// an offer.
pub open spec fn is_taking(history: Seq<Takers>) -> bool {
    &&& history.len() > 0
    &&& history[0].fresh()
    &&& forall|k: int|
        0 <= k < history.len() - 1 ==> (#[trigger] history[k]).step(history[k + 1])
}

proof fn lemma_taking(history: Seq<Takers>, k: int)
    requires
        is_taking(history),
        0 <= k < history.len(),
    ensures
        history[k].consistent(),
    decreases k,
{
    let accepted = |t: Taker| one_if(t.accepted());
    if k == 0 {
        lemma_total_zero(history[0].takers, accepted);
    } else {
        let pre = history[k - 1];
        let post = history[k];
        lemma_taking(history, k - 1);
        assert(pre.step(history[k - 1 + 1]));
        let (i, reply) = choose|i: int, reply: Reply| pre.act(post, i, reply);
        let from = pre.takers[i];
        let to = post.takers[i];
        assert(pre.sound(from));
        lemma_total_update(pre.takers, i, to, accepted);
        lemma_total_bounds(pre.takers, accepted);
        assert(accepted(from) <= accepters(pre.takers));
        assert(post.lock.handoff <= pre.lock.handoff);
        assert forall|j: int| 0 <= j < post.takers.len() implies post.sound(
            #[trigger] post.takers[j],
        ) by {
            if j != i {
                assert(pre.sound(pre.takers[j]));
            }
        }
    }
}

/// An offer is accepted by exactly one of the threads that race for it,
/// however many there are: never by two, by one as soon as any of them has
/// looked, and once all have finished exactly one was told that it has taken
/// the lock.
pub proof fn law_offer_accepted_once(history: Seq<Takers>, k: int, i: int, j: int)
    requires
        is_taking(history),
        0 <= k < history.len(),
        0 <= i < history[k].takers.len(),
        0 <= j < history[k].takers.len(),
    ensures
        i != j ==> !(history[k].takers[i].accepted() && history[k].takers[j].accepted()),
        accepters(history[k].takers) <= 1,
        history[k].takers[i].step != Consume::Accept ==> accepters(history[k].takers) == 1
            && history[k].lock.handoff == 0,
        (forall|m: int|
            0 <= m < history[k].takers.len() ==> (#[trigger] history[k].takers[m]).step is Done)
            ==> winners(history[k].takers) == 1,
{
    lemma_taking(history, k);
    let takers = history[k].takers;
    let accepted = |t: Taker| one_if(t.accepted());
    lemma_total_bounds(takers, accepted);
    if i < j {
        lemma_total_pair(takers, i, j, accepted);
    } else if j < i {
        lemma_total_pair(takers, j, i, accepted);
    }
    assert(accepted(takers[i]) <= accepters(takers));
    assert(history[k].sound(takers[i]));
    if forall|m: int| 0 <= m < takers.len() ==> (#[trigger] takers[m]).step is Done {
        lemma_total_same(takers, accepted, |t: Taker| one_if(t.took()));
    }
}

/// A lock, and threads that leave the count of its waiters at the same time.
pub struct Leavers {
    pub lock: SpinparkLock,
    pub steps: Seq<DropWaiter>,
}

/// How many threads have left.
pub open spec fn gone(steps: Seq<DropWaiter>) -> int {
    total(steps, |s: DropWaiter| one_if(s is Done))
}

impl Leavers {
    /// Threads that have not begun to leave.
    pub open spec fn fresh(self) -> bool {
        forall|i: int| 0 <= i < self.steps.len() ==> (#[trigger] self.steps[i]) == DropWaiter::Read
    }

    /// Whether thread `i` can turn `self` into `next` by performing its next
    /// action and getting `reply`.
    pub open spec fn act(self, next: Leavers, i: int, reply: Reply) -> bool {
        &&& 0 <= i < self.steps.len()
        &&& self.steps[i].spec_action() is Some
        &&& effect(self.lock, self.steps[i].spec_action()->Some_0, reply, next.lock)
        &&& next.steps == self.steps.update(i, self.steps[i].spec_next(reply))
    }

    /// Whether some thread can turn `self` into `next` in one step.
    pub open spec fn step(self, next: Leavers) -> bool {
        exists|i: int, reply: Reply| self.act(next, i, reply)
    }

    /// Whether a thread stands where it can stand: what it was told is no less
    /// than what is left.
    spec fn sound(self, step: DropWaiter) -> bool {
        match step {
            DropWaiter::Read => true,
            DropWaiter::Lower { seen } => seen != 0,
            DropWaiter::Done { remaining } => self.lock.waiters <= remaining,
        }
    }

    /// What holds before and after every step of threads that found `initial`
    /// waiters.
    spec fn consistent(self, initial: u32) -> bool {
        &&& self.lock.waiters > 0 ==> gone(self.steps) == initial - self.lock.waiters
        &&& self.lock.waiters == 0 ==> gone(self.steps) >= initial
        &&& forall|i: int| 0 <= i < self.steps.len() ==> self.sound(#[trigger] self.steps[i])
        &&& forall|i: int, j: int|
            0 <= i < self.steps.len() && 0 <= j < self.steps.len() && i != j ==> told_apart(
                #[trigger] self.steps[i],
                #[trigger] self.steps[j],
            )
    }
}

/// Whether two threads were not told the same number above 0.
pub open spec fn told_apart(step: DropWaiter, other: DropWaiter) -> bool {
    match (step, other) {
        (DropWaiter::Done { remaining }, DropWaiter::Done { remaining: also }) => remaining == also
            ==> remaining == 0,
        _ => true,
    }
}

/// Whether `history` is what can happen, step by step, when threads leave the
/// count at the same time.
pub open spec fn is_leaving(history: Seq<Leavers>) -> bool {
    &&& history.len() > 0
    &&& history[0].fresh()
    &&& forall|k: int|
        0 <= k < history.len() - 1 ==> (#[trigger] history[k]).step(history[k + 1])
}

proof fn lemma_leaving(history: Seq<Leavers>, k: int)
    requires
        is_leaving(history),
        0 <= k < history.len(),
    ensures
        history[k].consistent(history[0].lock.waiters),
    decreases k,
{
    let done = |s: DropWaiter| one_if(s is Done);
    if k == 0 {
        lemma_total_zero(history[0].steps, done);
    } else {
        let pre = history[k - 1];
        let post = history[k];
        lemma_leaving(history, k - 1);
        assert(pre.step(history[k - 1 + 1]));
        let (i, reply) = choose|i: int, reply: Reply| pre.act(post, i, reply);
        assert(pre.sound(pre.steps[i]));
        lemma_total_update(pre.steps, i, post.steps[i], done);
        assert(post.lock.waiters <= pre.lock.waiters);
        assert forall|j: int| 0 <= j < post.steps.len() implies post.sound(
            #[trigger] post.steps[j],
        ) by {
            if j != i {
                assert(pre.sound(pre.steps[j]));
            }
        }
        assert forall|a: int, b: int|
            0 <= a < post.steps.len() && 0 <= b < post.steps.len() && a != b implies told_apart(
            #[trigger] post.steps[a],
            #[trigger] post.steps[b],
        ) by {
            assert(told_apart(pre.steps[a], pre.steps[b]));
            assert(pre.sound(pre.steps[a]));
            assert(pre.sound(pre.steps[b]));
        }
    }
}

/// Threads that leave the count of waiters at the same time do not lose each
/// other's steps: at all times the count is what it was, less the threads that
/// have left, and 0 if more have left than were counted. No two threads are
/// told that the same number of others remains, unless that number is 0.
pub proof fn law_leaving_adds_up(history: Seq<Leavers>, k: int, i: int, j: int)
    requires
        is_leaving(history),
        0 <= k < history.len(),
        0 <= i < history[k].steps.len(),
        0 <= j < history[k].steps.len(),
    ensures
        history[k].lock.waiters == if gone(history[k].steps) < history[0].lock.waiters {
            history[0].lock.waiters - gone(history[k].steps)
        } else {
            0
        },
        i != j ==> told_apart(history[k].steps[i], history[k].steps[j]),
        history[k].steps[i] matches DropWaiter::Done { remaining } ==> history[k].lock.waiters
            <= remaining,
{
    lemma_leaving(history, k);
    assert(history[k].sound(history[k].steps[i]));
}

/// The shared key, the keys that exist, and the threads that search for the
/// shared one at the same time.
pub struct KeySeekers {
    pub shared: Option<u32>,
    /// The keys that were made and not given back.
    pub live: Set<u32>,
    pub searches: Seq<KeySearch>,
}

/// The key that a search has made and has neither shared nor given back.
pub open spec fn held_key(search: KeySearch) -> Option<u32> {
    match search {
        KeySearch::Share { key } | KeySearch::Delete { key } => Some(key),
        _ => None,
    }
}

impl KeySeekers {
    /// No key, and searches that have not begun.
    pub open spec fn fresh(self) -> bool {
        &&& self.shared is None
        &&& self.live == Set::<u32>::empty()
        &&& forall|i: int|
            0 <= i < self.searches.len() ==> (#[trigger] self.searches[i]) == KeySearch::Look
    }

    /// What an action of a search does. Making a key may fail; a key that is
    /// made is none of those that exist.
    pub open spec fn does(self, action: KeyAction, reply: KeyReply, next: KeySeekers) -> bool {
        match action {
            KeyAction::Load => {
                &&& reply.shared == self.shared
                &&& next.shared == self.shared
                &&& next.live == self.live
            },
            KeyAction::Create => {
                &&& next.shared == self.shared
                &&& if reply.rc == 0 {
                    !self.live.contains(reply.made) && next.live == self.live.insert(reply.made)
                } else {
                    next.live == self.live
                }
            },
            KeyAction::Share { key } => {
                &&& reply.accepted == self.shared is None
                &&& next.shared == if self.shared is None {
                    Some(key)
                } else {
                    self.shared
                }
                &&& next.live == self.live
            },
            KeyAction::Delete { key } => {
                &&& next.shared == self.shared
                &&& next.live == self.live.remove(key)
            },
        }
    }

    /// Whether search `i` can turn `self` into `next` by performing its next
    /// action and getting `reply`.
    pub open spec fn act(self, next: KeySeekers, i: int, reply: KeyReply) -> bool {
        &&& 0 <= i < self.searches.len()
        &&& self.searches[i].spec_action() is Some
        &&& self.does(self.searches[i].spec_action()->Some_0, reply, next)
        &&& next.searches == self.searches.update(i, self.searches[i].spec_next(reply))
    }

    /// Whether some search can turn `self` into `next` in one step.
    pub open spec fn step(self, next: KeySeekers) -> bool {
        exists|i: int, reply: KeyReply| self.act(next, i, reply)
    }

    /// Whether a search stands where it can stand.
    spec fn sound(self, search: KeySearch) -> bool {
        match search {
            KeySearch::Look | KeySearch::Create => true,
            KeySearch::Share { key } => self.live.contains(key) && self.shared != Some(key),
            KeySearch::Delete { key } => {
                self.live.contains(key) && self.shared != Some(key) && self.shared is Some
            },
            KeySearch::LookAgain => self.shared is Some,
            KeySearch::Done { found } => found is Some ==> found == self.shared,
        }
    }

    /// Whether a key is the shared one or in the hands of a search.
    pub open spec fn looked_after(self, key: u32) -> bool {
        ||| self.shared == Some(key)
        ||| exists|i: int|
            0 <= i < self.searches.len() && held_key(#[trigger] self.searches[i]) == Some(key)
    }

    /// What holds before and after every step.
    spec fn consistent(self) -> bool {
        &&& self.shared matches Some(key) ==> self.live.contains(key)
        &&& forall|i: int| 0 <= i < self.searches.len() ==> self.sound(#[trigger] self.searches[i])
        &&& forall|i: int, j: int|
            0 <= i < self.searches.len() && 0 <= j < self.searches.len() && i != j ==> hold_apart(
                #[trigger] self.searches[i],
                #[trigger] self.searches[j],
            )
        &&& forall|key: u32| #[trigger] self.live.contains(key) ==> self.looked_after(key)
    }
}

/// Whether two searches do not have the same key in their hands.
spec fn hold_apart(search: KeySearch, other: KeySearch) -> bool {
    held_key(search) is Some ==> held_key(search) != held_key(other)
}

/// Whether `history` is what can happen, step by step, when threads search for
/// the key at the same time.
pub open spec fn is_key_race(history: Seq<KeySeekers>) -> bool {
    &&& history.len() > 0
    &&& history[0].fresh()
    &&& forall|k: int|
        0 <= k < history.len() - 1 ==> (#[trigger] history[k]).step(history[k + 1])
}

proof fn lemma_key_step(pre: KeySeekers, post: KeySeekers, i: int, reply: KeyReply)
    requires
        pre.consistent(),
        pre.act(post, i, reply),
    ensures
        post.consistent(),
{
    assert(pre.sound(pre.searches[i]));
    assert forall|j: int| 0 <= j < post.searches.len() implies post.sound(
        #[trigger] post.searches[j],
    ) by {
        assert(pre.sound(pre.searches[j]));
        if j != i {
            assert(post.searches[j] == pre.searches[j]);
            assert(hold_apart(pre.searches[i], pre.searches[j]));
        }
    }
    assert forall|a: int, b: int|
        0 <= a < post.searches.len() && 0 <= b < post.searches.len() && a != b implies hold_apart(
        #[trigger] post.searches[a],
        #[trigger] post.searches[b],
    ) by {
        assert(hold_apart(pre.searches[a], pre.searches[b]));
        assert(pre.sound(pre.searches[a]));
        assert(pre.sound(pre.searches[b]));
    }
    assert forall|key: u32| #[trigger] post.live.contains(key) implies post.looked_after(key) by {
        if pre.live.contains(key) {
            assert(pre.looked_after(key));
            if pre.shared != Some(key) {
                let m = choose|m: int|
                    0 <= m < pre.searches.len() && held_key(#[trigger] pre.searches[m]) == Some(key);
                assert(held_key(post.searches[m]) == Some(key) || post.shared == Some(key));
            }
        } else {
            assert(held_key(post.searches[i]) == Some(key));
        }
    }
}

proof fn lemma_key_race(history: Seq<KeySeekers>, k: int)
    requires
        is_key_race(history),
        0 <= k < history.len(),
    ensures
        history[k].consistent(),
    decreases k,
{
    if k > 0 {
        let pre = history[k - 1];
        lemma_key_race(history, k - 1);
        assert(pre.step(history[k - 1 + 1]));
        let (i, reply) = choose|i: int, reply: KeyReply| pre.act(history[k], i, reply);
        lemma_key_step(pre, history[k], i, reply);
    }
}

/// Searches that run at the same time agree: all that find a key find the
/// shared one, and it exists. A search that has made a key and looks again
/// finds one.
pub proof fn law_key_searches_agree(history: Seq<KeySeekers>, k: int, i: int, j: int)
    requires
        is_key_race(history),
        0 <= k < history.len(),
        0 <= i < history[k].searches.len(),
        0 <= j < history[k].searches.len(),
    ensures
        history[k].searches[i] matches KeySearch::Done { found: Some(key) } ==> history[k].shared
            == Some(key) && history[k].live.contains(key),
        (history[k].searches[i] matches KeySearch::Done { found: Some(_) } && history[k].searches[j]
            matches KeySearch::Done { found: Some(_) }) ==> history[k].searches[i]
            == history[k].searches[j],
        history[k].searches[i] == KeySearch::LookAgain ==> history[k].shared is Some,
{
    lemma_key_race(history, k);
    assert(history[k].sound(history[k].searches[i]));
    assert(history[k].sound(history[k].searches[j]));
}

/// Searches that run at the same time leave at most one key: every key that
/// exists is the shared one, or in the hands of a search that will share it or
/// give it back. Once all searches have finished, only the shared one exists.
pub proof fn law_one_key_is_left(history: Seq<KeySeekers>, k: int)
    requires
        is_key_race(history),
        0 <= k < history.len(),
    ensures
        forall|key: u32| #[trigger] history[k].live.contains(key) ==> history[k].looked_after(key),
        (forall|i: int|
            0 <= i < history[k].searches.len() ==> (#[trigger] history[k].searches[i]) is Done)
            ==> history[k].live == match history[k].shared {
            Some(key) => Set::<u32>::empty().insert(key),
            None => Set::<u32>::empty(),
        },
{
    lemma_key_race(history, k);
    let end = history[k];
    if forall|i: int| 0 <= i < end.searches.len() ==> (#[trigger] end.searches[i]) is Done {
        assert forall|key: u32| #[trigger] end.live.contains(key) implies end.shared == Some(
            key,
        ) by {
            assert(end.looked_after(key));
        }
        match end.shared {
            Some(key) => {
                assert(end.live =~= Set::<u32>::empty().insert(key));
            },
            None => {
                assert(end.live =~= Set::<u32>::empty());
            },
        }
    }
}

} // verus!

//! The words that the threads of a lock share, and what a thread may do to
//! them in one step.

use crate::counters::{Counter, YieldCounters};
use vstd::prelude::*;

verus! {

/// State of a lock that nobody holds.
pub const LOCK_STATE_UNLOCKED: u32 = 0;
/// State of a lock that is held.
pub const LOCK_STATE_LOCKED: u32 = 1;
/// State of a lock that is held while other threads queue for it.
pub const LOCK_STATE_QUEUED: u32 = 2;

/// A report that asks the scheduler for nothing.
pub const YIELD_NONE: u32 = 0;
/// A report of a thread that waits for a lock.
pub const YIELD_LOCK_CONTENTION: u32 = 1;
/// A report of a thread that hands a lock over.
pub const YIELD_LOCK_HANDOFF: u32 = 2;

/// Why an operation was refused.
#[derive(Clone, Copy, Debug, PartialEq, Eq, Structural)]
pub enum Errno {
    /// The object does not exist or cannot be used.
    Invalid,
    /// The lock is held.
    Busy,
    /// The deadline has passed.
    TimedOut,
}

/// The shared words of one lock.
#[derive(Clone, Copy, Debug, PartialEq, Eq, Structural)]
pub struct SpinparkLock {
    /// One of [`LOCK_STATE_UNLOCKED`], [`LOCK_STATE_LOCKED`] and
    /// [`LOCK_STATE_QUEUED`].
    pub data: u32,
    /// 1 while a release offers the lock to a waiter, else 0.
    pub handoff: u32,
    /// Number of threads that have announced themselves as waiters.
    pub waiters: u32,
    /// The scheduler queue that belongs to the lock, 0 if it has none. It
    /// never changes.
    pub vip_dsq_id: u64,
}

impl SpinparkLock {
    /// A lock that nobody holds or waits for.
    pub fn new(vip_dsq_id: u64) -> (lock: Self)
        ensures
            lock == (SpinparkLock {
                data: LOCK_STATE_UNLOCKED,
                handoff: 0,
                waiters: 0,
                vip_dsq_id,
            }),
    {
        SpinparkLock { data: LOCK_STATE_UNLOCKED, handoff: 0, waiters: 0, vip_dsq_id }
    }

    /// The value of one of the words.
    pub open spec fn get(self, word: Word) -> u32 {
        match word {
            Word::Data => self.data,
            Word::Handoff => self.handoff,
            Word::Waiters => self.waiters,
        }
    }

    /// The lock with one of the words replaced.
    pub open spec fn put(self, word: Word, value: u32) -> Self {
        match word {
            Word::Data => SpinparkLock { data: value, ..self },
            Word::Handoff => SpinparkLock { handoff: value, ..self },
            Word::Waiters => SpinparkLock { waiters: value, ..self },
        }
    }

    fn read(&self, word: Word) -> (value: u32)
        ensures
            value == self.get(word),
    {
        match word {
            Word::Data => self.data,
            Word::Handoff => self.handoff,
            Word::Waiters => self.waiters,
        }
    }

    fn write(&mut self, word: Word, value: u32)
        ensures
            *final(self) == old(self).put(word, value),
    {
        match word {
            Word::Data => self.data = value,
            Word::Handoff => self.handoff = value,
            Word::Waiters => self.waiters = value,
        }
    }
}

/// Names one of the shared words of a lock.
#[derive(Clone, Copy, Debug, PartialEq, Eq, Structural)]
pub enum Word {
    Data,
    Handoff,
    Waiters,
}

/// How an access to a shared word is ordered against others.
#[derive(Clone, Copy, Debug, PartialEq, Eq, Structural)]
pub enum MemOrder {
    Relaxed,
    Acquire,
    Release,
    AcqRel,
}

/// What a thread does next. Each action is indivisible: no other thread acts
/// in the middle of one.
#[derive(Clone, Copy, Debug, PartialEq, Eq, Structural)]
pub enum Action {
    /// Read a word.
    Load { word: Word, order: MemOrder },
    /// Write a word.
    Store { word: Word, value: u32, order: MemOrder },
    /// Write `new` to a word if it holds `expect`. A weak exchange may also
    /// leave the word as it is for no reason.
    Exchange {
        word: Word,
        expect: u32,
        new: u32,
        weak: bool,
        success: MemOrder,
        failure: MemOrder,
    },
    /// Add to a word, wrapping around.
    Add { word: Word, delta: u32, order: MemOrder },
    /// Advance an event counter.
    Count { counter: Counter },
    /// Tell the CPU that the thread spins.
    Spin,
    /// See to it that the scheduler knows where this thread leaves its
    /// reports, if it does not know yet.
    Register,
    /// Leave a report for the scheduler.
    Publish { reason: u32, vip_dsq_id: u64 },
    /// Give up the CPU.
    Yield,
}

/// What a thread learns from an action.
#[derive(Clone, Copy, Debug, PartialEq, Eq, Structural)]
pub struct Reply {
    /// The value that a load has read; of no meaning for other actions.
    pub word: u32,
    /// Whether an exchange has written; of no meaning for other actions.
    pub swapped: bool,
}

/// Whether `action`, performed on `pre`, may answer `reply` and leave `post`.
pub open spec fn effect(
    pre: SpinparkLock,
    action: Action,
    reply: Reply,
    post: SpinparkLock,
) -> bool {
    match action {
        Action::Load { word, order: _ } => reply.word == pre.get(word) && post == pre,
        Action::Store { word, value, order: _ } => post == pre.put(word, value),
        Action::Exchange { word, expect, new, weak, success: _, failure: _ } => {
            &&& reply.swapped ==> pre.get(word) == expect && post == pre.put(word, new)
            &&& !reply.swapped ==> (weak || pre.get(word) != expect) && post == pre
        },
        Action::Add { word, delta, order: _ } => post == pre.put(
            word,
            pre.get(word).wrapping_add(delta),
        ),
        _ => post == pre,
    }
}

/// Whether `reply` is not a weak exchange's failure for no reason.
pub open spec fn steady(pre: SpinparkLock, action: Action, reply: Reply) -> bool {
    match action {
        Action::Exchange { word, expect, .. } => reply.swapped <==> pre.get(word) == expect,
        _ => true,
    }
}

/// The effect of an action on the counters.
pub open spec fn counted(pre: YieldCounters, action: Action, post: YieldCounters) -> bool {
    match action {
        Action::Count { counter } => post.bumped(pre, counter),
        _ => post == pre,
    }
}

/// Performs an action on words that no other thread can reach. Actions that
/// touch no word do nothing here, and a weak exchange fails only with reason.
pub fn apply(lock: &mut SpinparkLock, action: Action) -> (reply: Reply)
    ensures
        effect(*old(lock), action, reply, *final(lock)),
        steady(*old(lock), action, reply),
{
    match action {
        Action::Load { word, order: _ } => Reply { word: lock.read(word), swapped: false },
        Action::Store { word, value, order: _ } => {
            lock.write(word, value);
            Reply { word: 0, swapped: false }
        },
        Action::Exchange { word, expect, new, weak: _, success: _, failure: _ } => {
            let seen: u32 = lock.read(word);
            if seen == expect {
                lock.write(word, new);
            }
            Reply { word: seen, swapped: seen == expect }
        },
        Action::Add { word, delta, order: _ } => {
            let seen: u32 = lock.read(word);
            lock.write(word, seen.wrapping_add(delta));
            Reply { word: seen, swapped: false }
        },
        _ => Reply { word: 0, swapped: false },
    }
}

/// What an action tells the scheduler: itself, or nothing.
pub open spec fn tells(action: Action) -> Seq<Action> {
    match action {
        Action::Register | Action::Publish { .. } | Action::Yield => seq![action],
        _ => Seq::empty(),
    }
}

/// Notes what an action tells the scheduler behind what it was told before.
pub fn tell(told: &mut Vec<Action>, action: Action)
    ensures
        final(told)@ == old(told)@ + tells(action),
{
    match action {
        Action::Register | Action::Publish { .. } | Action::Yield => told.push(action),
        _ => {},
    }
    assert(told@ =~= old(told)@ + tells(action));
}

/// Performs an action on words and counters that no other thread can reach.
pub fn perform(lock: &mut SpinparkLock, counters: &mut YieldCounters, action: Action) -> (reply:
    Reply)
    ensures
        effect(*old(lock), action, reply, *final(lock)),
        steady(*old(lock), action, reply),
        counted(*old(counters), action, *final(counters)),
{
    if let Action::Count { counter } = action {
        counters.bump(counter);
    }
    apply(lock, action)
}

/// The values that threads, and the scheduler, exchange.
pub proof fn law_values_are_agreed()
    ensures
        LOCK_STATE_UNLOCKED == 0,
        LOCK_STATE_LOCKED == 1,
        LOCK_STATE_QUEUED == 2,
        YIELD_NONE == 0,
        YIELD_LOCK_CONTENTION == 1,
        YIELD_LOCK_HANDOFF == 2,
{
}

/// An action touches one word at most: a load none, a store, an addition or an
/// exchange that succeeds the one that it names, and the others none. An
/// exchange succeeds only on the value that it expects, and a strong one then
/// always does. The queue of a lock is never touched.
pub proof fn law_action_touches_one_word(
    pre: SpinparkLock,
    action: Action,
    reply: Reply,
    post: SpinparkLock,
    other: Word,
)
    requires
        effect(pre, action, reply, post),
    ensures
        post.vip_dsq_id == pre.vip_dsq_id,
        match action {
            Action::Load { word, .. } => post == pre && reply.word == pre.get(word),
            Action::Store { word, value, .. } => post.get(word) == value && (other != word
                ==> post.get(other) == pre.get(other)),
            Action::Add { word, delta, .. } => post.get(word) == pre.get(word).wrapping_add(delta)
                && (other != word ==> post.get(other) == pre.get(other)),
            Action::Exchange { word, expect, new, weak, .. } => {
                &&& reply.swapped ==> pre.get(word) == expect && post.get(word) == new
                &&& !reply.swapped ==> post == pre
                &&& !weak ==> reply.swapped == (pre.get(word) == expect)
                &&& other != word ==> post.get(other) == pre.get(other)
            },
            _ => post == pre,
        },
{
}

/// Counting an event advances the counter of that event by one, and no other
/// action touches a counter. A registration, a report and a yield tell the
/// scheduler something, and no other action does. Without spurious failures
/// an exchange succeeds whenever it can.
pub proof fn law_actions_have_one_effect(
    lock: SpinparkLock,
    action: Action,
    reply: Reply,
    before: YieldCounters,
    after: YieldCounters,
    counter: Counter,
)
    ensures
        counted(before, action, after) ==> after.value(counter) == if action == (Action::Count {
            counter,
        }) {
            before.value(counter).wrapping_add(1)
        } else {
            before.value(counter)
        },
        match action {
            Action::Register | Action::Publish { .. } | Action::Yield => tells(action) == seq![
                action,
            ],
            _ => tells(action).len() == 0,
        },
        steady(lock, action, reply) ==> match action {
            Action::Exchange { word, expect, .. } => reply.swapped == (lock.get(word) == expect),
            _ => true,
        },
{
}

} // verus!

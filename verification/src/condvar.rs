//! Waiting for a condition while a lock is released.
//!
//! Every waiter draws a ticket, the next number of a counter. A signal lets
//! one more ticket pass, a broadcast all that were drawn. A waiter goes on
//! when its ticket may pass, or when its deadline has come, and takes the
//! lock again before it does so.

use crate::acquire::{
    law_attempt_tells_nothing_alone, obtained, LockAt, LockAttempt, SPINPARK_SPIN_TIME,
};
use crate::counters::{Counter, YieldCounters};
use crate::release::{
    counted_release, lemma_told_alone, offers_lock, released, told_by_release, UnlockAttempt,
};
use crate::words::{perform, tell, Action, Errno, MemOrder, Reply, SpinparkLock};
use core::cmp::Ordering;
use vstd::prelude::*;

verus! {

/// A point in time, or a span, in seconds and nanoseconds.
#[derive(Clone, Copy, Debug, PartialEq, Eq, Structural)]
pub struct Timespec {
    pub tv_sec: i64,
    pub tv_nsec: i64,
}

impl Timespec {
    /// Whether `self` comes before `other`: by the seconds, then by the
    /// nanoseconds.
    pub open spec fn before(self, other: Timespec) -> bool {
        self.tv_sec < other.tv_sec || (self.tv_sec == other.tv_sec && self.tv_nsec < other.tv_nsec)
    }
}

/// Compares two points in time.
pub fn timespec_cmp(a: &Timespec, b: &Timespec) -> (order: Ordering)
    ensures
        (order == Ordering::Less) == a.before(*b),
        (order == Ordering::Greater) == b.before(*a),
        (order == Ordering::Equal) == (*a == *b),
{
    if a.tv_sec < b.tv_sec {
        return Ordering::Less;
    }
    if a.tv_sec > b.tv_sec {
        return Ordering::Greater;
    }
    a.tv_nsec.cmp(&b.tv_nsec)
}

/// The shared words of one condition variable.
#[derive(Clone, Copy, Debug, PartialEq, Eq, Structural)]
pub struct SpinparkCond {
    /// The last ticket that may pass.
    pub seq: u32,
    /// The last ticket that was drawn.
    pub target: u32,
}

impl SpinparkCond {
    /// A condition variable that nobody has waited for or signalled.
    pub fn new() -> (cond: Self)
        ensures
            cond == (SpinparkCond { seq: 0, target: 0 }),
    {
        SpinparkCond { seq: 0, target: 0 }
    }

    /// Whether the holder of `ticket` may pass.
    pub open spec fn passes(self, ticket: u32) -> bool {
        ticket <= self.seq
    }
}

/// Names one of the shared words of a condition variable.
#[derive(Clone, Copy, Debug, PartialEq, Eq, Structural)]
pub enum CondWord {
    Sequence,
    Target,
}

/// What a thread does next to a condition variable and its lock. Each action
/// is indivisible.
#[derive(Clone, Copy, Debug, PartialEq, Eq, Structural)]
pub enum CondAction {
    /// Read a word.
    Load { word: CondWord, order: MemOrder },
    /// Write a word.
    Store { word: CondWord, value: u32, order: MemOrder },
    /// Add 1 to a word, wrapping around, and learn what it held before.
    Increment { word: CondWord, order: MemOrder },
    /// Act on the lock.
    Lock { action: Action },
    /// Read the clock.
    ReadClock,
    /// Tell the CPU that the thread spins.
    Spin,
    /// Give up the CPU.
    YieldCpu,
}

/// What a thread learns from an action.
#[derive(Clone, Copy, Debug, PartialEq, Eq, Structural)]
pub struct CondReply {
    /// The value that a load or an increment has found.
    pub word: u32,
    /// The reply to an action on the lock.
    pub lock: Reply,
    /// The time that the clock has shown.
    pub now: Timespec,
}

/// Counts a round of waiting and says whether the thread should now give up
/// its CPU; it does so every [`SPINPARK_SPIN_TIME`] rounds.
pub fn spin_yield_backoff(counter: &mut u32) -> (yields: bool)
    requires
        *old(counter) < u32::MAX,
    ensures
        yields == (*old(counter) + 1 >= SPINPARK_SPIN_TIME),
        *final(counter) == if yields {
            0
        } else {
            *old(counter) + 1
        },
{
    *counter += 1;
    if *counter >= SPINPARK_SPIN_TIME {
        *counter = 0;
        true
    } else {
        false
    }
}

/// The deadline of a timed wait; there has to be one.
pub fn require_deadline(deadline: Option<Timespec>) -> (outcome: Result<Timespec, Errno>)
    ensures
        outcome == match deadline {
            Some(at) => Ok::<Timespec, Errno>(at),
            None => Err::<Timespec, Errno>(Errno::Invalid),
        },
{
    match deadline {
        Some(at) => Ok(at),
        None => Err(Errno::Invalid),
    }
}

/// Where a thread stands in a wait.
#[derive(Clone, Copy, Debug, PartialEq, Eq, Structural)]
pub enum CondAt {
    /// About to draw a ticket.
    DrawTicket,
    /// About to read which tickets may pass, before the lock is released.
    FirstLook,
    /// Is releasing the lock.
    Release { step: UnlockAttempt },
    /// About to compare the clock with the deadline.
    ReadClock,
    /// About to spin for a round, or to give up the CPU.
    Pause { yields: bool },
    /// About to read again which tickets may pass.
    Look,
    /// Is taking the lock again.
    Relock { attempt: LockAttempt, timed_out: bool },
    /// Holds the lock again.
    Done { timed_out: bool },
}

/// One wait for a condition, with a deadline or without.
#[derive(Clone, Copy, Debug, PartialEq, Eq, Structural)]
pub struct CondWait {
    pub at: CondAt,
    /// The queue that belongs to the lock.
    pub vip_dsq_id: u64,
    /// When the wait ends at the latest.
    pub deadline: Option<Timespec>,
    /// The ticket of this wait.
    pub ticket: u32,
    /// The last ticket that was seen to pass.
    pub seq: u32,
    /// The time that the clock has shown last.
    pub now: Timespec,
    /// Rounds since the CPU was last given up.
    pub backoff: u32,
}

impl CondWait {
    /// A fresh wait for a condition whose lock has the given queue.
    pub open spec fn spec_new(vip_dsq_id: u64, deadline: Option<Timespec>) -> Self {
        CondWait {
            at: CondAt::DrawTicket,
            vip_dsq_id,
            deadline,
            ticket: 0,
            seq: 0,
            now: Timespec { tv_sec: 0, tv_nsec: 0 },
            backoff: 0,
        }
    }

    /// The same wait at another place.
    pub open spec fn moved(self, at: CondAt) -> Self {
        CondWait { at, ..self }
    }

    /// The wait is over and the thread sets out to take the lock again.
    pub open spec fn leaving(self, timed_out: bool) -> Self {
        self.moved(
            CondAt::Relock { attempt: LockAttempt::spec_new(self.vip_dsq_id), timed_out },
        )
    }

    /// The thread waits for another round.
    pub open spec fn pausing(self) -> Self {
        let rounds = self.backoff + 1;
        if rounds >= SPINPARK_SPIN_TIME {
            CondWait { backoff: 0, ..self.moved(CondAt::Pause { yields: true }) }
        } else {
            CondWait { backoff: rounds as u32, ..self.moved(CondAt::Pause { yields: false }) }
        }
    }

    /// The thread has looked which tickets may pass, and has no lock.
    pub open spec fn looked(self) -> Self {
        if self.ticket <= self.seq {
            self.leaving(false)
        } else if self.deadline is Some {
            self.moved(CondAt::ReadClock)
        } else {
            self.pausing()
        }
    }

    /// What the thread does next; `None` once the wait is over.
    pub open spec fn spec_action(self) -> Option<CondAction> {
        match self.at {
            CondAt::DrawTicket => Some(
                CondAction::Increment { word: CondWord::Target, order: MemOrder::Relaxed },
            ),
            CondAt::FirstLook | CondAt::Look => Some(
                CondAction::Load { word: CondWord::Sequence, order: MemOrder::Acquire },
            ),
            CondAt::Release { step } => match step.spec_action() {
                Some(action) => Some(CondAction::Lock { action }),
                None => None,
            },
            CondAt::ReadClock => Some(CondAction::ReadClock),
            CondAt::Pause { yields: true } => Some(CondAction::YieldCpu),
            CondAt::Pause { yields: false } => Some(CondAction::Spin),
            CondAt::Relock { attempt, timed_out: _ } => match attempt.spec_action() {
                Some(action) => Some(CondAction::Lock { action }),
                None => None,
            },
            CondAt::Done { .. } => None,
        }
    }

    /// Where the wait stands after `reply`. Without a deadline the clock is
    /// never read; with one, it is read before every round.
    pub open spec fn spec_next(self, reply: CondReply) -> Self {
        match self.at {
            CondAt::DrawTicket => CondWait {
                ticket: reply.word.wrapping_add(1),
                ..self.moved(CondAt::FirstLook)
            },
            CondAt::FirstLook => CondWait {
                seq: reply.word,
                ..self.moved(CondAt::Release { step: UnlockAttempt::spec_new(self.vip_dsq_id) })
            },
            CondAt::Release { step } => {
                let step = step.spec_next(reply.lock);
                if step.spec_action() is None {
                    self.looked()
                } else {
                    self.moved(CondAt::Release { step })
                }
            },
            CondAt::ReadClock => {
                let seen = CondWait { now: reply.now, ..self };
                match self.deadline {
                    Some(deadline) => if reply.now.before(deadline) {
                        seen.pausing()
                    } else {
                        seen.leaving(true)
                    },
                    None => seen.pausing(),
                }
            },
            CondAt::Pause { .. } => self.moved(CondAt::Look),
            CondAt::Look => CondWait { seq: reply.word, ..self }.looked(),
            CondAt::Relock { attempt, timed_out } => {
                let attempt = attempt.spec_next(reply.lock);
                if attempt.spec_action() is None {
                    self.moved(CondAt::Done { timed_out })
                } else {
                    self.moved(CondAt::Relock { attempt, timed_out })
                }
            },
            CondAt::Done { .. } => self,
        }
    }

    /// Whether the values inside are ones that a wait can have.
    pub open spec fn wf(self) -> bool {
        self.backoff < SPINPARK_SPIN_TIME
    }

    /// What the caller is told once the wait is over; `None` before.
    pub open spec fn spec_outcome(self) -> Option<Result<(), Errno>> {
        match self.at {
            CondAt::Done { timed_out: true } => Some(Err(Errno::TimedOut)),
            CondAt::Done { timed_out: false } => Some(Ok(())),
            _ => None,
        }
    }

    /// A fresh wait for a condition whose lock has the given queue.
    pub fn new(vip_dsq_id: u64, deadline: Option<Timespec>) -> (wait: Self)
        ensures
            wait == Self::spec_new(vip_dsq_id, deadline),
            wait.wf(),
    {
        CondWait {
            at: CondAt::DrawTicket,
            vip_dsq_id,
            deadline,
            ticket: 0,
            seq: 0,
            now: Timespec { tv_sec: 0, tv_nsec: 0 },
            backoff: 0,
        }
    }

    fn set_leaving(&mut self, timed_out: bool)
        ensures
            *final(self) == old(self).leaving(timed_out),
    {
        self.at = CondAt::Relock { attempt: LockAttempt::new(self.vip_dsq_id), timed_out };
    }

    fn set_pausing(&mut self)
        requires
            old(self).wf(),
        ensures
            *final(self) == old(self).pausing(),
            final(self).wf(),
    {
        let mut backoff: u32 = self.backoff;
        let yields: bool = spin_yield_backoff(&mut backoff);
        self.backoff = backoff;
        self.at = CondAt::Pause { yields };
    }

    fn set_looked(&mut self)
        requires
            old(self).wf(),
        ensures
            *final(self) == old(self).looked(),
            final(self).wf(),
    {
        if self.ticket <= self.seq {
            self.set_leaving(false);
        } else if self.deadline.is_some() {
            self.at = CondAt::ReadClock;
        } else {
            self.set_pausing();
        }
    }

    /// What the thread does next; `None` once the wait is over.
    pub fn action(&self) -> (action: Option<CondAction>)
        ensures
            action == self.spec_action(),
    {
        match self.at {
            CondAt::DrawTicket => Some(
                CondAction::Increment { word: CondWord::Target, order: MemOrder::Relaxed },
            ),
            CondAt::FirstLook | CondAt::Look => Some(
                CondAction::Load { word: CondWord::Sequence, order: MemOrder::Acquire },
            ),
            CondAt::Release { step } => match step.action() {
                Some(action) => Some(CondAction::Lock { action }),
                None => None,
            },
            CondAt::ReadClock => Some(CondAction::ReadClock),
            CondAt::Pause { yields } => if yields {
                Some(CondAction::YieldCpu)
            } else {
                Some(CondAction::Spin)
            },
            CondAt::Relock { attempt, timed_out: _ } => match attempt.action() {
                Some(action) => Some(CondAction::Lock { action }),
                None => None,
            },
            CondAt::Done { .. } => None,
        }
    }

    /// Moves the wait on with the reply to its action.
    pub fn advance(&mut self, reply: CondReply)
        requires
            old(self).wf(),
        ensures
            *final(self) == old(self).spec_next(reply),
            final(self).wf(),
    {
        match self.at {
            CondAt::DrawTicket => {
                self.ticket = reply.word.wrapping_add(1);
                self.at = CondAt::FirstLook;
            },
            CondAt::FirstLook => {
                self.seq = reply.word;
                self.at = CondAt::Release { step: UnlockAttempt::new(self.vip_dsq_id) };
            },
            CondAt::Release { step } => {
                let mut step = step;
                step.advance(reply.lock);
                if step.action().is_none() {
                    self.set_looked();
                } else {
                    self.at = CondAt::Release { step };
                }
            },
            CondAt::ReadClock => {
                self.now = reply.now;
                match self.deadline {
                    Some(deadline) => match timespec_cmp(&reply.now, &deadline) {
                        Ordering::Less => self.set_pausing(),
                        _ => self.set_leaving(true),
                    },
                    None => self.set_pausing(),
                }
            },
            CondAt::Pause { .. } => {
                self.at = CondAt::Look;
            },
            CondAt::Look => {
                self.seq = reply.word;
                self.set_looked();
            },
            CondAt::Relock { attempt, timed_out } => {
                let mut attempt = attempt;
                attempt.advance(reply.lock);
                if attempt.action().is_none() {
                    self.at = CondAt::Done { timed_out };
                } else {
                    self.at = CondAt::Relock { attempt, timed_out };
                }
            },
            CondAt::Done { .. } => {},
        }
    }

    /// What the caller is told once the wait is over; `None` before.
    pub fn outcome(&self) -> (outcome: Option<Result<(), Errno>>)
        ensures
            outcome == self.spec_outcome(),
    {
        match self.at {
            CondAt::Done { timed_out } => if timed_out {
                Some(Err(Errno::TimedOut))
            } else {
                Some(Ok(()))
            },
            _ => None,
        }
    }
}

/// Whether `action`, performed on `pre`, may answer `word` and leave `post`.
pub open spec fn cond_effect(
    pre: SpinparkCond,
    action: CondAction,
    word: u32,
    post: SpinparkCond,
) -> bool {
    match action {
        CondAction::Load { word: CondWord::Sequence, order: _ } => word == pre.seq && post == pre,
        CondAction::Load { word: CondWord::Target, order: _ } => word == pre.target && post == pre,
        CondAction::Store { word: CondWord::Sequence, value, order: _ } => post == (SpinparkCond {
            seq: value,
            ..pre
        }),
        CondAction::Store { word: CondWord::Target, value, order: _ } => post == (SpinparkCond {
            target: value,
            ..pre
        }),
        CondAction::Increment { word: CondWord::Sequence, order: _ } => word == pre.seq && post
            == (SpinparkCond { seq: pre.seq.wrapping_add(1), ..pre }),
        CondAction::Increment { word: CondWord::Target, order: _ } => word == pre.target && post
            == (SpinparkCond { target: pre.target.wrapping_add(1), ..pre }),
        _ => post == pre,
    }
}

/// Performs an action on the words of a condition variable that no other
/// thread can reach, and returns the value that it has found. Actions that
/// touch no such word do nothing here.
pub fn apply_to_cond(cond: &mut SpinparkCond, action: CondAction) -> (word: u32)
    ensures
        cond_effect(*old(cond), action, word, *final(cond)),
{
    match action {
        CondAction::Load { word: CondWord::Sequence, order: _ } => cond.seq,
        CondAction::Load { word: CondWord::Target, order: _ } => cond.target,
        CondAction::Store { word: CondWord::Sequence, value, order: _ } => {
            cond.seq = value;
            0
        },
        CondAction::Store { word: CondWord::Target, value, order: _ } => {
            cond.target = value;
            0
        },
        CondAction::Increment { word: CondWord::Sequence, order: _ } => {
            let seen: u32 = cond.seq;
            cond.seq = seen.wrapping_add(1);
            seen
        },
        CondAction::Increment { word: CondWord::Target, order: _ } => {
            let seen: u32 = cond.target;
            cond.target = seen.wrapping_add(1);
            seen
        },
        _ => 0,
    }
}

/// Whether a thread that waits alone for `cond` comes back: its ticket may
/// pass already, or its deadline has come.
pub open spec fn returns_alone(
    cond: SpinparkCond,
    deadline: Option<Timespec>,
    now: Timespec,
) -> bool {
    cond.passes(cond.target.wrapping_add(1)) || (deadline matches Some(at) && !now.before(at))
}

/// Whether `after` is `before` with one release of `lock` and one acquisition
/// of the freed lock counted.
pub open spec fn counted_wait(
    lock: SpinparkLock,
    before: YieldCounters,
    after: YieldCounters,
) -> bool {
    forall|c: Counter| #[trigger]
        after.value(c) == if c == Counter::LockAcquire || (offers_lock(lock) && (c
            == Counter::HandoffYield || c == Counter::HandoffMiss)) {
            before.value(c).wrapping_add(1)
        } else {
            before.value(c)
        }
}

/// Waits for a condition while no other thread gets to run and the clock
/// shows `now`. The wait draws a ticket, releases the lock, and takes it
/// again before it returns. It succeeds if the ticket may pass at once, and
/// times out if not. `told` is what the scheduler is told: only what the
/// release tells it.
pub fn spinpark_cond_wait(
    cond: &mut SpinparkCond,
    lock: &mut SpinparkLock,
    counters: &mut YieldCounters,
    told: &mut Vec<Action>,
    deadline: Option<Timespec>,
    now: Timespec,
) -> (outcome: Result<(), Errno>)
    requires
        returns_alone(*old(cond), deadline, now),
    ensures
        outcome == if old(cond).passes(old(cond).target.wrapping_add(1)) {
            Ok::<(), Errno>(())
        } else {
            Err::<(), Errno>(Errno::TimedOut)
        },
        *final(cond) == (SpinparkCond { target: old(cond).target.wrapping_add(1), ..*old(cond) }),
        *final(lock) == obtained(released(*old(lock))),
        counted_wait(*old(lock), *old(counters), *final(counters)),
        final(told)@ == old(told)@ + told_by_release(*old(lock)),
{
    let ghost ticket = cond.target.wrapping_add(1);
    let ghost drawn = SpinparkCond { target: ticket, ..*cond };
    let ghost mut middle = *counters;
    let mut wait = CondWait::new(lock.vip_dsq_id, deadline);
    loop
        invariant
            returns_alone(*old(cond), deadline, now),
            ticket == old(cond).target.wrapping_add(1),
            drawn == (SpinparkCond { target: ticket, ..*old(cond) }),
            wait.wf(),
            wait.vip_dsq_id == old(lock).vip_dsq_id,
            wait.deadline == deadline,
            wait.at != CondAt::DrawTicket ==> wait.ticket == ticket && *cond == drawn,
            wait.at != CondAt::DrawTicket && wait.at != CondAt::FirstLook ==> wait.seq == drawn.seq,
            match wait.at {
                CondAt::DrawTicket => *cond == *old(cond) && *lock == *old(lock) && *counters
                    == *old(counters),
                CondAt::FirstLook => *lock == *old(lock) && *counters == *old(counters),
                CondAt::Release { step } => {
                    &&& step.alone(*old(lock), *old(counters), *lock, *counters)
                    &&& step.spec_action() is Some
                },
                CondAt::ReadClock => {
                    &&& *lock == released(*old(lock))
                    &&& counted_release(*old(lock), *old(counters), *counters)
                    &&& !drawn.passes(ticket)
                    &&& deadline is Some
                },
                CondAt::Relock { attempt, timed_out } => {
                    &&& timed_out == !drawn.passes(ticket)
                    &&& counted_release(*old(lock), *old(counters), middle)
                    &&& attempt.alone(released(*old(lock)), middle, *lock, *counters)
                    &&& attempt.spec_action() is Some
                },
                CondAt::Done { timed_out } => {
                    &&& timed_out == !drawn.passes(ticket)
                    &&& *lock == obtained(released(*old(lock)))
                    &&& counted_wait(*old(lock), *old(counters), *counters)
                },
                _ => false,
            },
            told@ == old(told)@ + match wait.at {
                CondAt::DrawTicket | CondAt::FirstLook => Seq::empty(),
                CondAt::Release { step } => step.told_alone(*old(lock)),
                _ => told_by_release(*old(lock)),
            },
        decreases
            match wait.at {
                CondAt::DrawTicket => 5int,
                CondAt::FirstLook => 4,
                CondAt::Release { .. } => 3,
                CondAt::ReadClock => 2,
                CondAt::Relock { .. } => 1,
                _ => 0,
            },
            match wait.at {
                CondAt::Release { step } => step.steps_left(),
                CondAt::Relock { attempt, .. } => attempt.steps_left(),
                _ => 0,
            },
    {
        match wait.action() {
            Some(CondAction::Lock { action }) => {
                let ghost before = *lock;
                let ghost count = *counters;
                tell(told, action);
                let reply = perform(lock, counters, action);
                proof {
                    match wait.at {
                        CondAt::Release { step } => {
                            middle = *counters;
                            lemma_told_alone(
                                step,
                                *old(lock),
                                *old(counters),
                                before,
                                count,
                                reply,
                                *lock,
                            );
                        },
                        CondAt::Relock { attempt, .. } => {
                            law_attempt_tells_nothing_alone(
                                attempt,
                                released(*old(lock)),
                                middle,
                                before,
                                count,
                            );
                        },
                        _ => {},
                    }
                }
                wait.advance(CondReply { word: 0, lock: reply, now });
            },
            Some(action) => {
                if let CondAction::YieldCpu = action {
                    tell(told, Action::Yield);
                }
                let word: u32 = apply_to_cond(cond, action);
                proof {
                    middle = *counters;
                }
                wait.advance(CondReply { word, lock: Reply { word: 0, swapped: false }, now });
            },
            None => {
                if let CondAt::Done { timed_out } = wait.at {
                    return if timed_out {
                        Err(Errno::TimedOut)
                    } else {
                        Ok(())
                    };
                }
            },
        }
    }
}

/// The increment by which a signal lets one more ticket pass.
pub fn signal_action() -> (action: CondAction)
    ensures
        action == (CondAction::Increment { word: CondWord::Sequence, order: MemOrder::Release }),
{
    CondAction::Increment { word: CondWord::Sequence, order: MemOrder::Release }
}

/// Lets one more ticket pass.
pub fn spinpark_cond_signal(cond: &mut SpinparkCond)
    ensures
        *final(cond) == (SpinparkCond { seq: old(cond).seq.wrapping_add(1), ..*old(cond) }),
{
    apply_to_cond(cond, signal_action());
}

/// Letting all tickets pass that were drawn.
#[derive(Clone, Copy, Debug, PartialEq, Eq, Structural)]
pub enum Broadcast {
    /// About to read the last ticket that was drawn.
    ReadTicket,
    /// About to let all tickets up to this one pass.
    Pass { ticket: u32 },
    Done,
}

impl Broadcast {
    /// What the thread does next; `None` if there is nothing left to do.
    pub open spec fn spec_action(self) -> Option<CondAction> {
        match self {
            Broadcast::ReadTicket => Some(
                CondAction::Load { word: CondWord::Target, order: MemOrder::Acquire },
            ),
            Broadcast::Pass { ticket } => Some(
                CondAction::Store {
                    word: CondWord::Sequence,
                    value: ticket,
                    order: MemOrder::Release,
                },
            ),
            Broadcast::Done => None,
        }
    }

    /// Where the thread stands after a reply that found `word`.
    pub open spec fn spec_next(self, word: u32) -> Self {
        match self {
            Broadcast::ReadTicket => Broadcast::Pass { ticket: word },
            _ => Broadcast::Done,
        }
    }

    /// What the thread does next; `None` if there is nothing left to do.
    pub fn action(&self) -> (action: Option<CondAction>)
        ensures
            action == self.spec_action(),
    {
        match *self {
            Broadcast::ReadTicket => Some(
                CondAction::Load { word: CondWord::Target, order: MemOrder::Acquire },
            ),
            Broadcast::Pass { ticket } => Some(
                CondAction::Store {
                    word: CondWord::Sequence,
                    value: ticket,
                    order: MemOrder::Release,
                },
            ),
            Broadcast::Done => None,
        }
    }

    /// Where the thread stands after a reply that found `word`.
    pub fn next(self, word: u32) -> (next: Self)
        ensures
            next == self.spec_next(word),
    {
        match self {
            Broadcast::ReadTicket => Broadcast::Pass { ticket: word },
            _ => Broadcast::Done,
        }
    }
}

/// Lets all tickets pass that were drawn.
pub fn spinpark_cond_broadcast(cond: &mut SpinparkCond)
    ensures
        *final(cond) == (SpinparkCond { seq: old(cond).target, ..*old(cond) }),
{
    let mut step = Broadcast::ReadTicket;
    loop
        invariant
            match step {
                Broadcast::ReadTicket => *cond == *old(cond),
                Broadcast::Pass { ticket } => *cond == *old(cond) && ticket == old(cond).target,
                Broadcast::Done => *cond == (SpinparkCond {
                    seq: old(cond).target,
                    ..*old(cond)
                }),
            },
        decreases
            match step {
                Broadcast::ReadTicket => 2int,
                Broadcast::Pass { .. } => 1,
                Broadcast::Done => 0,
            },
    {
        match step.action() {
            Some(action) => {
                let word: u32 = apply_to_cond(cond, action);
                step = step.next(word);
            },
            None => {
                return;
            },
        }
    }
}

/// Of two points in time either one comes before the other or they are the
/// same, and a point before another is before all that follow it.
pub proof fn law_time_is_ordered(a: Timespec, b: Timespec, c: Timespec)
    ensures
        a.before(b) || b.before(a) || a == b,
        !(a.before(b) && b.before(a)),
        !a.before(a),
        a.before(b) && b.before(c) ==> a.before(c),
{
}

/// The condition variable after `n` signals.
pub open spec fn signalled(cond: SpinparkCond, n: nat) -> SpinparkCond
    decreases n,
{
    if n == 0 {
        cond
    } else {
        let before = signalled(cond, (n - 1) as nat);
        SpinparkCond { seq: before.seq.wrapping_add(1), ..before }
    }
}

/// Signals let tickets pass in the order in which they were drawn: after `n`
/// signals exactly the next `n` tickets may pass as well.
pub proof fn law_signals_pass_in_order(cond: SpinparkCond, n: nat, ticket: u32)
    requires
        cond.seq + n <= u32::MAX,
    ensures
        signalled(cond, n).seq == cond.seq + n,
        signalled(cond, n).passes(ticket) <==> ticket <= cond.seq + n,
        cond.passes(ticket) ==> signalled(cond, n).passes(ticket),
    decreases n,
{
    if n > 0 {
        law_signals_pass_in_order(cond, (n - 1) as nat, ticket);
    }
}

/// A broadcast lets exactly the tickets pass that were drawn before it.
pub proof fn law_broadcast_passes_drawn(cond: SpinparkCond, ticket: u32)
    ensures
        (SpinparkCond { seq: cond.target, ..cond }).passes(ticket) <==> ticket <= cond.target,
{
}

/// A broadcast lets every ticket pass that was drawn before it looked, even
/// if other threads draw tickets or signal between its two steps.
pub proof fn law_broadcast_in_steps(
    looked: SpinparkCond,
    word: u32,
    found: SpinparkCond,
    post: SpinparkCond,
    ticket: u32,
)
    requires
        cond_effect(looked, Broadcast::ReadTicket.spec_action()->Some_0, word, looked),
        cond_effect(
            found,
            Broadcast::ReadTicket.spec_next(word).spec_action()->Some_0,
            0,
            post,
        ),
        ticket <= looked.target,
    ensures
        post.passes(ticket),
        post.target == found.target,
{
}

impl CondWait {
    /// The wait after all the replies.
    pub open spec fn after_all(self, replies: Seq<CondReply>) -> Self
        decreases replies.len(),
    {
        if replies.len() == 0 {
            self
        } else {
            self.after_all(replies.drop_last()).spec_next(replies.last())
        }
    }

    /// Whether a wait that is over has a reason to be.
    pub open spec fn justified(self) -> bool {
        match self.at {
            CondAt::Relock { timed_out: false, .. } | CondAt::Done { timed_out: false } => {
                self.ticket <= self.seq
            },
            CondAt::Relock { timed_out: true, .. } | CondAt::Done { timed_out: true } => {
                &&& self.ticket > self.seq
                &&& self.deadline matches Some(deadline) && !self.now.before(deadline)
            },
            CondAt::ReadClock => self.ticket > self.seq && self.deadline is Some,
            _ => true,
        }
    }
}

/// A wait succeeds only after it has seen its ticket pass, and times out only
/// if it has a deadline, has seen a clock that shows the deadline or later,
/// and has not seen its ticket pass. A wait without a deadline never times
/// out.
pub proof fn law_wait_outcome(
    vip_dsq_id: u64,
    deadline: Option<Timespec>,
    replies: Seq<CondReply>,
)
    ensures
        ({
            let wait = CondWait::spec_new(vip_dsq_id, deadline).after_all(replies);
            &&& wait.deadline == deadline
            &&& wait.wf()
            &&& wait.spec_outcome() == Some(Ok::<(), Errno>(())) ==> wait.ticket <= wait.seq
            &&& wait.spec_outcome() == Some(Err::<(), Errno>(Errno::TimedOut)) ==> wait.ticket
                > wait.seq && (deadline matches Some(at) && !wait.now.before(at))
        }),
{
    lemma_wait_justified(vip_dsq_id, deadline, replies);
}

proof fn lemma_wait_justified(
    vip_dsq_id: u64,
    deadline: Option<Timespec>,
    replies: Seq<CondReply>,
)
    ensures
        ({
            let wait = CondWait::spec_new(vip_dsq_id, deadline).after_all(replies);
            &&& wait.vip_dsq_id == vip_dsq_id
            &&& wait.deadline == deadline
            &&& wait.wf()
            &&& wait.justified()
        }),
    decreases replies.len(),
{
    if replies.len() > 0 {
        lemma_wait_justified(vip_dsq_id, deadline, replies.drop_last());
    }
}

/// A wait is over only when the thread has taken the lock again, whatever the
/// outcome.
pub proof fn law_wait_relocks(wait: CondWait, reply: CondReply)
    requires
        !(wait.at is Done),
        wait.spec_next(reply).at is Done,
    ensures
        wait.at matches CondAt::Relock { attempt, timed_out } && attempt.spec_next(reply.lock).at
            == LockAt::Acquired && wait.spec_next(reply).at == (CondAt::Done { timed_out }),
{
}

/// A waiter that looks goes on exactly if its ticket may pass: it then sets
/// out to take the lock, and it is not told that it has timed out. If not, it
/// stays, with a look at the clock if it has a deadline.
pub proof fn law_ticket_decides(wait: CondWait, reply: CondReply)
    requires
        wait.at == CondAt::Look,
    ensures
        wait.ticket <= reply.word ==> wait.spec_next(reply).at == (CondAt::Relock {
            attempt: LockAttempt::spec_new(wait.vip_dsq_id),
            timed_out: false,
        }),
        wait.ticket > reply.word && wait.deadline is None ==> wait.spec_next(reply).at is Pause,
        wait.ticket > reply.word && wait.deadline is Some ==> wait.spec_next(reply).at
            == CondAt::ReadClock,
{
}

/// The ticket is drawn first: it is the number after the one that the first
/// action has found, the wait keeps it, and the thread acts on the lock only
/// after it has drawn the ticket and looked.
pub proof fn law_ticket_before_release(
    vip_dsq_id: u64,
    deadline: Option<Timespec>,
    replies: Seq<CondReply>,
)
    ensures
        ({
            let wait = CondWait::spec_new(vip_dsq_id, deadline).after_all(replies);
            &&& (wait.at == CondAt::DrawTicket) == (replies.len() == 0)
            &&& replies.len() > 0 ==> wait.ticket == replies[0].word.wrapping_add(1)
            &&& wait.spec_action() matches Some(CondAction::Lock { .. }) ==> replies.len() >= 2
        }),
    decreases replies.len(),
{
    if replies.len() > 0 {
        let earlier = replies.drop_last();
        law_ticket_before_release(vip_dsq_id, deadline, earlier);
        if earlier.len() > 0 {
            assert(earlier[0] == replies[0]);
        }
    }
}

/// A broadcast releases a waiter: if it looks after the ticket was drawn, its
/// store lets the ticket pass, whatever other threads have done to the
/// condition variable in between. The waiter goes on when it next looks and
/// finds what the broadcast has stored, and a waiter that finds it before it
/// releases the lock goes on as soon as it has released it.
pub proof fn law_broadcast_wakes(
    vip_dsq_id: u64,
    deadline: Option<Timespec>,
    replies: Seq<CondReply>,
    looked: SpinparkCond,
    word: u32,
    found: SpinparkCond,
    post: SpinparkCond,
    answer: CondReply,
)
    requires
        replies.len() > 0,
        replies[0].word < looked.target,
        cond_effect(looked, Broadcast::ReadTicket.spec_action()->Some_0, word, looked),
        cond_effect(found, Broadcast::ReadTicket.spec_next(word).spec_action()->Some_0, 0, post),
        answer.word == post.seq,
    ensures
        ({
            let wait = CondWait::spec_new(vip_dsq_id, deadline).after_all(replies);
            &&& post.passes(wait.ticket)
            &&& wait.at == CondAt::Look ==> wait.spec_next(answer).at == (CondAt::Relock {
                attempt: LockAttempt::spec_new(vip_dsq_id),
                timed_out: false,
            })
            &&& wait.at == CondAt::FirstLook ==> wait.spec_next(answer).at is Release
                && wait.spec_next(answer).looked().at == (CondAt::Relock {
                attempt: LockAttempt::spec_new(vip_dsq_id),
                timed_out: false,
            })
        }),
{
    law_ticket_before_release(vip_dsq_id, deadline, replies);
    lemma_wait_justified(vip_dsq_id, deadline, replies);
}

} // verus!

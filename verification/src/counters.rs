//! Event counters of the lock protocol.

use crate::text::{decimal, push_decimal};
use vstd::prelude::*;
use vstd::string::StringExecFns;

verus! {

/// The events that the protocol counts.
#[derive(Clone, Copy, Debug, PartialEq, Eq, Structural)]
pub enum Counter {
    /// A thread took a lock.
    LockAcquire,
    /// A thread parked for the first time in one attempt at a lock.
    ContentionYield,
    /// A thread parked again in the same attempt.
    RequeueYield,
    /// A release offered the lock to a parked thread.
    HandoffYield,
    /// A thread gave up its CPU for a lock without a queue of its own.
    FallbackYield,
    /// A parked thread took an offered lock.
    HandoffTaken,
    /// A release took its offer back.
    HandoffMiss,
}

/// Number of counters.
pub const COUNTERS: usize = 7;

impl Counter {
    /// Position of the counter in a table of counters.
    pub open spec fn position(self) -> int {
        match self {
            Counter::LockAcquire => 0,
            Counter::ContentionYield => 1,
            Counter::RequeueYield => 2,
            Counter::HandoffYield => 3,
            Counter::FallbackYield => 4,
            Counter::HandoffTaken => 5,
            Counter::HandoffMiss => 6,
        }
    }

    /// Position of the counter in a table of counters; every position below
    /// [`COUNTERS`] belongs to exactly one counter.
    pub fn index(self) -> (i: usize)
        ensures
            i == self.position(),
            i < COUNTERS,
    {
        match self {
            Counter::LockAcquire => 0,
            Counter::ContentionYield => 1,
            Counter::RequeueYield => 2,
            Counter::HandoffYield => 3,
            Counter::FallbackYield => 4,
            Counter::HandoffTaken => 5,
            Counter::HandoffMiss => 6,
        }
    }
}

/// A table that holds the value of every counter. Counters wrap around.
#[derive(Clone, Copy, Debug)]
pub struct YieldCounters {
    /// The values, each at its counter's position.
    pub cells: [u64; 7],
}

impl YieldCounters {
    /// The value of one counter.
    pub open spec fn value(self, counter: Counter) -> u64 {
        self.cells[counter.position()]
    }

    /// Whether `self` is `before` with `counter` advanced by one.
    pub open spec fn bumped(self, before: YieldCounters, counter: Counter) -> bool {
        forall|c: Counter| #[trigger]
            self.value(c) == if c == counter {
                before.value(c).wrapping_add(1)
            } else {
                before.value(c)
            }
    }

    /// Whether the two tables agree on every counter.
    pub open spec fn same(self, other: YieldCounters) -> bool {
        forall|c: Counter| #[trigger] self.value(c) == other.value(c)
    }

    /// A table of zeroes.
    pub fn new() -> (counters: Self)
        ensures
            forall|c: Counter| #[trigger] counters.value(c) == 0,
    {
        YieldCounters { cells: [0; 7] }
    }

    /// Advances one counter.
    pub fn bump(&mut self, counter: Counter)
        ensures
            final(self).bumped(*old(self), counter),
    {
        let i: usize = counter.index();
        self.cells[i] = self.cells[i].wrapping_add(1);
    }
}

/// The counters as they are reported when the process ends.
#[derive(Clone, Copy, Debug, PartialEq, Eq, Structural)]
pub struct YieldStatsSnapshot {
    pub lock_acquire: u64,
    pub contention_yield: u64,
    pub requeue_yield: u64,
    pub handoff_yield: u64,
    pub fallback_yield: u64,
    pub handoff_taken: u64,
    pub handoff_miss: u64,
}

/// Reads every counter out of a table.
pub fn yield_stats_snapshot(counters: &YieldCounters) -> (stats: YieldStatsSnapshot)
    ensures
        stats.lock_acquire == counters.value(Counter::LockAcquire),
        stats.contention_yield == counters.value(Counter::ContentionYield),
        stats.requeue_yield == counters.value(Counter::RequeueYield),
        stats.handoff_yield == counters.value(Counter::HandoffYield),
        stats.fallback_yield == counters.value(Counter::FallbackYield),
        stats.handoff_taken == counters.value(Counter::HandoffTaken),
        stats.handoff_miss == counters.value(Counter::HandoffMiss),
{
    YieldStatsSnapshot {
        lock_acquire: counters.cells[Counter::LockAcquire.index()],
        contention_yield: counters.cells[Counter::ContentionYield.index()],
        requeue_yield: counters.cells[Counter::RequeueYield.index()],
        handoff_yield: counters.cells[Counter::HandoffYield.index()],
        fallback_yield: counters.cells[Counter::FallbackYield.index()],
        handoff_taken: counters.cells[Counter::HandoffTaken.index()],
        handoff_miss: counters.cells[Counter::HandoffMiss.index()],
    }
}

/// The text of [`stats_line`].
pub open spec fn stats_text(stats: YieldStatsSnapshot) -> Seq<char> {
    "yield stats: lock_acquire="@ + decimal(stats.lock_acquire as nat) + " contention_yield="@
        + decimal(stats.contention_yield as nat) + " requeue_yield="@ + decimal(
        stats.requeue_yield as nat,
    ) + " handoff_yield="@ + decimal(stats.handoff_yield as nat) + " fallback_yield="@ + decimal(
        stats.fallback_yield as nat,
    ) + " handoff_taken="@ + decimal(stats.handoff_taken as nat) + " handoff_miss="@ + decimal(
        stats.handoff_miss as nat,
    )
}

/// All counters in one line of text.
pub fn stats_line(stats: &YieldStatsSnapshot) -> (line: String)
    ensures
        line@ == "yield stats: lock_acquire="@ + decimal(stats.lock_acquire as nat)
            + " contention_yield="@ + decimal(stats.contention_yield as nat) + " requeue_yield="@
            + decimal(stats.requeue_yield as nat) + " handoff_yield="@ + decimal(
            stats.handoff_yield as nat,
        ) + " fallback_yield="@ + decimal(stats.fallback_yield as nat) + " handoff_taken="@
            + decimal(stats.handoff_taken as nat) + " handoff_miss="@ + decimal(
            stats.handoff_miss as nat,
        ),
        line@ == stats_text(*stats),
{
    let mut line = String::new();
    line.append("yield stats: lock_acquire=");
    push_decimal(&mut line, stats.lock_acquire);
    line.append(" contention_yield=");
    push_decimal(&mut line, stats.contention_yield);
    line.append(" requeue_yield=");
    push_decimal(&mut line, stats.requeue_yield);
    line.append(" handoff_yield=");
    push_decimal(&mut line, stats.handoff_yield);
    line.append(" fallback_yield=");
    push_decimal(&mut line, stats.fallback_yield);
    line.append(" handoff_taken=");
    push_decimal(&mut line, stats.handoff_taken);
    line.append(" handoff_miss=");
    push_decimal(&mut line, stats.handoff_miss);
    assert(line@ =~= stats_text(*stats));
    line
}

/// Whether two lines are the same but for one number behind `name`: what
/// stands before and behind it is the same in both.
pub open spec fn differ_in_number(
    line: Seq<char>,
    other: Seq<char>,
    name: Seq<char>,
    n: u64,
    m: u64,
) -> bool {
    exists|head: Seq<char>, tail: Seq<char>| #[trigger]
        numbered(line, head, name, n, tail) && numbered(other, head, name, m, tail)
}

/// Whether `line` is made up like this.
pub open spec fn numbered(
    line: Seq<char>,
    head: Seq<char>,
    name: Seq<char>,
    n: u64,
    tail: Seq<char>,
) -> bool {
    line == head + name + decimal(n as nat) + tail
}

proof fn lemma_gives_lock_acquire(stats: YieldStatsSnapshot, n: u64)
    ensures
        differ_in_number(
            stats_text(stats),
            stats_text(YieldStatsSnapshot { lock_acquire: n, ..stats }),
            "yield stats: lock_acquire="@,
            stats.lock_acquire,
            n,
        ),
{
    let head = Seq::<char>::empty();
    let tail = " contention_yield="@ + decimal(stats.contention_yield as nat) + " requeue_yield="@
        + decimal(stats.requeue_yield as nat) + " handoff_yield="@
        + decimal(stats.handoff_yield as nat) + " fallback_yield="@
        + decimal(stats.fallback_yield as nat) + " handoff_taken="@
        + decimal(stats.handoff_taken as nat) + " handoff_miss="@
        + decimal(stats.handoff_miss as nat);
    let other = YieldStatsSnapshot { lock_acquire: n, ..stats };
    assert(stats_text(stats) =~= head + "yield stats: lock_acquire="@
        + decimal(stats.lock_acquire as nat) + tail);
    assert(stats_text(other) =~= head + "yield stats: lock_acquire="@ + decimal(n as nat) + tail);
    assert(numbered(
        stats_text(stats),
        head,
        "yield stats: lock_acquire="@,
        stats.lock_acquire,
        tail,
    ));
}

proof fn lemma_gives_contention_yield(stats: YieldStatsSnapshot, n: u64)
    ensures
        differ_in_number(
            stats_text(stats),
            stats_text(YieldStatsSnapshot { contention_yield: n, ..stats }),
            " contention_yield="@,
            stats.contention_yield,
            n,
        ),
{
    let head = "yield stats: lock_acquire="@ + decimal(stats.lock_acquire as nat);
    let tail = " requeue_yield="@ + decimal(stats.requeue_yield as nat) + " handoff_yield="@
        + decimal(stats.handoff_yield as nat) + " fallback_yield="@
        + decimal(stats.fallback_yield as nat) + " handoff_taken="@
        + decimal(stats.handoff_taken as nat) + " handoff_miss="@
        + decimal(stats.handoff_miss as nat);
    let other = YieldStatsSnapshot { contention_yield: n, ..stats };
    assert(stats_text(stats) =~= head + " contention_yield="@
        + decimal(stats.contention_yield as nat) + tail);
    assert(stats_text(other) =~= head + " contention_yield="@ + decimal(n as nat) + tail);
    assert(numbered(stats_text(stats), head, " contention_yield="@, stats.contention_yield, tail));
}

proof fn lemma_gives_requeue_yield(stats: YieldStatsSnapshot, n: u64)
    ensures
        differ_in_number(
            stats_text(stats),
            stats_text(YieldStatsSnapshot { requeue_yield: n, ..stats }),
            " requeue_yield="@,
            stats.requeue_yield,
            n,
        ),
{
    let head = "yield stats: lock_acquire="@ + decimal(stats.lock_acquire as nat)
        + " contention_yield="@ + decimal(stats.contention_yield as nat);
    let tail = " handoff_yield="@ + decimal(stats.handoff_yield as nat) + " fallback_yield="@
        + decimal(stats.fallback_yield as nat) + " handoff_taken="@
        + decimal(stats.handoff_taken as nat) + " handoff_miss="@
        + decimal(stats.handoff_miss as nat);
    let other = YieldStatsSnapshot { requeue_yield: n, ..stats };
    assert(stats_text(stats) =~= head + " requeue_yield="@
        + decimal(stats.requeue_yield as nat) + tail);
    assert(stats_text(other) =~= head + " requeue_yield="@ + decimal(n as nat) + tail);
    assert(numbered(stats_text(stats), head, " requeue_yield="@, stats.requeue_yield, tail));
}

proof fn lemma_gives_handoff_yield(stats: YieldStatsSnapshot, n: u64)
    ensures
        differ_in_number(
            stats_text(stats),
            stats_text(YieldStatsSnapshot { handoff_yield: n, ..stats }),
            " handoff_yield="@,
            stats.handoff_yield,
            n,
        ),
{
    let head = "yield stats: lock_acquire="@ + decimal(stats.lock_acquire as nat)
        + " contention_yield="@ + decimal(stats.contention_yield as nat) + " requeue_yield="@
        + decimal(stats.requeue_yield as nat);
    let tail = " fallback_yield="@ + decimal(stats.fallback_yield as nat) + " handoff_taken="@
        + decimal(stats.handoff_taken as nat) + " handoff_miss="@
        + decimal(stats.handoff_miss as nat);
    let other = YieldStatsSnapshot { handoff_yield: n, ..stats };
    assert(stats_text(stats) =~= head + " handoff_yield="@
        + decimal(stats.handoff_yield as nat) + tail);
    assert(stats_text(other) =~= head + " handoff_yield="@ + decimal(n as nat) + tail);
    assert(numbered(stats_text(stats), head, " handoff_yield="@, stats.handoff_yield, tail));
}

proof fn lemma_gives_fallback_yield(stats: YieldStatsSnapshot, n: u64)
    ensures
        differ_in_number(
            stats_text(stats),
            stats_text(YieldStatsSnapshot { fallback_yield: n, ..stats }),
            " fallback_yield="@,
            stats.fallback_yield,
            n,
        ),
{
    let head = "yield stats: lock_acquire="@ + decimal(stats.lock_acquire as nat)
        + " contention_yield="@ + decimal(stats.contention_yield as nat) + " requeue_yield="@
        + decimal(stats.requeue_yield as nat) + " handoff_yield="@
        + decimal(stats.handoff_yield as nat);
    let tail = " handoff_taken="@ + decimal(stats.handoff_taken as nat) + " handoff_miss="@
        + decimal(stats.handoff_miss as nat);
    let other = YieldStatsSnapshot { fallback_yield: n, ..stats };
    assert(stats_text(stats) =~= head + " fallback_yield="@
        + decimal(stats.fallback_yield as nat) + tail);
    assert(stats_text(other) =~= head + " fallback_yield="@ + decimal(n as nat) + tail);
    assert(numbered(stats_text(stats), head, " fallback_yield="@, stats.fallback_yield, tail));
}

proof fn lemma_gives_handoff_taken(stats: YieldStatsSnapshot, n: u64)
    ensures
        differ_in_number(
            stats_text(stats),
            stats_text(YieldStatsSnapshot { handoff_taken: n, ..stats }),
            " handoff_taken="@,
            stats.handoff_taken,
            n,
        ),
{
    let head = "yield stats: lock_acquire="@ + decimal(stats.lock_acquire as nat)
        + " contention_yield="@ + decimal(stats.contention_yield as nat) + " requeue_yield="@
        + decimal(stats.requeue_yield as nat) + " handoff_yield="@
        + decimal(stats.handoff_yield as nat) + " fallback_yield="@
        + decimal(stats.fallback_yield as nat);
    let tail = " handoff_miss="@ + decimal(stats.handoff_miss as nat);
    let other = YieldStatsSnapshot { handoff_taken: n, ..stats };
    assert(stats_text(stats) =~= head + " handoff_taken="@
        + decimal(stats.handoff_taken as nat) + tail);
    assert(stats_text(other) =~= head + " handoff_taken="@ + decimal(n as nat) + tail);
    assert(numbered(stats_text(stats), head, " handoff_taken="@, stats.handoff_taken, tail));
}

proof fn lemma_gives_handoff_miss(stats: YieldStatsSnapshot, n: u64)
    ensures
        differ_in_number(
            stats_text(stats),
            stats_text(YieldStatsSnapshot { handoff_miss: n, ..stats }),
            " handoff_miss="@,
            stats.handoff_miss,
            n,
        ),
{
    let head = "yield stats: lock_acquire="@ + decimal(stats.lock_acquire as nat)
        + " contention_yield="@ + decimal(stats.contention_yield as nat) + " requeue_yield="@
        + decimal(stats.requeue_yield as nat) + " handoff_yield="@
        + decimal(stats.handoff_yield as nat) + " fallback_yield="@
        + decimal(stats.fallback_yield as nat) + " handoff_taken="@
        + decimal(stats.handoff_taken as nat);
    let tail = Seq::<char>::empty();
    let other = YieldStatsSnapshot { handoff_miss: n, ..stats };
    assert(stats_text(stats) =~= head + " handoff_miss="@
        + decimal(stats.handoff_miss as nat) + tail);
    assert(stats_text(other) =~= head + " handoff_miss="@ + decimal(n as nat) + tail);
    assert(numbered(stats_text(stats), head, " handoff_miss="@, stats.handoff_miss, tail));
}

/// The line of the counters gives each counter's own value, behind the
/// counter's name: if one counter is another number, the line is the same but
/// for that number.
pub proof fn law_line_gives_each_counter(stats: YieldStatsSnapshot, n: u64)
    ensures
        differ_in_number(
            stats_text(stats),
            stats_text(YieldStatsSnapshot { lock_acquire: n, ..stats }),
            "yield stats: lock_acquire="@,
            stats.lock_acquire,
            n,
        ),
        differ_in_number(
            stats_text(stats),
            stats_text(YieldStatsSnapshot { contention_yield: n, ..stats }),
            " contention_yield="@,
            stats.contention_yield,
            n,
        ),
        differ_in_number(
            stats_text(stats),
            stats_text(YieldStatsSnapshot { requeue_yield: n, ..stats }),
            " requeue_yield="@,
            stats.requeue_yield,
            n,
        ),
        differ_in_number(
            stats_text(stats),
            stats_text(YieldStatsSnapshot { handoff_yield: n, ..stats }),
            " handoff_yield="@,
            stats.handoff_yield,
            n,
        ),
        differ_in_number(
            stats_text(stats),
            stats_text(YieldStatsSnapshot { fallback_yield: n, ..stats }),
            " fallback_yield="@,
            stats.fallback_yield,
            n,
        ),
        differ_in_number(
            stats_text(stats),
            stats_text(YieldStatsSnapshot { handoff_taken: n, ..stats }),
            " handoff_taken="@,
            stats.handoff_taken,
            n,
        ),
        differ_in_number(
            stats_text(stats),
            stats_text(YieldStatsSnapshot { handoff_miss: n, ..stats }),
            " handoff_miss="@,
            stats.handoff_miss,
            n,
        ),
{
    lemma_gives_lock_acquire(stats, n);
    lemma_gives_contention_yield(stats, n);
    lemma_gives_requeue_yield(stats, n);
    lemma_gives_handoff_yield(stats, n);
    lemma_gives_fallback_yield(stats, n);
    lemma_gives_handoff_taken(stats, n);
    lemma_gives_handoff_miss(stats, n);
}

/// Every counter has a place of its own in the table, and advancing one leaves
/// all others alone.
pub proof fn law_counters_are_apart(
    before: YieldCounters,
    after: YieldCounters,
    counter: Counter,
    other: Counter,
)
    ensures
        0 <= counter.position() < 7,
        counter != other ==> counter.position() != other.position(),
        after.bumped(before, counter) ==> after.value(counter) == before.value(
            counter,
        ).wrapping_add(1),
        after.bumped(before, counter) && counter != other ==> after.value(other) == before.value(
            other,
        ),
{
}

} // verus!

# lb_simple

A mutex and a condition variable that cooperate with the scheduler. A thread
that waits for a lock reports the lock's queue before it gives up its CPU; a
thread that releases a contended lock offers it to a waiter and reports that,
so that the scheduler can run the waiter next.

- `src/` is the protocol, verified with Verus. Each operation is a machine that
  says, one indivisible action at a time, what a thread does to the shared words
  and what it reports.
- `src/exclusion.rs` and `src/progress.rs` state what holds of all threads
  together, however they take turns: mutual exclusion, the meaning of the words,
  and that no thread is stuck with a lock that nobody owns. `src/tallies.rs`
  does so for the counters, `src/wakeups.rs` for the waiters of a condition, and
  `src/races.rs` for threads that race for an offer or leave at the same time.
  Accesses to the words are taken to happen one after the other.
- `app/` performs the actions on real atomics, makes the system calls, loads the
  scheduler, and takes over the pthread functions when it is preloaded
  (`lib.rs`), or runs the scheduler by itself (`main.rs`). The skeleton of the
  scheduler's BPF program is generated when that is built.
- `tests/` runs the machines.

The first 4096 locks of a process get a queue each, which no other lock ever
gets. Locks after them fall back to plain yielding.

//! A mutex and a condition variable that cooperate with the scheduler.
//!
//! A thread that cannot take a lock tells the scheduler which lock it wants
//! before it gives up its CPU, and a thread that releases a contended lock
//! hands it over in the same way. This crate holds the protocol: what each
//! thread does to the shared words of a lock, in which order, and what it
//! reports. The words themselves live in the program around the crate, which
//! performs one [`words::Action`] after another and hands back what it saw.

pub mod acquire;
pub mod condvar;
pub mod conduct;
pub mod counters;
pub mod exclusion;
pub mod launcher;
pub mod object;
pub mod progress;
pub mod races;
pub mod release;
pub mod report;
pub mod sums;
pub mod tallies;
pub mod text;
pub mod vip;
pub mod wait_conduct;
pub mod waiting;
pub mod wakeups;
pub mod words;

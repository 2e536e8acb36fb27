//! Scheduler queues that belong to single locks.
//!
//! The first [`VIP_DSQ_SLOTS`] locks of a process get a queue each, which no
//! other lock ever gets; the locks after them have none and fall back to plain
//! yielding.

use crate::words::SpinparkLock;
use vstd::prelude::*;

verus! {

/// The queue of the first lock.
pub const VIP_DSQ_BASE: u64 = 1;
/// Number of queues that can be given to locks.
pub const VIP_DSQ_SLOTS: u32 = 4096;
/// The last queue that can be given to a lock.
pub const VIP_DSQ_LAST: u64 = 4096;

/// Whether `id` names a queue that belongs to a lock.
pub open spec fn is_vip_dsq(id: u64) -> bool {
    VIP_DSQ_BASE <= id <= VIP_DSQ_LAST
}

/// The queue of the lock that was the `slot`-th to ask for one, counted from
/// 0; 0 if none is left.
pub open spec fn vip_dsq_of_slot(slot: u32) -> u64 {
    if slot < VIP_DSQ_SLOTS {
        (VIP_DSQ_BASE + slot) as u64
    } else {
        0
    }
}

/// The queue that goes with the number that the shared slot counter gave.
pub fn vip_dsq_id(slot: u32) -> (id: u64)
    ensures
        id == vip_dsq_of_slot(slot),
{
    if slot >= VIP_DSQ_SLOTS {
        return 0;
    }
    VIP_DSQ_BASE + slot as u64
}

/// The slot counter after a lock has asked for a queue. It stops when no slot
/// is left.
pub open spec fn following_slot(slot: u32) -> u32 {
    if slot < VIP_DSQ_SLOTS {
        (slot + 1) as u32
    } else {
        slot
    }
}

/// Takes the next slot off the counter and returns its queue, 0 if none is
/// left. Once none is left the counter stays where it is.
pub fn alloc_vip_dsq_id(next_slot: &mut u32) -> (id: u64)
    ensures
        id == vip_dsq_of_slot(*old(next_slot)),
        *final(next_slot) == following_slot(*old(next_slot)),
{
    let slot: u32 = *next_slot;
    if slot < VIP_DSQ_SLOTS {
        *next_slot = slot + 1;
    }
    vip_dsq_id(slot)
}

/// Whether threads hand the lock over through a queue of its own.
pub fn strong_handoff_enabled(lock: &SpinparkLock) -> (enabled: bool)
    ensures
        enabled == is_vip_dsq(lock.vip_dsq_id),
{
    vip_dsq_valid(lock.vip_dsq_id)
}

/// Whether `id` names a queue that belongs to a lock.
pub fn vip_dsq_valid(id: u64) -> (valid: bool)
    ensures
        valid == is_vip_dsq(id),
{
    id >= VIP_DSQ_BASE && id <= VIP_DSQ_LAST
}

/// The slot counter of a process in which `n` locks have asked for a queue.
pub open spec fn slot_after(n: nat) -> u32
    decreases n,
{
    if n == 0 {
        0
    } else {
        following_slot(slot_after((n - 1) as nat))
    }
}

/// The queue that a lock gets when `n` locks of its process have asked before
/// it; 0 if it gets none.
pub open spec fn vip_dsq_after(n: nat) -> u64 {
    vip_dsq_of_slot(slot_after(n))
}

proof fn lemma_slot_after(n: nat)
    ensures
        slot_after(n) == if n < VIP_DSQ_SLOTS {
            n as int
        } else {
            VIP_DSQ_SLOTS as int
        },
    decreases n,
{
    if n > 0 {
        lemma_slot_after((n - 1) as nat);
    }
}

/// A queue is dedicated to one lock: of any two locks of a process, in
/// whatever order and however many others ask, the later one never gets a
/// queue that the earlier one got, and gets none if the earlier one got none.
/// Locks get nothing but queues of locks, or 0.
pub proof fn law_vip_dsq_dedicated(earlier: nat, later: nat)
    requires
        earlier < later,
    ensures
        is_vip_dsq(vip_dsq_after(earlier)) || vip_dsq_after(earlier) == 0,
        vip_dsq_after(earlier) <= VIP_DSQ_LAST,
        vip_dsq_after(later) <= VIP_DSQ_LAST,
        vip_dsq_after(earlier) != 0 ==> vip_dsq_after(later) != vip_dsq_after(earlier),
        vip_dsq_after(earlier) == 0 ==> vip_dsq_after(later) == 0,
{
    lemma_slot_after(earlier);
    lemma_slot_after(later);
}

/// Exactly the first [`VIP_DSQ_SLOTS`] locks of a process get a queue, and
/// every queue of locks goes to one of them.
pub proof fn law_vip_dsq_first_come(n: nat, id: u64)
    ensures
        is_vip_dsq(vip_dsq_after(n)) <==> n < VIP_DSQ_SLOTS,
        is_vip_dsq(id) ==> exists|m: nat| m < VIP_DSQ_SLOTS && #[trigger] vip_dsq_after(m) == id,
{
    lemma_slot_after(n);
    if is_vip_dsq(id) {
        let m: nat = (id - VIP_DSQ_BASE) as nat;
        lemma_slot_after(m);
        assert(vip_dsq_after(m) == id);
    }
}

/// The queues of locks are those from 1 to 4096, and locks get them in order:
/// the first lock queue 1, the next queue 2, and so on. The counter goes up by
/// one with each, and no further.
pub proof fn law_vip_dsq_in_order(n: nat, slot: u32, id: u64)
    ensures
        is_vip_dsq(id) <==> 1 <= id <= 4096,
        vip_dsq_of_slot(slot) == if slot < 4096 {
            slot + 1
        } else {
            0
        },
        following_slot(slot) == if slot < 4096 {
            slot + 1
        } else {
            slot as int
        },
        vip_dsq_after(n) == if n < 4096 {
            n + 1
        } else {
            0
        },
{
    lemma_slot_after(n);
}

} // verus!

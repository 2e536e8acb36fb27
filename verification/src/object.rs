//! Finding, making and removing the objects behind the caller's handles.
//!
//! A caller's mutex or condition variable is storage that this library uses
//! as a [`Slot`]: a status and the address of the object that does the work.
//! Objects are made when they are first used. The protocol is the same for
//! both kinds.

use crate::sums::{
    lemma_total_bounds, lemma_total_pair, lemma_total_update, lemma_total_zero, one_if, total,
};
use crate::words::Errno;
use vstd::prelude::*;

verus! {

/// Status of a slot without an object.
pub const OBJ_UNINIT: u32 = 0;
/// Status of a slot whose object is being made.
pub const OBJ_INITING: u32 = 1;
/// Status of a slot with an object.
pub const OBJ_READY: u32 = 2;

/// The contents of a caller's handle.
#[derive(Clone, Copy, Debug, PartialEq, Eq, Structural)]
pub struct Slot {
    /// One of [`OBJ_UNINIT`], [`OBJ_INITING`] and [`OBJ_READY`].
    pub status: u32,
    /// The address of the object, 0 if there is none.
    pub ptr: usize,
}

/// What a thread does next to a slot. Each action is indivisible. Loads
/// acquire, stores release, and the others do both.
#[derive(Clone, Copy, Debug, PartialEq, Eq, Structural)]
pub enum SlotAction {
    /// Read the status.
    LoadStatus,
    /// Write the status.
    StoreStatus { status: u32 },
    /// Turn the status from [`OBJ_UNINIT`] to [`OBJ_INITING`].
    ClaimStatus,
    /// Read the address.
    LoadPtr,
    /// Write the address.
    StorePtr { ptr: usize },
    /// Read the address and leave 0 in its place.
    TakePtr,
    /// Make a new object.
    Create,
    /// Dispose of an object.
    Dispose { ptr: usize },
    /// Tell the CPU that the thread spins.
    Spin,
}

/// What a thread learns from an action.
#[derive(Clone, Copy, Debug, PartialEq, Eq, Structural)]
pub struct SlotReply {
    /// The status that a load has read.
    pub status: u32,
    /// The address that a load has read or taken, or that of a new object.
    pub ptr: usize,
    /// Whether a claim has succeeded.
    pub claimed: bool,
}

/// Whether `action`, performed on `pre`, may answer `reply` and leave `post`.
pub open spec fn slot_effect(pre: Slot, action: SlotAction, reply: SlotReply, post: Slot) -> bool {
    match action {
        SlotAction::LoadStatus => reply.status == pre.status && post == pre,
        SlotAction::StoreStatus { status } => post == (Slot { status, ..pre }),
        SlotAction::ClaimStatus => {
            &&& reply.claimed == (pre.status == OBJ_UNINIT)
            &&& post == if reply.claimed {
                Slot { status: OBJ_INITING, ..pre }
            } else {
                pre
            }
        },
        SlotAction::LoadPtr => reply.ptr == pre.ptr && post == pre,
        SlotAction::StorePtr { ptr } => post == (Slot { ptr, ..pre }),
        SlotAction::TakePtr => reply.ptr == pre.ptr && post == (Slot { ptr: 0, ..pre }),
        SlotAction::Create => reply.ptr != 0 && post == pre,
        SlotAction::Dispose { .. } | SlotAction::Spin => post == pre,
    }
}

/// Performs an action on a slot that no other thread can reach. A new object
/// has the address `fresh`.
pub fn apply_to_slot(slot: &mut Slot, action: SlotAction, fresh: usize) -> (reply: SlotReply)
    requires
        fresh != 0,
    ensures
        slot_effect(*old(slot), action, reply, *final(slot)),
        action == SlotAction::Create ==> reply.ptr == fresh,
{
    let mut reply = SlotReply { status: slot.status, ptr: slot.ptr, claimed: false };
    match action {
        SlotAction::StoreStatus { status } => {
            slot.status = status;
        },
        SlotAction::ClaimStatus => {
            if slot.status == OBJ_UNINIT {
                slot.status = OBJ_INITING;
                reply.claimed = true;
            }
        },
        SlotAction::StorePtr { ptr } => {
            slot.ptr = ptr;
        },
        SlotAction::TakePtr => {
            slot.ptr = 0;
        },
        SlotAction::Create => {
            reply.ptr = fresh;
        },
        _ => {},
    }
    reply
}

/// The operations that callers use on their handles.
#[derive(Clone, Copy, Debug, PartialEq, Eq, Structural)]
pub enum Operation {
    Lock,
    TryLock,
    Unlock,
    Wait,
    Signal,
    Broadcast,
}

impl Operation {
    /// Whether an operation makes the objects that it needs. Only a release
    /// does not: what was never used cannot be held.
    pub fn creates(self) -> (creates: bool)
        ensures
            creates == !(self is Unlock),
    {
        !matches!(self, Operation::Unlock)
    }
}

/// Whether storage can serve as a slot: there is some, and a slot of the given
/// size and alignment fits into it.
pub fn storage_usable(
    is_null: bool,
    size: usize,
    align: usize,
    slot_size: usize,
    slot_align: usize,
) -> (usable: bool)
    ensures
        usable == (!is_null && size >= slot_size && align >= slot_align),
{
    !is_null && size >= slot_size && align >= slot_align
}

/// Where a thread stands in the search for an object.
#[derive(Clone, Copy, Debug, PartialEq, Eq, Structural)]
pub enum LookupAt {
    /// About to read the status.
    ReadStatus,
    /// There is an object; about to read its address.
    ReadPtr,
    /// The address was 0; about to say that there is no object.
    Reset,
    /// There is no object; about to claim the right to make one.
    Claim,
    /// Has the right to make the object.
    Create,
    /// Has made the object, about to write its address.
    StorePtr { ptr: usize },
    /// About to say that there is an object.
    Publish { ptr: usize },
    /// Another thread is making the object; about to spin for a round.
    Wait,
    /// Has found or made the object.
    Found { ptr: usize },
    /// There is no object and none is to be made.
    Refused,
}

/// One search for the object of a slot.
#[derive(Clone, Copy, Debug, PartialEq, Eq, Structural)]
pub struct Lookup {
    pub at: LookupAt,
    /// Whether the object is to be made if there is none.
    pub create: bool,
}

impl Lookup {
    /// A fresh search.
    pub open spec fn spec_new(usable: bool, create: bool) -> Self {
        Lookup {
            at: if usable {
                LookupAt::ReadStatus
            } else {
                LookupAt::Refused
            },
            create,
        }
    }

    /// The same search at another place.
    pub open spec fn moved(self, at: LookupAt) -> Self {
        Lookup { at, ..self }
    }

    /// What the thread does next; `None` if there is nothing left to do.
    pub open spec fn spec_action(self) -> Option<SlotAction> {
        match self.at {
            LookupAt::ReadStatus => Some(SlotAction::LoadStatus),
            LookupAt::ReadPtr => Some(SlotAction::LoadPtr),
            LookupAt::Reset => Some(SlotAction::StoreStatus { status: OBJ_UNINIT }),
            LookupAt::Claim => Some(SlotAction::ClaimStatus),
            LookupAt::Create => Some(SlotAction::Create),
            LookupAt::StorePtr { ptr } => Some(SlotAction::StorePtr { ptr }),
            LookupAt::Publish { .. } => Some(SlotAction::StoreStatus { status: OBJ_READY }),
            LookupAt::Wait => Some(SlotAction::Spin),
            LookupAt::Found { .. } | LookupAt::Refused => None,
        }
    }

    /// Where the search stands after `reply`. A status that is none of the
    /// three is refused.
    pub open spec fn spec_next(self, reply: SlotReply) -> Self {
        self.moved(
            match self.at {
                LookupAt::ReadStatus => if reply.status == OBJ_READY {
                    LookupAt::ReadPtr
                } else if reply.status == OBJ_UNINIT && self.create {
                    LookupAt::Claim
                } else if reply.status == OBJ_INITING {
                    LookupAt::Wait
                } else {
                    LookupAt::Refused
                },
                LookupAt::ReadPtr => if reply.ptr == 0 {
                    LookupAt::Reset
                } else {
                    LookupAt::Found { ptr: reply.ptr }
                },
                LookupAt::Reset | LookupAt::Wait => LookupAt::ReadStatus,
                LookupAt::Claim => if reply.claimed {
                    LookupAt::Create
                } else {
                    LookupAt::ReadStatus
                },
                LookupAt::Create => LookupAt::StorePtr { ptr: reply.ptr },
                LookupAt::StorePtr { ptr } => LookupAt::Publish { ptr },
                LookupAt::Publish { ptr } => LookupAt::Found { ptr },
                LookupAt::Found { .. } | LookupAt::Refused => self.at,
            },
        )
    }

    /// What the caller is told once the search is over; `None` before.
    pub open spec fn spec_outcome(self) -> Option<Result<usize, Errno>> {
        match self.at {
            LookupAt::Found { ptr } => Some(Ok(ptr)),
            LookupAt::Refused => Some(Err(Errno::Invalid)),
            _ => None,
        }
    }

    /// A fresh search in storage that is usable as a slot or not.
    pub fn new(usable: bool, create: bool) -> (lookup: Self)
        ensures
            lookup == Self::spec_new(usable, create),
    {
        Lookup {
            at: if usable {
                LookupAt::ReadStatus
            } else {
                LookupAt::Refused
            },
            create,
        }
    }

    /// What the thread does next; `None` if there is nothing left to do.
    pub fn action(&self) -> (action: Option<SlotAction>)
        ensures
            action == self.spec_action(),
    {
        match self.at {
            LookupAt::ReadStatus => Some(SlotAction::LoadStatus),
            LookupAt::ReadPtr => Some(SlotAction::LoadPtr),
            LookupAt::Reset => Some(SlotAction::StoreStatus { status: OBJ_UNINIT }),
            LookupAt::Claim => Some(SlotAction::ClaimStatus),
            LookupAt::Create => Some(SlotAction::Create),
            LookupAt::StorePtr { ptr } => Some(SlotAction::StorePtr { ptr }),
            LookupAt::Publish { .. } => Some(SlotAction::StoreStatus { status: OBJ_READY }),
            LookupAt::Wait => Some(SlotAction::Spin),
            LookupAt::Found { .. } | LookupAt::Refused => None,
        }
    }

    /// Moves the search on with the reply to its action.
    pub fn advance(&mut self, reply: SlotReply)
        ensures
            *final(self) == old(self).spec_next(reply),
    {
        self.at = match self.at {
            LookupAt::ReadStatus => match reply.status {
                OBJ_READY => LookupAt::ReadPtr,
                OBJ_UNINIT => if self.create {
                    LookupAt::Claim
                } else {
                    LookupAt::Refused
                },
                OBJ_INITING => LookupAt::Wait,
                _ => LookupAt::Refused,
            },
            LookupAt::ReadPtr => if reply.ptr == 0 {
                LookupAt::Reset
            } else {
                LookupAt::Found { ptr: reply.ptr }
            },
            LookupAt::Reset | LookupAt::Wait => LookupAt::ReadStatus,
            LookupAt::Claim => if reply.claimed {
                LookupAt::Create
            } else {
                LookupAt::ReadStatus
            },
            LookupAt::Create => LookupAt::StorePtr { ptr: reply.ptr },
            LookupAt::StorePtr { ptr } => LookupAt::Publish { ptr },
            LookupAt::Publish { ptr } => LookupAt::Found { ptr },
            LookupAt::Found { ptr } => LookupAt::Found { ptr },
            LookupAt::Refused => LookupAt::Refused,
        };
    }

    /// What the caller is told once the search is over; `None` before.
    pub fn outcome(&self) -> (outcome: Option<Result<usize, Errno>>)
        ensures
            outcome == self.spec_outcome(),
    {
        match self.at {
            LookupAt::Found { ptr } => Some(Ok(ptr)),
            LookupAt::Refused => Some(Err(Errno::Invalid)),
            _ => None,
        }
    }
}

/// Whether the slot has an object.
pub open spec fn has_object(slot: Slot) -> bool {
    slot.status == OBJ_READY && slot.ptr != 0
}

/// Whether the slot says, or lets a search find out, that it has no object.
pub open spec fn lacks_object(slot: Slot) -> bool {
    slot.status == OBJ_UNINIT || (slot.status == OBJ_READY && slot.ptr == 0)
}

/// What a search that no other thread disturbs finds.
pub open spec fn lookup_outcome(slot: Slot, usable: bool, create: bool, fresh: usize) -> Result<
    usize,
    Errno,
> {
    if usable && has_object(slot) {
        Ok(slot.ptr)
    } else if usable && lacks_object(slot) && create {
        Ok(fresh)
    } else {
        Err(Errno::Invalid)
    }
}

/// The slot after a search that no other thread disturbs.
pub open spec fn looked_up(slot: Slot, usable: bool, create: bool, fresh: usize) -> Slot {
    if !usable || !lacks_object(slot) {
        slot
    } else if create {
        Slot { status: OBJ_READY, ptr: fresh }
    } else {
        Slot { status: OBJ_UNINIT, ..slot }
    }
}

impl Lookup {
    /// Whether the search has got here from a fresh one of the slot `start`,
    /// alone, leaving `slot`.
    pub open spec fn alone(self, start: Slot, usable: bool, fresh: usize, slot: Slot) -> bool {
        &&& fresh != 0
        &&& usable ==> start.status != OBJ_INITING
        &&& match self.at {
            LookupAt::ReadStatus => usable && (slot == start || (slot == (Slot {
                status: OBJ_UNINIT,
                ..start
            }) && lacks_object(start))),
            LookupAt::ReadPtr => usable && slot == start && start.status == OBJ_READY,
            LookupAt::Reset => usable && slot == start && start.status == OBJ_READY && start.ptr
                == 0,
            LookupAt::Claim => usable && lacks_object(start) && self.create && slot == (Slot {
                status: OBJ_UNINIT,
                ..start
            }),
            LookupAt::Create => usable && lacks_object(start) && self.create && slot == (Slot {
                status: OBJ_INITING,
                ..start
            }),
            LookupAt::StorePtr { ptr } => usable && lacks_object(start) && self.create && ptr
                == fresh && slot.status == OBJ_INITING,
            LookupAt::Publish { ptr } => usable && lacks_object(start) && self.create && ptr
                == fresh && slot == (Slot { status: OBJ_INITING, ptr }),
            LookupAt::Wait => false,
            LookupAt::Found { .. } | LookupAt::Refused => {
                &&& self.spec_outcome() == Some(lookup_outcome(start, usable, self.create, fresh))
                &&& slot == looked_up(start, usable, self.create, fresh)
            },
        }
    }

    /// Steps left in a search that no other thread disturbs, at most.
    pub open spec fn steps_left(self, slot: Slot) -> int {
        match self.at {
            LookupAt::ReadStatus => if slot.status == OBJ_READY {
                9
            } else {
                6
            },
            LookupAt::ReadPtr => 8,
            LookupAt::Reset => 7,
            LookupAt::Claim => 5,
            LookupAt::Create => 4,
            LookupAt::StorePtr { .. } => 3,
            LookupAt::Publish { .. } => 2,
            _ => 0,
        }
    }
}

/// Finds the object of a slot while no other thread gets to run. If there is
/// none, one is made at the address `fresh` or, if that is not wanted, the
/// search fails.
pub fn get_or_init(slot: &mut Slot, usable: bool, create: bool, fresh: usize) -> (outcome: Result<
    usize,
    Errno,
>)
    requires
        fresh != 0,
        usable ==> old(slot).status != OBJ_INITING,
    ensures
        outcome == lookup_outcome(*old(slot), usable, create, fresh),
        *final(slot) == looked_up(*old(slot), usable, create, fresh),
{
    let mut lookup = Lookup::new(usable, create);
    loop
        invariant
            lookup.alone(*old(slot), usable, fresh, *slot),
            lookup.create == create,
        decreases lookup.steps_left(*slot),
    {
        if let Some(outcome) = lookup.outcome() {
            return outcome;
        }
        if let Some(action) = lookup.action() {
            let reply = apply_to_slot(slot, action, fresh);
            lookup.advance(reply);
        }
    }
}

/// Where a thread stands in the initialisation of a slot.
#[derive(Clone, Copy, Debug, PartialEq, Eq, Structural)]
pub enum InitCall {
    /// About to take the old address.
    TakeOld,
    /// About to dispose of the old object.
    DisposeOld { ptr: usize },
    /// About to say that there is no object.
    Reset,
    /// Is making the object.
    Make { lookup: Lookup },
}

impl InitCall {
    /// A fresh initialisation. If it is forced, what the slot holds is
    /// disposed of first.
    pub open spec fn spec_new(usable: bool, force_reinit: bool) -> Self {
        if usable && force_reinit {
            InitCall::TakeOld
        } else {
            InitCall::Make { lookup: Lookup::spec_new(usable, true) }
        }
    }

    /// What the thread does next; `None` if there is nothing left to do.
    pub open spec fn spec_action(self) -> Option<SlotAction> {
        match self {
            InitCall::TakeOld => Some(SlotAction::TakePtr),
            InitCall::DisposeOld { ptr } => Some(SlotAction::Dispose { ptr }),
            InitCall::Reset => Some(SlotAction::StoreStatus { status: OBJ_UNINIT }),
            InitCall::Make { lookup } => lookup.spec_action(),
        }
    }

    /// Where the thread stands after `reply`.
    pub open spec fn spec_next(self, reply: SlotReply) -> Self {
        match self {
            InitCall::TakeOld => if reply.ptr != 0 {
                InitCall::DisposeOld { ptr: reply.ptr }
            } else {
                InitCall::Reset
            },
            InitCall::DisposeOld { .. } => InitCall::Reset,
            InitCall::Reset => InitCall::Make { lookup: Lookup::spec_new(true, true) },
            InitCall::Make { lookup } => InitCall::Make { lookup: lookup.spec_next(reply) },
        }
    }

    /// What the caller is told once the slot is initialised; `None` before.
    pub open spec fn spec_outcome(self) -> Option<Result<(), Errno>> {
        match self {
            InitCall::Make { lookup } => match lookup.spec_outcome() {
                Some(Ok(_)) => Some(Ok(())),
                Some(Err(errno)) => Some(Err(errno)),
                None => None,
            },
            _ => None,
        }
    }

    /// A fresh initialisation.
    pub fn new(usable: bool, force_reinit: bool) -> (call: Self)
        ensures
            call == Self::spec_new(usable, force_reinit),
    {
        if usable && force_reinit {
            InitCall::TakeOld
        } else {
            InitCall::Make { lookup: Lookup::new(usable, true) }
        }
    }

    /// What the thread does next; `None` if there is nothing left to do.
    pub fn action(&self) -> (action: Option<SlotAction>)
        ensures
            action == self.spec_action(),
    {
        match *self {
            InitCall::TakeOld => Some(SlotAction::TakePtr),
            InitCall::DisposeOld { ptr } => Some(SlotAction::Dispose { ptr }),
            InitCall::Reset => Some(SlotAction::StoreStatus { status: OBJ_UNINIT }),
            InitCall::Make { lookup } => lookup.action(),
        }
    }

    /// Moves the initialisation on with the reply to its action.
    pub fn advance(&mut self, reply: SlotReply)
        ensures
            *final(self) == old(self).spec_next(reply),
    {
        *self = match *self {
            InitCall::TakeOld => if reply.ptr != 0 {
                InitCall::DisposeOld { ptr: reply.ptr }
            } else {
                InitCall::Reset
            },
            InitCall::DisposeOld { .. } => InitCall::Reset,
            InitCall::Reset => InitCall::Make { lookup: Lookup::new(true, true) },
            InitCall::Make { lookup } => {
                let mut lookup = lookup;
                lookup.advance(reply);
                InitCall::Make { lookup }
            },
        };
    }

    /// What the caller is told once the slot is initialised; `None` before.
    pub fn outcome(&self) -> (outcome: Option<Result<(), Errno>>)
        ensures
            outcome == self.spec_outcome(),
    {
        match *self {
            InitCall::Make { lookup } => match lookup.outcome() {
                Some(Ok(_)) => Some(Ok(())),
                Some(Err(errno)) => Some(Err(errno)),
                None => None,
            },
            _ => None,
        }
    }
}

/// The slot that an initialisation starts from after it has disposed of what
/// the slot held, if it does.
pub open spec fn cleared(slot: Slot, usable: bool, force_reinit: bool) -> Slot {
    if usable && force_reinit {
        Slot { status: OBJ_UNINIT, ptr: 0 }
    } else {
        slot
    }
}

/// The address that a slot holds, if it holds one and is to be cleared.
pub open spec fn disposed(slot: Slot, clear: bool) -> Option<usize> {
    if clear && slot.ptr != 0 {
        Some(slot.ptr)
    } else {
        None
    }
}

/// Initialises a slot while no other thread gets to run, and says which object
/// it has disposed of. A forced initialisation makes a new object at `fresh`
/// whatever the slot holds; one that is not forced keeps an object that is
/// there.
pub fn interpose_init(slot: &mut Slot, usable: bool, force_reinit: bool, fresh: usize) -> (result: (
    Result<(), Errno>,
    Option<usize>,
))
    requires
        fresh != 0,
        usable && !force_reinit ==> old(slot).status != OBJ_INITING,
    ensures
        result.0 == match lookup_outcome(
            cleared(*old(slot), usable, force_reinit),
            usable,
            true,
            fresh,
        ) {
            Ok(_) => Ok::<(), Errno>(()),
            Err(errno) => Err::<(), Errno>(errno),
        },
        result.1 == disposed(*old(slot), usable && force_reinit),
        *final(slot) == looked_up(cleared(*old(slot), usable, force_reinit), usable, true, fresh),
{
    let mut dropped: Option<usize> = None;
    let mut call = InitCall::new(usable, force_reinit);
    loop
        invariant
            fresh != 0,
            match call {
                InitCall::TakeOld => usable && force_reinit && *slot == *old(slot) && dropped
                    is None,
                InitCall::DisposeOld { ptr } => usable && force_reinit && *slot == (Slot {
                    ptr: 0,
                    ..*old(slot)
                }) && dropped is None && old(slot).ptr == ptr && ptr != 0,
                InitCall::Reset => usable && force_reinit && *slot == (Slot {
                    ptr: 0,
                    ..*old(slot)
                }) && dropped == disposed(*old(slot), true),
                InitCall::Make { lookup } => {
                    &&& lookup.create
                    &&& lookup.alone(cleared(*old(slot), usable, force_reinit), usable, fresh, *slot)
                    &&& dropped == disposed(*old(slot), usable && force_reinit)
                },
            },
        decreases
            match call {
                InitCall::TakeOld => 3int,
                InitCall::DisposeOld { .. } => 2,
                InitCall::Reset => 1,
                InitCall::Make { .. } => 0,
            },
            match call {
                InitCall::Make { lookup } => lookup.steps_left(*slot),
                _ => 0,
            },
    {
        if let Some(outcome) = call.outcome() {
            return (outcome, dropped);
        }
        if let Some(action) = call.action() {
            if let SlotAction::Dispose { ptr } = action {
                dropped = Some(ptr);
            }
            let reply = apply_to_slot(slot, action, fresh);
            call.advance(reply);
        }
    }
}

/// Where a thread stands in the removal of an object.
#[derive(Clone, Copy, Debug, PartialEq, Eq, Structural)]
pub enum DestroyCall {
    /// About to take the address.
    TakeOld,
    /// About to say that there is no object.
    Reset { ptr: usize },
    /// About to dispose of the object.
    DisposeOld { ptr: usize },
    /// The object is gone.
    Done,
    /// The storage cannot be a slot.
    Refused,
}

impl DestroyCall {
    /// A fresh removal.
    pub open spec fn spec_new(usable: bool) -> Self {
        if usable {
            DestroyCall::TakeOld
        } else {
            DestroyCall::Refused
        }
    }

    /// What the thread does next; `None` if there is nothing left to do.
    pub open spec fn spec_action(self) -> Option<SlotAction> {
        match self {
            DestroyCall::TakeOld => Some(SlotAction::TakePtr),
            DestroyCall::Reset { .. } => Some(SlotAction::StoreStatus { status: OBJ_UNINIT }),
            DestroyCall::DisposeOld { ptr } => Some(SlotAction::Dispose { ptr }),
            DestroyCall::Done | DestroyCall::Refused => None,
        }
    }

    /// Where the thread stands after `reply`.
    pub open spec fn spec_next(self, reply: SlotReply) -> Self {
        match self {
            DestroyCall::TakeOld => DestroyCall::Reset { ptr: reply.ptr },
            DestroyCall::Reset { ptr } => if ptr != 0 {
                DestroyCall::DisposeOld { ptr }
            } else {
                DestroyCall::Done
            },
            DestroyCall::DisposeOld { .. } => DestroyCall::Done,
            DestroyCall::Done | DestroyCall::Refused => self,
        }
    }

    /// What the caller is told once the removal is over; `None` before.
    pub open spec fn spec_outcome(self) -> Option<Result<(), Errno>> {
        match self {
            DestroyCall::Done => Some(Ok(())),
            DestroyCall::Refused => Some(Err(Errno::Invalid)),
            _ => None,
        }
    }

    /// A fresh removal.
    pub fn new(usable: bool) -> (call: Self)
        ensures
            call == Self::spec_new(usable),
    {
        if usable {
            DestroyCall::TakeOld
        } else {
            DestroyCall::Refused
        }
    }

    /// What the thread does next; `None` if there is nothing left to do.
    pub fn action(&self) -> (action: Option<SlotAction>)
        ensures
            action == self.spec_action(),
    {
        match *self {
            DestroyCall::TakeOld => Some(SlotAction::TakePtr),
            DestroyCall::Reset { .. } => Some(SlotAction::StoreStatus { status: OBJ_UNINIT }),
            DestroyCall::DisposeOld { ptr } => Some(SlotAction::Dispose { ptr }),
            DestroyCall::Done | DestroyCall::Refused => None,
        }
    }

    /// Moves the removal on with the reply to its action.
    pub fn advance(&mut self, reply: SlotReply)
        ensures
            *final(self) == old(self).spec_next(reply),
    {
        *self = match *self {
            DestroyCall::TakeOld => DestroyCall::Reset { ptr: reply.ptr },
            DestroyCall::Reset { ptr } => if ptr != 0 {
                DestroyCall::DisposeOld { ptr }
            } else {
                DestroyCall::Done
            },
            DestroyCall::DisposeOld { .. } => DestroyCall::Done,
            DestroyCall::Done => DestroyCall::Done,
            DestroyCall::Refused => DestroyCall::Refused,
        };
    }

    /// What the caller is told once the removal is over; `None` before.
    pub fn outcome(&self) -> (outcome: Option<Result<(), Errno>>)
        ensures
            outcome == self.spec_outcome(),
    {
        match *self {
            DestroyCall::Done => Some(Ok(())),
            DestroyCall::Refused => Some(Err(Errno::Invalid)),
            _ => None,
        }
    }
}

/// Removes the object of a slot while no other thread gets to run, and says
/// which object it has disposed of. A slot without an object is no error.
pub fn interpose_destroy(slot: &mut Slot, usable: bool) -> (result: (
    Result<(), Errno>,
    Option<usize>,
))
    ensures
        result.0 == if usable {
            Ok::<(), Errno>(())
        } else {
            Err::<(), Errno>(Errno::Invalid)
        },
        result.1 == disposed(*old(slot), usable),
        *final(slot) == cleared(*old(slot), usable, true),
{
    let mut dropped: Option<usize> = None;
    let mut call = DestroyCall::new(usable);
    loop
        invariant
            call == DestroyCall::Refused <==> !usable,
            match call {
                DestroyCall::TakeOld | DestroyCall::Refused => *slot == *old(slot) && dropped
                    is None,
                DestroyCall::Reset { ptr } => *slot == (Slot { ptr: 0, ..*old(slot) }) && dropped
                    is None && ptr == old(slot).ptr,
                DestroyCall::DisposeOld { ptr } => *slot == (Slot { status: OBJ_UNINIT, ptr: 0 })
                    && dropped is None && ptr == old(slot).ptr && ptr != 0,
                DestroyCall::Done => *slot == (Slot { status: OBJ_UNINIT, ptr: 0 }) && dropped
                    == disposed(*old(slot), true),
            },
        decreases
            match call {
                DestroyCall::TakeOld => 3int,
                DestroyCall::Reset { .. } => 2,
                DestroyCall::DisposeOld { .. } => 1,
                _ => 0,
            },
    {
        if let Some(outcome) = call.outcome() {
            return (outcome, dropped);
        }
        if let Some(action) = call.action() {
            if let SlotAction::Dispose { ptr } = action {
                dropped = Some(ptr);
            }
            let reply = apply_to_slot(slot, action, 1);
            call.advance(reply);
        }
    }
}

/// After a forced initialisation a search finds the object that was made,
/// whether it would make one itself or not, and changes nothing.
pub proof fn law_init_then_lookup(slot: Slot, made: usize, create: bool, fresh: usize)
    requires
        made != 0,
    ensures
        ({
            let ready = looked_up(cleared(slot, true, true), true, true, made);
            &&& lookup_outcome(ready, true, create, fresh) == Ok::<usize, Errno>(made)
            &&& looked_up(ready, true, create, fresh) == ready
        }),
{
}

/// A search that follows another one finds the same object.
pub proof fn law_lookup_is_stable(slot: Slot, made: usize, create: bool, fresh: usize)
    requires
        made != 0,
        slot.status != OBJ_INITING,
        lookup_outcome(slot, true, true, made) is Ok,
    ensures
        lookup_outcome(looked_up(slot, true, true, made), true, create, fresh) == lookup_outcome(
            slot,
            true,
            true,
            made,
        ),
{
}

/// After a removal there is nothing left to find or to dispose of, until a
/// search makes a new object.
pub proof fn law_destroy_then_lookup(slot: Slot, fresh: usize)
    ensures
        lookup_outcome(cleared(slot, true, true), true, false, fresh) == Err::<usize, Errno>(
            Errno::Invalid,
        ),
        lookup_outcome(cleared(slot, true, true), true, true, fresh) == Ok::<usize, Errno>(fresh),
        disposed(cleared(slot, true, true), true) is None,
{
}

/// A slot and all the threads that search for its object at the same time.
pub struct Searchers {
    pub slot: Slot,
    pub lookups: Seq<Lookup>,
    /// How many objects were made.
    pub created: int,
}

/// Whether the search makes the object.
pub open spec fn makes(lookup: Lookup) -> bool {
    match lookup.at {
        LookupAt::Create | LookupAt::StorePtr { .. } | LookupAt::Publish { .. } => true,
        _ => false,
    }
}

/// How many searches are making the object.
pub open spec fn makers(lookups: Seq<Lookup>) -> int {
    total(lookups, |l: Lookup| one_if(makes(l)))
}

/// How many searches have the right to make the object and have not done so.
pub open spec fn entitled(lookups: Seq<Lookup>) -> int {
    total(lookups, |l: Lookup| one_if(l.at == LookupAt::Create))
}

impl Searchers {
    /// A slot without an object, and searches that have not begun.
    pub open spec fn fresh(self) -> bool {
        &&& self.slot.status == OBJ_UNINIT
        &&& self.created == 0
        &&& forall|i: int|
            0 <= i < self.lookups.len() ==> (#[trigger] self.lookups[i]).at == LookupAt::ReadStatus
    }

    /// Whether search `i` can turn `self` into `next` by performing its next
    /// action and getting `reply`.
    pub open spec fn act(self, next: Searchers, i: int, reply: SlotReply) -> bool {
        let lookup = self.lookups[i];
        &&& 0 <= i < self.lookups.len()
        &&& lookup.spec_action() is Some
        &&& slot_effect(self.slot, lookup.spec_action()->Some_0, reply, next.slot)
        &&& next.lookups == self.lookups.update(i, lookup.spec_next(reply))
        &&& next.created == self.created + one_if(lookup.at == LookupAt::Create)
    }

    /// Whether some search can turn `self` into `next` in one step.
    pub open spec fn step(self, next: Searchers) -> bool {
        exists|i: int, reply: SlotReply| self.act(next, i, reply)
    }

    /// Whether a search stands where it can stand.
    pub open spec fn sound(self, lookup: Lookup) -> bool {
        match lookup.at {
            LookupAt::ReadStatus | LookupAt::Wait => true,
            LookupAt::Claim | LookupAt::Create => lookup.create,
            LookupAt::ReadPtr => self.slot.status == OBJ_READY,
            LookupAt::StorePtr { ptr } => ptr != 0,
            LookupAt::Publish { ptr } => ptr != 0 && self.slot.ptr == ptr,
            LookupAt::Found { ptr } => self.slot == (Slot { status: OBJ_READY, ptr }),
            LookupAt::Refused => !lookup.create,
            LookupAt::Reset => false,
        }
    }

    /// What holds before and after every step.
    pub open spec fn consistent(self) -> bool {
        &&& self.slot.status <= OBJ_READY
        &&& self.slot.status == OBJ_READY ==> self.slot.ptr != 0
        &&& makers(self.lookups) == one_if(self.slot.status == OBJ_INITING)
        &&& self.created + entitled(self.lookups) == one_if(self.slot.status != OBJ_UNINIT)
        &&& forall|i: int| 0 <= i < self.lookups.len() ==> self.sound(#[trigger] self.lookups[i])
    }
}

proof fn lemma_search_step(pre: Searchers, post: Searchers, i: int, reply: SlotReply)
    requires
        pre.consistent(),
        pre.act(post, i, reply),
    ensures
        post.consistent(),
{
    let makes_f = |l: Lookup| one_if(makes(l));
    let entitled_f = |l: Lookup| one_if(l.at == LookupAt::Create);
    let to = pre.lookups[i].spec_next(reply);
    lemma_total_update(pre.lookups, i, to, makes_f);
    lemma_total_update(pre.lookups, i, to, entitled_f);
    lemma_total_bounds(pre.lookups, makes_f);
    assert(makes_f(pre.lookups[i]) <= makers(pre.lookups));
    assert forall|j: int| 0 <= j < post.lookups.len() implies post.sound(
        #[trigger] post.lookups[j],
    ) by {
        assert(pre.sound(pre.lookups[i]));
        if j != i {
            assert(post.lookups[j] == pre.lookups[j]);
            assert(pre.sound(pre.lookups[j]));
            if makes(pre.lookups[i]) && makes(pre.lookups[j]) {
                if i < j {
                    lemma_total_pair(pre.lookups, i, j, makes_f);
                } else {
                    lemma_total_pair(pre.lookups, j, i, makes_f);
                }
            }
            if makes(pre.lookups[j]) {
                assert(makes_f(pre.lookups[j]) <= makers(pre.lookups));
            }
        }
    }
}

/// Whether `history` is what can happen, step by step, when threads search for
/// the object of a slot that has none.
pub open spec fn is_search(history: Seq<Searchers>) -> bool {
    &&& history.len() > 0
    &&& history[0].fresh()
    &&& forall|k: int|
        0 <= k < history.len() - 1 ==> (#[trigger] history[k]).step(history[k + 1])
}

proof fn lemma_search(history: Seq<Searchers>, k: int)
    requires
        is_search(history),
        0 <= k < history.len(),
    ensures
        history[k].consistent(),
    decreases k,
{
    if k == 0 {
        lemma_total_zero(history[0].lookups, |l: Lookup| one_if(makes(l)));
        lemma_total_zero(history[0].lookups, |l: Lookup| one_if(l.at == LookupAt::Create));
    } else {
        let pre = history[k - 1];
        lemma_search(history, k - 1);
        assert(pre.step(history[k - 1 + 1]));
        let (i, reply) = choose|i: int, reply: SlotReply| pre.act(history[k], i, reply);
        lemma_search_step(pre, history[k], i, reply);
    }
}

/// However many threads search at the same time, at most one object is made,
/// and all searches that find an object find the same one.
pub proof fn law_one_object(history: Seq<Searchers>, k: int, i: int, j: int)
    requires
        is_search(history),
        0 <= k < history.len(),
        0 <= i < history[k].lookups.len(),
        0 <= j < history[k].lookups.len(),
    ensures
        history[k].created <= 1,
        (history[k].lookups[i].spec_outcome() matches Some(Ok(p)) && history[k].lookups[j]
            .spec_outcome() matches Some(Ok(q))) ==> history[k].lookups[i].spec_outcome()
            == history[k].lookups[j].spec_outcome(),
{
    lemma_search(history, k);
    lemma_total_bounds(history[k].lookups, |l: Lookup| one_if(l.at == LookupAt::Create));
    assert(history[k].sound(history[k].lookups[i]));
    assert(history[k].sound(history[k].lookups[j]));
}

/// A search that may make the object is never refused, and one that finds an
/// object finds the one that the slot then holds.
pub proof fn law_search_succeeds(history: Seq<Searchers>, k: int, i: int)
    requires
        is_search(history),
        0 <= k < history.len(),
        0 <= i < history[k].lookups.len(),
    ensures
        history[k].lookups[i].create ==> !(history[k].lookups[i].spec_outcome() matches Some(
            Err(_),
        )),
        history[k].lookups[i].spec_outcome() matches Some(Ok(ptr)) ==> ptr != 0
            && history[k].slot == (Slot { status: OBJ_READY, ptr }),
{
    lemma_search(history, k);
    assert(history[k].sound(history[k].lookups[i]));
}

/// How a search goes, whatever the replies are. It looks at the status. If the
/// status is 2 it looks at the address, and has found it unless it is 0; in
/// that case it resets the status to 0 and begins anew. If the status is 0 it
/// claims the slot if it may make objects, and is refused if not. If the
/// status is 1 it spins and begins anew. Any other status is refused.
pub proof fn law_search_in_order(create: bool, status: SlotReply, ptr: SlotReply, any: SlotReply)
    ensures
        ({
            let fresh = Lookup::spec_new(true, create);
            let next = fresh.spec_next(status);
            &&& fresh.spec_action() == Some(SlotAction::LoadStatus)
            &&& fresh.spec_outcome() is None
            &&& status.status == 2 ==> {
                &&& next.spec_action() == Some(SlotAction::LoadPtr)
                &&& ptr.ptr != 0 ==> next.spec_next(ptr).spec_outcome() == Some(
                    Ok::<usize, Errno>(ptr.ptr),
                ) && next.spec_next(ptr).spec_action() is None
                &&& ptr.ptr == 0 ==> next.spec_next(ptr).spec_action() == Some(
                    SlotAction::StoreStatus { status: 0 },
                ) && next.spec_next(ptr).spec_next(any) == fresh
            }
            &&& status.status == 1 ==> next.spec_action() == Some(SlotAction::Spin)
                && next.spec_next(any) == fresh
            &&& status.status == 0 && create ==> next.spec_action() == Some(SlotAction::ClaimStatus)
            &&& (status.status == 0 && !create) || status.status > 2 ==> next.spec_outcome() == Some(
                Err::<usize, Errno>(Errno::Invalid),
            ) && next.spec_action() is None
        }),
        Lookup::spec_new(false, create).spec_outcome() == Some(Err::<usize, Errno>(Errno::Invalid)),
        Lookup::spec_new(false, create).spec_action() is None,
{
}

/// How an object is made, whatever the replies are. A search that has claimed
/// the slot makes an object, writes its address and only then says that it is
/// there; it has found the object that it made. A search that has not got the
/// claim begins anew.
pub proof fn law_maker_in_order(
    lookup: Lookup,
    claim: SlotReply,
    made: SlotReply,
    any: SlotReply,
)
    requires
        lookup.spec_action() == Some(SlotAction::ClaimStatus),
    ensures
        !claim.claimed ==> lookup.spec_next(claim) == (Lookup {
            at: LookupAt::ReadStatus,
            ..lookup
        }),
        claim.claimed ==> {
            let makes = lookup.spec_next(claim);
            let writes = makes.spec_next(made);
            let publishes = writes.spec_next(any);
            let found = publishes.spec_next(any);
            &&& makes.spec_action() == Some(SlotAction::Create)
            &&& writes.spec_action() == Some(SlotAction::StorePtr { ptr: made.ptr })
            &&& publishes.spec_action() == Some(SlotAction::StoreStatus { status: 2 })
            &&& found.spec_action() is None
            &&& found.spec_outcome() == Some(Ok::<usize, Errno>(made.ptr))
        },
{
}

/// How a slot is initialised, whatever the replies are. A forced
/// initialisation takes the old address out, disposes of the object if there
/// is one, and says that there is none; then, and at once if it is not forced,
/// it searches as one that may make objects, and is answered as the search is.
pub proof fn law_init_in_order(usable: bool, old_one: SlotReply, any: SlotReply, lookup: Lookup)
    ensures
        ({
            let forced = InitCall::spec_new(true, true);
            let taken = forced.spec_next(old_one);
            let resets = if old_one.ptr != 0 {
                taken.spec_next(any)
            } else {
                taken
            };
            &&& forced.spec_action() == Some(SlotAction::TakePtr)
            &&& old_one.ptr != 0 ==> taken.spec_action() == Some(
                SlotAction::Dispose { ptr: old_one.ptr },
            )
            &&& resets.spec_action() == Some(SlotAction::StoreStatus { status: 0 })
            &&& resets.spec_next(any) == (InitCall::Make { lookup: Lookup::spec_new(true, true) })
            &&& forced.spec_outcome() is None
            &&& taken.spec_outcome() is None
            &&& resets.spec_outcome() is None
        }),
        InitCall::spec_new(usable, false) == (InitCall::Make {
            lookup: Lookup::spec_new(usable, true),
        }),
        InitCall::spec_new(false, true) == (InitCall::Make {
            lookup: Lookup::spec_new(false, true),
        }),
        ({
            let making = InitCall::Make { lookup };
            &&& making.spec_action() == lookup.spec_action()
            &&& making.spec_next(any) == (InitCall::Make { lookup: lookup.spec_next(any) })
            &&& making.spec_outcome() is None <==> lookup.spec_outcome() is None
            &&& making.spec_outcome() == Some(Ok::<(), Errno>(())) <==> (lookup.spec_outcome()
                matches Some(Ok(_)))
            &&& lookup.spec_outcome() matches Some(Err(errno)) ==> making.spec_outcome() == Some(
                Err::<(), Errno>(errno),
            )
        }),
{
}

/// How an object is removed, whatever the replies are: the address is taken
/// out and the status reset before the object, if there is one, is disposed
/// of.
pub proof fn law_destroy_in_order(old_one: SlotReply, any: SlotReply)
    ensures
        ({
            let fresh = DestroyCall::spec_new(true);
            let resets = fresh.spec_next(old_one);
            let after = resets.spec_next(any);
            let end = if old_one.ptr != 0 {
                after.spec_next(any)
            } else {
                after
            };
            &&& fresh.spec_action() == Some(SlotAction::TakePtr)
            &&& resets.spec_action() == Some(SlotAction::StoreStatus { status: 0 })
            &&& old_one.ptr != 0 ==> after.spec_action() == Some(
                SlotAction::Dispose { ptr: old_one.ptr },
            )
            &&& end.spec_action() is None
            &&& end.spec_outcome() == Some(Ok::<(), Errno>(()))
            &&& fresh.spec_outcome() is None
            &&& resets.spec_outcome() is None
            &&& old_one.ptr != 0 ==> after.spec_outcome() is None
        }),
        DestroyCall::spec_new(false).spec_action() is None,
        DestroyCall::spec_new(false).spec_outcome() == Some(Err::<(), Errno>(Errno::Invalid)),
{
}

/// What operations that run alone come to. Storage that is not usable is
/// refused and stays as it is. A status of 2 with an address is an object, and
/// is found and kept; a status of 0, or of 2 without an address, is none, and
/// one is made if it is wanted; all else is refused. A slot that is cleared
/// has neither status nor address, and gives up the object that it held.
pub proof fn law_slots_alone(slot: Slot, usable: bool, create: bool, fresh: usize)
    ensures
        ({
            let object = slot.status == 2 && slot.ptr != 0;
            let none = slot.status == 0 || (slot.status == 2 && slot.ptr == 0);
            let after = looked_up(slot, usable, create, fresh);
            &&& lookup_outcome(slot, usable, create, fresh) == if usable && object {
                Ok::<usize, Errno>(slot.ptr)
            } else if usable && none && create {
                Ok::<usize, Errno>(fresh)
            } else {
                Err::<usize, Errno>(Errno::Invalid)
            }
            &&& !usable || !none ==> after == slot
            &&& usable && none && create ==> after.status == 2 && after.ptr == fresh
            &&& usable && none && !create ==> after.status == 0 && after.ptr == slot.ptr
            &&& cleared(slot, true, true).status == 0
            &&& cleared(slot, true, true).ptr == 0
            &&& !usable ==> cleared(slot, usable, create) == slot
            &&& cleared(slot, usable, false) == slot
            &&& disposed(slot, false) is None
            &&& slot.ptr == 0 ==> disposed(slot, true) is None
            &&& slot.ptr != 0 ==> disposed(slot, true) == Some(slot.ptr)
        }),
{
}

/// An action on a slot does what it says and no more.
pub proof fn law_slot_action_touches_its_word(
    pre: Slot,
    action: SlotAction,
    reply: SlotReply,
    post: Slot,
)
    requires
        slot_effect(pre, action, reply, post),
    ensures
        match action {
            SlotAction::LoadStatus => reply.status == pre.status && post == pre,
            SlotAction::StoreStatus { status } => post.status == status && post.ptr == pre.ptr,
            SlotAction::ClaimStatus => {
                &&& reply.claimed <==> pre.status == 0
                &&& post.ptr == pre.ptr
                &&& post.status == if reply.claimed {
                    1
                } else {
                    pre.status
                }
            },
            SlotAction::LoadPtr => reply.ptr == pre.ptr && post == pre,
            SlotAction::StorePtr { ptr } => post.ptr == ptr && post.status == pre.status,
            SlotAction::TakePtr => reply.ptr == pre.ptr && post.ptr == 0 && post.status
                == pre.status,
            SlotAction::Create => reply.ptr != 0 && post == pre,
            _ => post == pre,
        },
{
}

} // verus!

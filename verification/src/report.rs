//! Reports that a thread leaves for the scheduler, and how the scheduler
//! learns where to look for them.
//!
//! Every thread has one [`TaskYieldInfo`]. The scheduler reads it when the
//! thread gives up its CPU. The generation is odd while a report is being
//! written and even when it is complete.

use crate::words::YIELD_NONE;
use vstd::prelude::*;

verus! {

/// The report of a thread.
#[derive(Clone, Copy, Debug, PartialEq, Eq, Structural)]
pub struct TaskYieldInfo {
    /// Why the thread gives up its CPU.
    pub reason: u32,
    /// Odd while the report is being written.
    pub generation: u32,
    /// The queue of the lock in question.
    pub vip_dsq_id: u64,
}

/// One step of writing a report.
#[derive(Clone, Copy, Debug, PartialEq, Eq, Structural)]
pub enum InfoAction {
    SetGeneration { generation: u32 },
    /// Keep what comes before from being seen after what comes later.
    Fence,
    SetReason { reason: u32 },
    SetQueue { vip_dsq_id: u64 },
}

/// The generation while a report is written after one with this generation.
pub open spec fn writing(generation: u32) -> u32 {
    generation.wrapping_add(1) | 1
}

/// The generation when that report is complete.
pub open spec fn committed(generation: u32) -> u32 {
    writing(generation).wrapping_add(1)
}

/// The report after one step.
pub open spec fn info_after(info: TaskYieldInfo, action: InfoAction) -> TaskYieldInfo {
    match action {
        InfoAction::SetGeneration { generation } => TaskYieldInfo { generation, ..info },
        InfoAction::Fence => info,
        InfoAction::SetReason { reason } => TaskYieldInfo { reason, ..info },
        InfoAction::SetQueue { vip_dsq_id } => TaskYieldInfo { vip_dsq_id, ..info },
    }
}

/// The steps of writing a report after one with the given generation.
pub open spec fn report_steps(generation: u32, reason: u32, vip_dsq_id: u64) -> Seq<InfoAction> {
    seq![
        InfoAction::SetGeneration { generation: writing(generation) },
        InfoAction::Fence,
        InfoAction::SetReason { reason },
        InfoAction::SetQueue { vip_dsq_id },
        InfoAction::Fence,
        InfoAction::SetGeneration { generation: committed(generation) },
    ]
}

/// The steps of writing a report after one with the given generation.
pub fn report_actions(generation: u32, reason: u32, vip_dsq_id: u64) -> (actions: [InfoAction; 6])
    ensures
        actions@ == report_steps(generation, reason, vip_dsq_id),
{
    let write_gen: u32 = generation.wrapping_add(1) | 1;
    let actions = [
        InfoAction::SetGeneration { generation: write_gen },
        InfoAction::Fence,
        InfoAction::SetReason { reason },
        InfoAction::SetQueue { vip_dsq_id },
        InfoAction::Fence,
        InfoAction::SetGeneration { generation: write_gen.wrapping_add(1) },
    ];
    assert(actions@ =~= report_steps(generation, reason, vip_dsq_id));
    actions
}

fn apply_to_info(info: &mut TaskYieldInfo, action: InfoAction)
    ensures
        *final(info) == info_after(*old(info), action),
{
    match action {
        InfoAction::SetGeneration { generation } => {
            info.generation = generation;
        },
        InfoAction::Fence => {},
        InfoAction::SetReason { reason } => {
            info.reason = reason;
        },
        InfoAction::SetQueue { vip_dsq_id } => {
            info.vip_dsq_id = vip_dsq_id;
        },
    }
}

/// Writes a report. Its generation is even, and other than that of the report
/// before it.
pub fn set_yield_info(info: &mut TaskYieldInfo, reason: u32, vip_dsq_id: u64)
    ensures
        *final(info) == (TaskYieldInfo {
            reason,
            generation: committed(old(info).generation),
            vip_dsq_id,
        }),
        final(info).generation % 2 == 0,
        final(info).generation != old(info).generation,
        old(info).generation % 2 == 0 ==> final(info).generation == old(
            info,
        ).generation.wrapping_add(2),
{
    let ghost before = *info;
    proof {
        lemma_generations(info.generation);
    }
    let actions = report_actions(info.generation, reason, vip_dsq_id);
    apply_to_info(info, actions[0]);
    apply_to_info(info, actions[1]);
    apply_to_info(info, actions[2]);
    apply_to_info(info, actions[3]);
    apply_to_info(info, actions[4]);
    apply_to_info(info, actions[5]);
}

proof fn lemma_generations(generation: u32)
    ensures
        writing(generation) % 2 == 1,
        committed(generation) % 2 == 0,
        committed(generation) != generation,
        generation % 2 == 0 ==> writing(generation) == generation.wrapping_add(1),
        generation % 2 == 0 ==> committed(generation) == generation.wrapping_add(2),
{
    let up: u32 = generation.wrapping_add(1);
    let odd: u32 = up | 1;
    assert(odd % 2 == 1) by (bit_vector)
        requires
            odd == up | 1,
    ;
    assert(up % 2 == 1 ==> odd == up) by (bit_vector)
        requires
            odd == up | 1,
    ;
    assert(up % 2 == 0 ==> odd == up + 1) by (bit_vector)
        requires
            odd == up | 1,
    ;
}

/// A thread that writes one report after another, step by step.
pub struct Writer {
    pub info: TaskYieldInfo,
    /// The generation before the last report that was begun.
    pub base: u32,
    /// What that report says.
    pub reason: u32,
    pub vip_dsq_id: u64,
    /// How many of its steps are done.
    pub done: int,
}

impl Writer {
    /// A thread that is not writing a report.
    pub open spec fn idle(self) -> bool {
        self.done == 6
    }

    /// A thread that has written no report or only complete ones.
    pub open spec fn fresh(self) -> bool {
        self.idle() && self.info.generation % 2 == 0
    }

    /// Whether the thread can turn `self` into `next` in one step: it begins
    /// a report, or takes the next step of the one that it has begun.
    pub open spec fn step(self, next: Writer) -> bool {
        if self.idle() {
            next.info == self.info && next.base == self.info.generation && next.done == 0
        } else {
            let action = report_steps(self.base, self.reason, self.vip_dsq_id)[self.done];
            next == Writer {
                info: info_after(self.info, action),
                done: self.done + 1,
                ..self
            }
        }
    }

    /// Whether the next step changes the generation.
    pub open spec fn turns(self) -> bool {
        self.done == 0 || self.done == 5
    }

    /// What holds before and after every step.
    pub open spec fn consistent(self) -> bool {
        &&& 0 <= self.done <= 6
        &&& if self.done == 0 {
            self.info.generation == self.base && self.base % 2 == 0
        } else if self.done < 6 {
            self.info.generation == writing(self.base) && self.base % 2 == 0
        } else {
            self.info.generation % 2 == 0
        }
    }
}

/// Whether `history` is what a thread does to its report, step by step.
pub open spec fn is_writing(history: Seq<Writer>) -> bool {
    &&& history.len() > 0
    &&& history[0].fresh()
    &&& forall|k: int|
        0 <= k < history.len() - 1 ==> (#[trigger] history[k]).step(history[k + 1])
}

/// How many times the generation has changed between two points of a history.
spec fn turns_between(history: Seq<Writer>, from: int, to: int) -> int
    decreases to - from,
{
    if to <= from {
        0
    } else {
        turns_between(history, from, to - 1) + if history[to - 1].turns() {
            1int
        } else {
            0
        }
    }
}

proof fn lemma_writing(history: Seq<Writer>, k: int)
    requires
        is_writing(history),
        0 <= k < history.len(),
    ensures
        history[k].consistent(),
    decreases k,
{
    if k > 0 {
        lemma_writing(history, k - 1);
        assert(history[k - 1].step(history[k - 1 + 1]));
        lemma_generations(history[k - 1].base);
    }
}

/// The generation grows by one with each change, wrapping around.
proof fn lemma_turns(history: Seq<Writer>, from: int, to: int)
    requires
        is_writing(history),
        0 <= from <= to < history.len(),
    ensures
        0 <= turns_between(history, from, to) <= to - from,
        history[to].info.generation == (history[from].info.generation + turns_between(
            history,
            from,
            to,
        )) % 0x1_0000_0000,
    decreases to - from,
{
    if from < to {
        lemma_turns(history, from, to - 1);
        lemma_writing(history, to - 1);
        lemma_turn(history[to - 1], history[to - 1 + 1]);
        lemma_wrap(
            history[from].info.generation + turns_between(history, from, to - 1),
            history[to - 1].info.generation,
        );
    }
}

/// What one step does to the generation.
proof fn lemma_turn(pre: Writer, post: Writer)
    requires
        pre.consistent(),
        pre.step(post),
    ensures
        post.info.generation == if pre.turns() {
            pre.info.generation.wrapping_add(1)
        } else {
            pre.info.generation
        },
{
    lemma_generations(pre.base);
}

proof fn lemma_wrap(n: int, wrapped: u32)
    requires
        wrapped == n % 0x1_0000_0000,
    ensures
        wrapped.wrapping_add(1) == (n + 1) % 0x1_0000_0000,
{
}

/// While the generation stays even and unchanged, so does the report.
proof fn lemma_quiet(history: Seq<Writer>, from: int, to: int)
    requires
        is_writing(history),
        0 <= from <= to < history.len(),
        history[from].info.generation % 2 == 0,
        turns_between(history, from, to) == 0,
    ensures
        history[to].info == history[from].info,
        history[to].done == 0 || history[to].done == 6,
    decreases to - from,
{
    lemma_writing(history, from);
    lemma_generations(history[from].base);
    if from < to {
        lemma_turns(history, from, to - 1);
        lemma_quiet(history, from, to - 1);
        assert(history[to - 1].step(history[to - 1 + 1]));
    }
}

/// The generation is odd while a report is being written and even when none
/// is.
pub proof fn law_generation_tells(history: Seq<Writer>, k: int)
    requires
        is_writing(history),
        0 <= k < history.len(),
    ensures
        history[k].info.generation % 2 == 1 <==> 1 <= history[k].done <= 5,
{
    lemma_writing(history, k);
    lemma_generations(history[k].base);
}

/// A reader is never misled. It reads the generation, the reason, the queue
/// and the generation once more, in this order and at any times. If both
/// generations are the same and even, then reason and queue belong together:
/// they are those of the report that was complete at the first reading. This
/// holds as long as the thread takes fewer than 2^32 steps in between.
pub proof fn law_reports_are_not_torn(
    history: Seq<Writer>,
    first: int,
    reason_at: int,
    queue_at: int,
    last: int,
)
    requires
        is_writing(history),
        0 <= first <= reason_at <= queue_at <= last < history.len(),
        last - first < 0x1_0000_0000,
        history[first].info.generation == history[last].info.generation,
        history[first].info.generation % 2 == 0,
    ensures
        history[reason_at].info.reason == history[first].info.reason,
        history[queue_at].info.vip_dsq_id == history[first].info.vip_dsq_id,
        history[first].done == 0 || history[first].idle(),
{
    lemma_turns(history, first, last);
    lemma_turns_split(history, first, reason_at, last);
    lemma_turns_split(history, first, queue_at, last);
    lemma_turns(history, first, reason_at);
    lemma_turns(history, first, queue_at);
    lemma_turns(history, reason_at, last);
    lemma_turns(history, queue_at, last);
    lemma_quiet(history, first, first);
    lemma_quiet(history, first, reason_at);
    lemma_quiet(history, first, queue_at);
}

proof fn lemma_turns_split(history: Seq<Writer>, from: int, middle: int, to: int)
    requires
        from <= middle <= to,
    ensures
        turns_between(history, from, to) == turns_between(history, from, middle) + turns_between(
            history,
            middle,
            to,
        ),
    decreases to - middle,
{
    if middle < to {
        lemma_turns_split(history, from, middle, to - 1);
    }
}

/// What a thread knows about its own registration with the scheduler.
#[derive(Clone, Copy, Debug, PartialEq, Eq, Structural)]
pub struct Registration {
    /// Whether the scheduler knows where the report is.
    pub registered: bool,
    /// The thread that was registered last.
    pub tid: u32,
    /// Whether the registration will be withdrawn when the thread ends.
    pub cleanup_armed: bool,
}

/// What the scheduler is told about a thread.
#[derive(Clone, Copy, Debug, PartialEq, Eq, Structural)]
pub struct YieldAddrEntry {
    /// Where the report is.
    pub user_ptr: u64,
    pub last_gen: u32,
    pub bpf_reason: u8,
    pub vip_dsq_id: u64,
}

/// A request to change an element of a map of the scheduler.
#[derive(Clone, Copy, Debug, PartialEq, Eq, Structural)]
pub struct MapElemAttr {
    pub map_fd: u32,
    /// The address of the key.
    pub key: u64,
    /// The address of the new value, 0 if the element is to be removed.
    pub value: u64,
    pub flags: u64,
}

impl Registration {
    /// What a new thread knows.
    pub fn new() -> (registration: Self)
        ensures
            registration == (Registration { registered: false, tid: 0, cleanup_armed: false }),
    {
        Registration { registered: false, tid: 0, cleanup_armed: false }
    }

    /// Whether `tid` is registered.
    pub open spec fn covers(self, tid: u32) -> bool {
        self.registered && self.tid == tid
    }
}

/// Whether the scheduler knows of this thread, as far as the thread has been
/// told.
pub fn is_registered_fast(registration: &Registration, map_fd: i32) -> (registered: bool)
    ensures
        registered == registration.registered,
{
    if registration.registered {
        return true;
    }
    map_fd >= 0 && registration.registered
}

/// What is to be registered for the thread `tid`, if anything: nothing if
/// there is no map to register in, or if the thread is registered already.
pub fn registration_request(
    registration: &Registration,
    map_fd: i32,
    tid: u32,
    user_ptr: u64,
) -> (entry: Option<YieldAddrEntry>)
    ensures
        entry == if map_fd >= 0 && !registration.covers(tid) {
            Some(YieldAddrEntry { user_ptr, last_gen: 0, bpf_reason: 0, vip_dsq_id: 0 })
        } else {
            None
        },
{
    if map_fd < 0 {
        return None;
    }
    if registration.registered && registration.tid == tid {
        return None;
    }
    Some(YieldAddrEntry { user_ptr, last_gen: 0, bpf_reason: YIELD_NONE as u8, vip_dsq_id: 0 })
}

/// Takes note of how the registration of `tid` went, and says whether it is to
/// be withdrawn when the thread ends.
pub fn note_registration(registration: &mut Registration, tid: u32, rc: i32) -> (arm: bool)
    ensures
        arm == (rc == 0),
        *final(registration) == if rc == 0 {
            Registration { registered: true, tid, ..*old(registration) }
        } else {
            Registration { registered: false, ..*old(registration) }
        },
{
    if rc == 0 {
        registration.registered = true;
        registration.tid = tid;
        true
    } else {
        registration.registered = false;
        false
    }
}

/// Whether the thread still has to see to it that its registration is
/// withdrawn when it ends.
pub fn cleanup_wanted(registration: &Registration) -> (wanted: bool)
    ensures
        wanted == !registration.cleanup_armed,
{
    !registration.cleanup_armed
}

/// Takes note of how that went: there may be no key to attach the withdrawal
/// to, or attaching it to the key may fail.
pub fn arm_thread_cleanup(registration: &mut Registration, key: Option<u32>, rc: i32)
    ensures
        *final(registration) == (Registration {
            cleanup_armed: old(registration).cleanup_armed || (key is Some && rc == 0),
            ..*old(registration)
        }),
{
    if registration.cleanup_armed {
        return;
    }
    if key.is_some() && rc == 0 {
        registration.cleanup_armed = true;
    }
}

/// The request that writes an element.
pub fn map_update_attr(map_fd: i32, key: u64, value: u64) -> (attr: MapElemAttr)
    ensures
        attr == (MapElemAttr { map_fd: map_fd as u32, key, value, flags: 0 }),
{
    MapElemAttr { map_fd: map_fd as u32, key, value, flags: 0 }
}

/// The request that removes an element.
pub fn map_delete_attr(map_fd: i32, key: u64) -> (attr: MapElemAttr)
    ensures
        attr == (MapElemAttr { map_fd: map_fd as u32, key, value: 0, flags: 0 }),
{
    MapElemAttr { map_fd: map_fd as u32, key, value: 0, flags: 0 }
}

/// The request that withdraws the registration whose key is at `key`; `None`
/// if there is no map that it could be in.
pub fn cleanup_request(map_fd: i32, key: u64) -> (attr: Option<MapElemAttr>)
    ensures
        attr == if map_fd >= 0 {
            Some(MapElemAttr { map_fd: map_fd as u32, key, value: 0, flags: 0 })
        } else {
            None
        },
{
    if map_fd < 0 {
        return None;
    }
    Some(map_delete_attr(map_fd, key))
}

/// Where a thread stands in the search for the key that withdrawals are
/// attached to. All threads share one key.
#[derive(Clone, Copy, Debug, PartialEq, Eq, Structural)]
pub enum KeySearch {
    /// About to look whether there is a key.
    Look,
    /// There was none; about to make one.
    Create,
    /// About to make the new key the shared one.
    Share { key: u32 },
    /// Another thread was faster; about to give the new key back.
    Delete { key: u32 },
    /// About to look which key is the shared one.
    LookAgain,
    /// Is done.
    Done { found: Option<u32> },
}

/// What a thread does next in that search.
#[derive(Clone, Copy, Debug, PartialEq, Eq, Structural)]
pub enum KeyAction {
    /// Read the shared key.
    Load,
    /// Make a new key.
    Create,
    /// Make `key` the shared key, unless there is one.
    Share { key: u32 },
    /// Give `key` back.
    Delete { key: u32 },
}

/// What a thread learns from an action.
#[derive(Clone, Copy, Debug, PartialEq, Eq, Structural)]
pub struct KeyReply {
    /// The shared key that was read.
    pub shared: Option<u32>,
    /// 0 if a key was made.
    pub rc: i32,
    /// The key that was made.
    pub made: u32,
    /// Whether the new key is now the shared one.
    pub accepted: bool,
}

impl KeySearch {
    /// What the thread does next; `None` if there is nothing left to do.
    pub open spec fn spec_action(self) -> Option<KeyAction> {
        match self {
            KeySearch::Look | KeySearch::LookAgain => Some(KeyAction::Load),
            KeySearch::Create => Some(KeyAction::Create),
            KeySearch::Share { key } => Some(KeyAction::Share { key }),
            KeySearch::Delete { key } => Some(KeyAction::Delete { key }),
            KeySearch::Done { .. } => None,
        }
    }

    /// Where the thread stands after `reply`.
    pub open spec fn spec_next(self, reply: KeyReply) -> Self {
        match self {
            KeySearch::Look => if reply.shared is Some {
                KeySearch::Done { found: reply.shared }
            } else {
                KeySearch::Create
            },
            KeySearch::Create => if reply.rc != 0 {
                KeySearch::Done { found: None }
            } else {
                KeySearch::Share { key: reply.made }
            },
            KeySearch::Share { key } => if reply.accepted {
                KeySearch::LookAgain
            } else {
                KeySearch::Delete { key }
            },
            KeySearch::Delete { .. } => KeySearch::LookAgain,
            KeySearch::LookAgain => KeySearch::Done { found: reply.shared },
            KeySearch::Done { .. } => self,
        }
    }

    /// What the thread does next; `None` if there is nothing left to do.
    pub fn action(&self) -> (action: Option<KeyAction>)
        ensures
            action == self.spec_action(),
    {
        match *self {
            KeySearch::Look | KeySearch::LookAgain => Some(KeyAction::Load),
            KeySearch::Create => Some(KeyAction::Create),
            KeySearch::Share { key } => Some(KeyAction::Share { key }),
            KeySearch::Delete { key } => Some(KeyAction::Delete { key }),
            KeySearch::Done { .. } => None,
        }
    }

    /// Where the thread stands after `reply`.
    pub fn next(self, reply: KeyReply) -> (next: Self)
        ensures
            next == self.spec_next(reply),
    {
        match self {
            KeySearch::Look => if reply.shared.is_some() {
                KeySearch::Done { found: reply.shared }
            } else {
                KeySearch::Create
            },
            KeySearch::Create => if reply.rc != 0 {
                KeySearch::Done { found: None }
            } else {
                KeySearch::Share { key: reply.made }
            },
            KeySearch::Share { key } => if reply.accepted {
                KeySearch::LookAgain
            } else {
                KeySearch::Delete { key }
            },
            KeySearch::Delete { .. } => KeySearch::LookAgain,
            KeySearch::LookAgain => KeySearch::Done { found: reply.shared },
            KeySearch::Done { .. } => self,
        }
    }

    /// The key that was found, once the search is over; `None` before, and if
    /// none could be made.
    pub fn found(&self) -> (key: Option<u32>)
        ensures
            key == match *self {
                KeySearch::Done { found } => found,
                _ => None,
            },
    {
        match *self {
            KeySearch::Done { found } => found,
            _ => None,
        }
    }
}

/// Finds the shared key while no other thread gets to run. `rc` and `made` say
/// how making a new key goes.
pub fn get_cleanup_key(shared: &mut Option<u32>, rc: i32, made: u32) -> (key: Option<u32>)
    ensures
        key == if *old(shared) is Some {
            *old(shared)
        } else if rc != 0 {
            None
        } else {
            Some(made)
        },
        *final(shared) == if *old(shared) is None && rc == 0 {
            Some(made)
        } else {
            *old(shared)
        },
{
    let mut step = KeySearch::Look;
    loop
        invariant
            match step {
                KeySearch::Look => *shared == *old(shared),
                KeySearch::Create => *shared == *old(shared) && *old(shared) is None,
                KeySearch::Share { key } => *shared == *old(shared) && *old(shared) is None && key
                    == made && rc == 0,
                KeySearch::LookAgain => *old(shared) is None && rc == 0 && *shared == Some(made),
                KeySearch::Delete { .. } => false,
                KeySearch::Done { found } => {
                    &&& found == if *old(shared) is Some {
                        *old(shared)
                    } else if rc != 0 {
                        None
                    } else {
                        Some(made)
                    }
                    &&& *shared == if *old(shared) is None && rc == 0 {
                        Some(made)
                    } else {
                        *old(shared)
                    }
                },
            },
        decreases
            match step {
                KeySearch::Look => 4int,
                KeySearch::Create => 3,
                KeySearch::Share { .. } => 2,
                KeySearch::LookAgain => 1,
                _ => 0,
            },
    {
        match step.action() {
            Some(action) => {
                let mut reply = KeyReply { shared: *shared, rc, made, accepted: false };
                if let KeyAction::Share { key } = action {
                    if shared.is_none() {
                        *shared = Some(key);
                        reply.accepted = true;
                    }
                }
                step = step.next(reply);
            },
            None => {
                return step.found();
            },
        }
    }
}

/// A key that a thread has made is never forgotten: the thread shares it, or
/// gives it back as its next action.
pub proof fn law_key_not_leaked(step: KeySearch, reply: KeyReply, answer: KeyReply)
    requires
        step == KeySearch::Create,
        reply.rc == 0,
    ensures
        step.spec_next(reply).spec_action() == Some(KeyAction::Share { key: reply.made }),
        !answer.accepted ==> step.spec_next(reply).spec_next(answer).spec_action() == Some(
            KeyAction::Delete { key: reply.made },
        ),
{
}

/// The key that a search ends with is one that it has read as the shared one.
pub proof fn law_key_is_shared(step: KeySearch, reply: KeyReply)
    requires
        !(step is Done),
    ensures
        step.spec_next(reply) matches KeySearch::Done { found } ==> found is None || (
        step.spec_action() == Some(KeyAction::Load) && found == reply.shared),
{
}

/// A thread registers once. After it was registered nothing more is to be
/// done for it; a thread with another id, such as that of a forked process,
/// has to be registered anew, and so has one whose registration has failed.
pub proof fn law_registered_once(registration: Registration, tid: u32, other: u32)
    ensures
        (Registration { registered: true, tid, ..registration }).covers(tid),
        other != tid ==> !(Registration { registered: true, tid, ..registration }).covers(other),
        !(Registration { registered: false, ..registration }).covers(tid),
{
}

/// How a report is written: the generation turns odd first and even last; the
/// reason and the queue are written in between, and a fence keeps them apart
/// from either. The next even generation is the next report's: two on from an
/// even one, three from an odd one.
pub proof fn law_report_in_order(generation: u32, reason: u32, vip_dsq_id: u64)
    ensures
        ({
            let steps = report_steps(generation, reason, vip_dsq_id);
            let begun = if generation % 2 == 0 {
                generation.wrapping_add(1)
            } else {
                generation.wrapping_add(2)
            };
            &&& steps.len() == 6
            &&& steps[0] == (InfoAction::SetGeneration { generation: begun })
            &&& steps[1] == InfoAction::Fence
            &&& steps[2] == (InfoAction::SetReason { reason })
            &&& steps[3] == (InfoAction::SetQueue { vip_dsq_id })
            &&& steps[4] == InfoAction::Fence
            &&& steps[5] == (InfoAction::SetGeneration { generation: begun.wrapping_add(1) })
            &&& begun % 2 == 1
            &&& committed(generation) == begun.wrapping_add(1)
        }),
{
    lemma_generations(generation);
    let up: u32 = generation.wrapping_add(1);
    let odd: u32 = up | 1;
    assert(up % 2 == 0 ==> odd == up + 1) by (bit_vector)
        requires
            odd == up | 1,
    ;
}

/// A step of a report changes what it names and nothing else.
pub proof fn law_report_step_changes_one_field(info: TaskYieldInfo, action: InfoAction)
    ensures
        ({
            let after = info_after(info, action);
            match action {
                InfoAction::SetGeneration { generation } => after.generation == generation
                    && after.reason == info.reason && after.vip_dsq_id == info.vip_dsq_id,
                InfoAction::Fence => after == info,
                InfoAction::SetReason { reason } => after.reason == reason && after.generation
                    == info.generation && after.vip_dsq_id == info.vip_dsq_id,
                InfoAction::SetQueue { vip_dsq_id } => after.vip_dsq_id == vip_dsq_id
                    && after.generation == info.generation && after.reason == info.reason,
            }
        }),
{
}

/// How a search for the shared key goes, whatever the replies are. A key that
/// is there is the result. If there is none, the thread makes one, gives up if
/// it cannot, and offers it to be the shared one; if another thread was
/// faster it gives its own back. Then it looks again, and what it finds is
/// the result.
pub proof fn law_key_search_in_order(
    looked: KeyReply,
    made: KeyReply,
    offered: KeyReply,
    any: KeyReply,
    again: KeyReply,
)
    ensures
        ({
            let first = KeySearch::Look.spec_next(looked);
            &&& KeySearch::Look.spec_action() == Some(KeyAction::Load)
            &&& looked.shared is Some ==> first == (KeySearch::Done { found: looked.shared })
            &&& looked.shared is None ==> first.spec_action() == Some(KeyAction::Create) && {
                let second = first.spec_next(made);
                &&& made.rc != 0 ==> second == (KeySearch::Done { found: None })
                &&& made.rc == 0 ==> second.spec_action() == Some(
                    KeyAction::Share { key: made.made },
                ) && {
                    let third = second.spec_next(offered);
                    let last = if offered.accepted {
                        third
                    } else {
                        third.spec_next(any)
                    };
                    &&& !offered.accepted ==> third.spec_action() == Some(
                        KeyAction::Delete { key: made.made },
                    )
                    &&& last.spec_action() == Some(KeyAction::Load)
                    &&& last.spec_next(again) == (KeySearch::Done { found: again.shared })
                }
            }
        }),
        (KeySearch::Done { found: looked.shared }).spec_action() is None,
        (KeySearch::Done { found: looked.shared }).spec_next(any) == (KeySearch::Done {
            found: looked.shared,
        }),
{
}

} // verus!

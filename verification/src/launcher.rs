//! Starting a command inside a control group, stopped until the scheduler
//! runs.

use crate::text::{push_signed, signed_decimal};
use vstd::prelude::*;
use vstd::string::StringExecFns;

verus! {

/// `libc::WIFSTOPPED`: whether a wait status says that the process is
/// stopped. It does if its low byte is 0x7f.
pub assume_specification[ libc::WIFSTOPPED ](status: libc::c_int) -> (stopped: bool)
    ensures
        stopped == is_stopped(status),
;

/// `libc::WIFEXITED`: whether a wait status says that the process has exited.
/// It does if its low seven bits are 0.
pub assume_specification[ libc::WIFEXITED ](status: libc::c_int) -> (exited: bool)
    ensures
        exited == is_exited(status),
;

/// `libc::WEXITSTATUS`: the exit code in a wait status, its second byte.
pub assume_specification[ libc::WEXITSTATUS ](status: libc::c_int) -> (code: libc::c_int)
    ensures
        code == exit_code(status),
;

/// `libc::WIFSIGNALED`: whether a wait status says that a signal has ended
/// the process. It does if its low seven bits are neither 0 nor 0x7f.
pub assume_specification[ libc::WIFSIGNALED ](status: libc::c_int) -> (signaled: bool)
    ensures
        signaled == is_signaled(status),
;

/// `libc::WTERMSIG`: the signal in a wait status, its low seven bits.
pub assume_specification[ libc::WTERMSIG ](status: libc::c_int) -> (signal: libc::c_int)
    ensures
        signal == term_signal(status),
;

/// Whether a wait status says that the process is stopped.
pub open spec fn is_stopped(status: i32) -> bool {
    status & 0xff == 0x7f
}

/// Whether a wait status says that the process has exited.
pub open spec fn is_exited(status: i32) -> bool {
    status & 0x7f == 0
}

/// The exit code in a wait status.
pub open spec fn exit_code(status: i32) -> i32 {
    (status >> 8) & 0xff
}

/// Whether a wait status says that a signal has ended the process.
pub open spec fn is_signaled(status: i32) -> bool {
    status & 0x7f != 0 && status & 0x7f != 0x7f
}

/// The signal in a wait status.
pub open spec fn term_signal(status: i32) -> i32 {
    status & 0x7f
}

/// What to do after one wait for a child to stop.
#[derive(Clone, Copy, Debug, PartialEq, Eq, Structural)]
pub enum StopVerdict {
    /// Wait again.
    Again,
    /// The wait itself has failed.
    WaitFailed,
    /// The child is stopped.
    Stopped,
    /// The child has exited with this code.
    Exited { code: i32 },
    /// This signal has ended the child.
    Signaled { signal: i32 },
}

/// Decides after a wait for a child to stop. `ret` is what the wait has
/// returned, `interrupted` whether it failed because of a signal to the
/// waiting process, and `status` the wait status if it has not failed.
pub fn wait_for_child_stop(ret: i32, interrupted: bool, status: i32) -> (verdict: StopVerdict)
    ensures
        verdict == if ret < 0 {
            if interrupted {
                StopVerdict::Again
            } else {
                StopVerdict::WaitFailed
            }
        } else if is_stopped(status) {
            StopVerdict::Stopped
        } else if is_exited(status) {
            StopVerdict::Exited { code: exit_code(status) }
        } else if is_signaled(status) {
            StopVerdict::Signaled { signal: term_signal(status) }
        } else {
            StopVerdict::Again
        },
{
    if ret < 0 {
        if interrupted {
            return StopVerdict::Again;
        }
        return StopVerdict::WaitFailed;
    }
    if libc::WIFSTOPPED(status) {
        return StopVerdict::Stopped;
    }
    if libc::WIFEXITED(status) {
        return StopVerdict::Exited { code: libc::WEXITSTATUS(status) };
    }
    if libc::WIFSIGNALED(status) {
        return StopVerdict::Signaled { signal: libc::WTERMSIG(status) };
    }
    StopVerdict::Again
}

/// The text of [`stop_message`].
pub open spec fn stop_text(pid: i32, verdict: StopVerdict) -> Option<Seq<char>> {
    match verdict {
        StopVerdict::WaitFailed => Some(
            "waitpid failed while waiting for "@ + signed_decimal(pid as int) + " to stop"@,
        ),
        StopVerdict::Exited { code } => Some(
            "child "@ + signed_decimal(pid as int) + " exited with status "@ + signed_decimal(
                code as int,
            ) + " before SIGCONT"@,
        ),
        StopVerdict::Signaled { signal } => Some(
            "child "@ + signed_decimal(pid as int) + " terminated by signal "@ + signed_decimal(
                signal as int,
            ) + " before SIGCONT"@,
        ),
        StopVerdict::Again | StopVerdict::Stopped => None,
    }
}

/// Says why the child `pid` could not be stopped; `None` if it is stopped or
/// may yet be.
pub fn stop_message(pid: i32, verdict: StopVerdict) -> (message: Option<String>)
    ensures
        match verdict {
            StopVerdict::WaitFailed => message is Some && message->Some_0@
                == "waitpid failed while waiting for "@ + signed_decimal(pid as int)
                + " to stop"@,
            StopVerdict::Exited { code } => message is Some && message->Some_0@ == "child "@
                + signed_decimal(pid as int) + " exited with status "@ + signed_decimal(code as int)
                + " before SIGCONT"@,
            StopVerdict::Signaled { signal } => message is Some && message->Some_0@ == "child "@
                + signed_decimal(pid as int) + " terminated by signal "@ + signed_decimal(
                signal as int,
            ) + " before SIGCONT"@,
            StopVerdict::Again | StopVerdict::Stopped => message is None,
        },
        message is Some == stop_text(pid, verdict) is Some,
        message is Some ==> message->Some_0@ == stop_text(pid, verdict)->Some_0,
{
    let mut text = String::new();
    match verdict {
        StopVerdict::WaitFailed => {
            text.append("waitpid failed while waiting for ");
            push_signed(&mut text, pid);
            text.append(" to stop");
        },
        StopVerdict::Exited { code } => {
            text.append("child ");
            push_signed(&mut text, pid);
            text.append(" exited with status ");
            push_signed(&mut text, code);
            text.append(" before SIGCONT");
        },
        StopVerdict::Signaled { signal } => {
            text.append("child ");
            push_signed(&mut text, pid);
            text.append(" terminated by signal ");
            push_signed(&mut text, signal);
            text.append(" before SIGCONT");
        },
        StopVerdict::Again | StopVerdict::Stopped => {
            return None;
        },
    }
    assert(text@ =~= stop_text(pid, verdict)->Some_0);
    Some(text)
}

/// A wait status says at most one of three things: that the process is
/// stopped, that it has exited, or that a signal has ended it.
pub proof fn law_status_is_unambiguous(status: i32)
    ensures
        !(is_stopped(status) && is_exited(status)),
        !(is_stopped(status) && is_signaled(status)),
        !(is_exited(status) && is_signaled(status)),
        0 <= exit_code(status) <= 255,
        is_signaled(status) ==> 1 <= term_signal(status) <= 126,
{
    assert(status & 0xff == 0x7f ==> status & 0x7f == 0x7f) by (bit_vector);
    assert(0 <= (status >> 8) & 0xff <= 255) by (bit_vector);
    assert(0 <= status & 0x7f <= 127) by (bit_vector);
}

/// Whether to wait for a child that was let go once more: only if the wait
/// was cut short by a signal.
pub fn reap_again(ret: i32, interrupted: bool) -> (again: bool)
    ensures
        again == (ret < 0 && interrupted),
{
    ret < 0 && interrupted
}

/// The sides of a fork.
#[derive(Clone, Copy, Debug, PartialEq, Eq, Structural)]
pub enum ForkSide {
    /// There is no child.
    Failed,
    /// This is the child.
    Child,
    /// This is the parent.
    Parent,
}

/// Tells the sides of a fork apart by what it has returned.
pub fn fork_side(pid: i32) -> (side: ForkSide)
    ensures
        side == if pid < 0 {
            ForkSide::Failed
        } else if pid == 0 {
            ForkSide::Child
        } else {
            ForkSide::Parent
        },
{
    if pid < 0 {
        ForkSide::Failed
    } else if pid == 0 {
        ForkSide::Child
    } else {
        ForkSide::Parent
    }
}

/// Whether a program may be started with these options: a command needs a
/// control group to run in.
pub fn options_allowed(has_command: bool, has_cgroup: bool) -> (allowed: bool)
    ensures
        allowed == (has_command ==> has_cgroup),
{
    !has_command || has_cgroup
}

/// Whether the bytes of an argument hold a NUL, which would end the argument
/// early.
pub open spec fn has_nul(argument: Seq<u8>) -> bool {
    argument.contains(0)
}

/// What is wrong with a command.
#[derive(Clone, Copy, Debug, PartialEq, Eq, Structural)]
pub enum CommandError {
    /// It has not even a name.
    Empty,
    /// The argument at this index holds a NUL.
    InteriorNul { index: usize },
}

fn holds_nul(argument: &str) -> (holds: bool)
    ensures
        holds == has_nul(vstd::utf8::encode_utf8(argument@)),
{
    let bytes = argument.as_bytes();
    let mut i: usize = 0;
    while i < bytes.len()
        invariant
            i <= bytes.len(),
            bytes@ == vstd::utf8::encode_utf8(argument@),
            forall|j: int| 0 <= j < i ==> bytes@[j] != 0,
        decreases bytes.len() - i,
    {
        if bytes[i] == 0 {
            assert(bytes@[i as int] == 0);
            return true;
        }
        i += 1;
    }
    false
}

/// Checks that a command can be started: it is not empty and no argument
/// holds a NUL. If several do, the first is reported.
pub fn check_command(command: &Vec<String>) -> (outcome: Result<(), CommandError>)
    ensures
        match outcome {
            Ok(_) => command@.len() > 0 && forall|i: int|
                0 <= i < command@.len() ==> !has_nul(
                    vstd::utf8::encode_utf8((#[trigger] command@[i])@),
                ),
            Err(CommandError::Empty) => command@.len() == 0,
            Err(CommandError::InteriorNul { index }) => {
                &&& index < command@.len()
                &&& has_nul(vstd::utf8::encode_utf8(command@[index as int]@))
                &&& forall|i: int|
                    0 <= i < index ==> !has_nul(
                        vstd::utf8::encode_utf8((#[trigger] command@[i])@),
                    )
            },
        },
{
    if command.len() == 0 {
        return Err(CommandError::Empty);
    }
    let mut i: usize = 0;
    while i < command.len()
        invariant
            i <= command@.len(),
            command@.len() > 0,
            forall|j: int|
                0 <= j < i ==> !has_nul(vstd::utf8::encode_utf8((#[trigger] command@[j])@)),
        decreases command@.len() - i,
    {
        if holds_nul(command[i].as_str()) {
            return Err(CommandError::InteriorNul { index: i });
        }
        i += 1;
    }
    Ok(())
}

/// The text of [`command_message`].
pub open spec fn command_text(command: Seq<String>, error: CommandError) -> Seq<char> {
    match error {
        CommandError::Empty => "launch command is empty"@,
        CommandError::InteriorNul { index } => "Argument '"@ + command[index as int]@
            + "' contains interior NUL byte"@,
    }
}

/// Says what is wrong with a command.
pub fn command_message(command: &Vec<String>, error: CommandError) -> (message: String)
    requires
        error matches CommandError::InteriorNul { index } ==> index < command@.len(),
    ensures
        message@ == match error {
            CommandError::Empty => "launch command is empty"@,
            CommandError::InteriorNul { index } => "Argument '"@ + command@[index as int]@
                + "' contains interior NUL byte"@,
        },
        message@ == command_text(command@, error),
{
    let mut text = String::new();
    match error {
        CommandError::Empty => {
            text.append("launch command is empty");
        },
        CommandError::InteriorNul { index } => {
            text.append("Argument '");
            text.append(command[index].as_str());
            text.append("' contains interior NUL byte");
        },
    }
    assert(text@ =~= command_text(command@, error));
    text
}

/// What is wrong with a control group.
#[derive(Clone, Copy, Debug, PartialEq, Eq, Structural)]
pub enum CgroupError {
    Missing,
    NotDirectory,
}

/// Checks that a path can be a control group: it exists and is a directory.
pub fn check_cgroup(present: bool, is_dir: bool) -> (outcome: Result<(), CgroupError>)
    ensures
        outcome == if !present {
            Err::<(), CgroupError>(CgroupError::Missing)
        } else if !is_dir {
            Err::<(), CgroupError>(CgroupError::NotDirectory)
        } else {
            Ok::<(), CgroupError>(())
        },
{
    if !present {
        return Err(CgroupError::Missing);
    }
    if !is_dir {
        return Err(CgroupError::NotDirectory);
    }
    Ok(())
}

/// The text of [`cgroup_message`].
pub open spec fn cgroup_text(path: Seq<char>, error: CgroupError) -> Seq<char> {
    match error {
        CgroupError::Missing => "cgroup path "@ + path + " does not exist"@,
        CgroupError::NotDirectory => path + " is not a directory"@,
    }
}

/// Says what is wrong with the control group at `path`.
pub fn cgroup_message(path: &str, error: CgroupError) -> (message: String)
    ensures
        message@ == match error {
            CgroupError::Missing => "cgroup path "@ + path@ + " does not exist"@,
            CgroupError::NotDirectory => path@ + " is not a directory"@,
        },
        message@ == cgroup_text(path@, error),
{
    let mut text = String::new();
    match error {
        CgroupError::Missing => {
            text.append("cgroup path ");
            text.append(path);
            text.append(" does not exist");
        },
        CgroupError::NotDirectory => {
            text.append(path);
            text.append(" is not a directory");
        },
    }
    assert(text@ =~= cgroup_text(path@, error));
    text
}

/// The line by which a process is moved into a control group.
pub fn procs_entry(pid: i32) -> (line: String)
    ensures
        line@ == signed_decimal(pid as int) + "\n"@,
{
    let mut line = String::new();
    push_signed(&mut line, pid);
    line.append("\n");
    assert(line@ =~= signed_decimal(pid as int) + "\n"@);
    line
}

/// The wait status of a process that has exited says so and gives its code
/// back, that of one that a signal has ended gives the signal back, with or
/// without the mark of a core dump, and that of one that is stopped says so,
/// whatever signal has stopped it.
pub proof fn law_status_reads_back(code: i32, signal: i32, dumped: bool)
    requires
        0 <= code <= 255,
        1 <= signal <= 126,
    ensures
        ({
            let exited: i32 = (code * 256) as i32;
            let ended: i32 = (signal + if dumped {
                128int
            } else {
                0
            }) as i32;
            let stopped: i32 = (signal * 256 + 127) as i32;
            &&& is_exited(exited) && exit_code(exited) == code && !is_stopped(exited)
                && !is_signaled(exited)
            &&& is_signaled(ended) && term_signal(ended) == signal && !is_stopped(ended)
                && !is_exited(ended)
            &&& is_stopped(stopped) && !is_exited(stopped) && !is_signaled(stopped)
        }),
{
    let exited: i32 = (code * 256) as i32;
    let ended: i32 = (signal + if dumped {
        128int
    } else {
        0
    }) as i32;
    let stopped: i32 = (signal * 256 + 127) as i32;
    assert(exited & 0x7f == 0 && (exited >> 8) & 0xff == code && exited & 0xff == 0) by (bit_vector)
        requires
            0 <= code <= 255,
            exited == code * 256,
    ;
    assert(ended & 0x7f == signal && ended & 0xff != 0x7f) by (bit_vector)
        requires
            1 <= signal <= 126,
            ended == signal || ended == signal + 128,
    ;
    assert(stopped & 0xff == 0x7f && stopped & 0x7f == 0x7f) by (bit_vector)
        requires
            1 <= signal <= 126,
            stopped == signal * 256 + 127,
    ;
}

/// An argument holds a NUL if any of its bytes is 0.
pub proof fn law_nul_is_a_zero_byte(argument: Seq<u8>)
    ensures
        has_nul(argument) <==> exists|i: int| 0 <= i < argument.len() && argument[i] == 0u8,
{
}

} // verus!

use lb_simple::launcher::{
    cgroup_message, check_cgroup, check_command, command_message, fork_side, options_allowed,
    procs_entry, reap_again, stop_message, wait_for_child_stop, CgroupError, CommandError,
    ForkSide, StopVerdict,
};

fn strings(args: &[&str]) -> Vec<String> {
    args.iter().map(|a| a.to_string()).collect()
}

#[test]
fn a_stopped_child_ends_the_wait() {
    let stopped = (libc::SIGSTOP << 8) | 0x7f;
    assert!(libc::WIFSTOPPED(stopped));
    assert_eq!(wait_for_child_stop(12, false, stopped), StopVerdict::Stopped);
    assert_eq!(wait_for_child_stop(0, true, stopped), StopVerdict::Stopped);
}

#[test]
fn a_child_that_ended_is_an_error() {
    assert_eq!(wait_for_child_stop(12, false, 0), StopVerdict::Exited { code: 0 });
    assert_eq!(wait_for_child_stop(12, false, 127 << 8), StopVerdict::Exited { code: 127 });
    assert_eq!(
        wait_for_child_stop(12, false, libc::SIGKILL),
        StopVerdict::Signaled { signal: 9 }
    );
    // With a core dump.
    assert_eq!(
        wait_for_child_stop(12, false, 0x80 | libc::SIGSEGV),
        StopVerdict::Signaled { signal: 11 }
    );
}

#[test]
fn other_news_are_waited_out() {
    // The child was continued.
    assert_eq!(wait_for_child_stop(12, false, 0xffff), StopVerdict::Again);
    assert_eq!(wait_for_child_stop(-1, true, 0), StopVerdict::Again);
    assert_eq!(wait_for_child_stop(-1, false, 0), StopVerdict::WaitFailed);
}

#[test]
fn wait_statuses_are_read_as_libc_reads_them() {
    for status in -70000..70000 {
        let expected = if libc::WIFSTOPPED(status) {
            StopVerdict::Stopped
        } else if libc::WIFEXITED(status) {
            StopVerdict::Exited {
                code: (status >> 8) & 0xff,
            }
        } else if (1..=126).contains(&(status & 0x7f)) {
            StopVerdict::Signaled {
                signal: status & 0x7f,
            }
        } else {
            StopVerdict::Again
        };
        assert_eq!(wait_for_child_stop(1, false, status), expected);
        assert_eq!(libc::WIFSTOPPED(status), status & 0xff == 0x7f);
        assert_eq!(libc::WIFEXITED(status), status & 0x7f == 0);
    }
}

#[test]
fn messages_name_the_child() {
    assert_eq!(
        stop_message(12, StopVerdict::Exited { code: 3 }).as_deref(),
        Some("child 12 exited with status 3 before SIGCONT")
    );
    assert_eq!(
        stop_message(12, StopVerdict::Signaled { signal: 9 }).as_deref(),
        Some("child 12 terminated by signal 9 before SIGCONT")
    );
    assert_eq!(
        stop_message(12, StopVerdict::WaitFailed).as_deref(),
        Some("waitpid failed while waiting for 12 to stop")
    );
    assert_eq!(stop_message(12, StopVerdict::Stopped), None);
    assert_eq!(stop_message(12, StopVerdict::Again), None);
}

#[test]
fn a_wait_is_repeated_only_after_an_interruption() {
    assert!(reap_again(-1, true));
    assert!(!reap_again(-1, false));
    assert!(!reap_again(12, true));
}

#[test]
fn the_sides_of_a_fork() {
    assert_eq!(fork_side(-1), ForkSide::Failed);
    assert_eq!(fork_side(0), ForkSide::Child);
    assert_eq!(fork_side(12), ForkSide::Parent);
}

#[test]
fn a_command_needs_a_cgroup() {
    assert!(options_allowed(false, false));
    assert!(options_allowed(false, true));
    assert!(options_allowed(true, true));
    assert!(!options_allowed(true, false));
}

#[test]
fn commands_are_checked() {
    assert_eq!(check_command(&strings(&["ls", "-l", "\u{e9}"])), Ok(()));
    assert_eq!(check_command(&strings(&[""])), Ok(()));
    assert_eq!(check_command(&strings(&[])), Err(CommandError::Empty));
    let command = strings(&["ls", "a\0b", "\0"]);
    let error = CommandError::InteriorNul { index: 1 };
    assert_eq!(check_command(&command), Err(error));
    assert_eq!(
        command_message(&command, error),
        "Argument 'a\0b' contains interior NUL byte"
    );
    assert_eq!(command_message(&command, CommandError::Empty), "launch command is empty");
}

#[test]
fn cgroups_are_checked() {
    assert_eq!(check_cgroup(true, true), Ok(()));
    assert_eq!(check_cgroup(true, false), Err(CgroupError::NotDirectory));
    assert_eq!(check_cgroup(false, false), Err(CgroupError::Missing));
    assert_eq!(
        cgroup_message("/sys/x", CgroupError::Missing),
        "cgroup path /sys/x does not exist"
    );
    assert_eq!(
        cgroup_message("/sys/x", CgroupError::NotDirectory),
        "/sys/x is not a directory"
    );
}

#[test]
fn a_process_is_named_by_its_number() {
    assert_eq!(procs_entry(1234), "1234\n");
    assert_eq!(procs_entry(0), "0\n");
    assert_eq!(procs_entry(i32::MIN), "-2147483648\n");
}

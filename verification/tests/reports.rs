use lb_simple::report::{
    arm_thread_cleanup, cleanup_request, cleanup_wanted, get_cleanup_key, is_registered_fast,
    map_delete_attr, map_update_attr, note_registration, registration_request, report_actions,
    set_yield_info, InfoAction, KeyAction, KeyReply, KeySearch, MapElemAttr, Registration,
    TaskYieldInfo, YieldAddrEntry,
};
use lb_simple::words::{YIELD_LOCK_CONTENTION, YIELD_LOCK_HANDOFF, YIELD_NONE};

#[test]
fn a_report_has_an_even_generation() {
    let mut info = TaskYieldInfo {
        reason: YIELD_NONE,
        generation: 0,
        vip_dsq_id: 0,
    };
    set_yield_info(&mut info, YIELD_LOCK_CONTENTION, 17);
    assert_eq!(
        info,
        TaskYieldInfo {
            reason: 1,
            generation: 2,
            vip_dsq_id: 17
        }
    );
    set_yield_info(&mut info, YIELD_LOCK_HANDOFF, 18);
    assert_eq!(
        info,
        TaskYieldInfo {
            reason: 2,
            generation: 4,
            vip_dsq_id: 18
        }
    );
    for (before, after) in [(3, 6), (u32::MAX - 1, 0), (u32::MAX, 2)] {
        info.generation = before;
        set_yield_info(&mut info, 1, 1);
        assert_eq!(info.generation, after);
    }
}

#[test]
fn a_report_is_written_between_two_generations() {
    assert_eq!(
        report_actions(6, 1, 17),
        [
            InfoAction::SetGeneration { generation: 7 },
            InfoAction::Fence,
            InfoAction::SetReason { reason: 1 },
            InfoAction::SetQueue { vip_dsq_id: 17 },
            InfoAction::Fence,
            InfoAction::SetGeneration { generation: 8 },
        ]
    );
}

#[test]
fn a_thread_registers_once() {
    let mut registration = Registration::new();
    let entry = YieldAddrEntry {
        user_ptr: 0xabc,
        last_gen: 0,
        bpf_reason: 0,
        vip_dsq_id: 0,
    };
    assert!(!is_registered_fast(&registration, 5));
    assert_eq!(registration_request(&registration, -1, 42, 0xabc), None);
    assert_eq!(registration_request(&registration, 0, 42, 0xabc), Some(entry));

    assert!(!note_registration(&mut registration, 42, -1));
    assert!(!is_registered_fast(&registration, 5));
    assert_eq!(registration_request(&registration, 5, 42, 0xabc), Some(entry));

    assert!(note_registration(&mut registration, 42, 0));
    assert!(is_registered_fast(&registration, 5));
    assert!(is_registered_fast(&registration, -1));
    assert_eq!(registration_request(&registration, 5, 42, 0xabc), None);
    assert_eq!(registration_request(&registration, 5, 43, 0xabc), Some(entry));

    assert!(!note_registration(&mut registration, 43, -1));
    assert_eq!(
        registration,
        Registration {
            registered: false,
            tid: 42,
            cleanup_armed: false
        }
    );
}

#[test]
fn the_cleanup_is_armed_once() {
    let mut registration = Registration::new();
    assert!(cleanup_wanted(&registration));
    arm_thread_cleanup(&mut registration, None, 0);
    assert!(cleanup_wanted(&registration));
    arm_thread_cleanup(&mut registration, Some(3), 12);
    assert!(cleanup_wanted(&registration));
    arm_thread_cleanup(&mut registration, Some(3), 0);
    assert!(!cleanup_wanted(&registration));
    arm_thread_cleanup(&mut registration, None, 12);
    assert!(!cleanup_wanted(&registration));
}

#[test]
fn requests_to_the_map() {
    assert_eq!(
        map_update_attr(5, 0x10, 0x20),
        MapElemAttr {
            map_fd: 5,
            key: 0x10,
            value: 0x20,
            flags: 0
        }
    );
    let delete = MapElemAttr {
        map_fd: 5,
        key: 0x10,
        value: 0,
        flags: 0,
    };
    assert_eq!(map_delete_attr(5, 0x10), delete);
    assert_eq!(cleanup_request(5, 0x10), Some(delete));
    assert_eq!(cleanup_request(-1, 0x10), None);
}

#[test]
fn all_threads_share_one_key() {
    let mut shared = None;
    assert_eq!(get_cleanup_key(&mut shared, 11, 3), None);
    assert_eq!(shared, None);
    assert_eq!(get_cleanup_key(&mut shared, 0, 3), Some(3));
    assert_eq!(shared, Some(3));
    assert_eq!(get_cleanup_key(&mut shared, 0, 4), Some(3));
    assert_eq!(shared, Some(3));
}

#[test]
fn a_key_that_came_too_late_is_given_back() {
    let reply = KeyReply {
        shared: None,
        rc: 0,
        made: 8,
        accepted: false,
    };
    let search = KeySearch::Look.next(reply);
    assert_eq!(search.action(), Some(KeyAction::Create));
    let search = search.next(reply);
    assert_eq!(search.action(), Some(KeyAction::Share { key: 8 }));
    let search = search.next(reply);
    assert_eq!(search.action(), Some(KeyAction::Delete { key: 8 }));
    let search = search.next(reply);
    assert_eq!(search.action(), Some(KeyAction::Load));
    let search = search.next(KeyReply {
        shared: Some(7),
        ..reply
    });
    assert_eq!(search.action(), None);
    assert_eq!(search.found(), Some(7));
}

/// Searches that take turns in every order that the digits of a number give.
#[test]
fn searches_that_race_leave_one_key() {
    for order in 0..3usize.pow(9) {
        let mut shared = None;
        let mut live: Vec<u32> = Vec::new();
        let mut made = 0;
        let mut searches = [KeySearch::Look; 3];
        let mut turns = order;
        let mut taken = 0;
        while searches.iter().any(|s| s.action().is_some()) {
            let i = if taken < 9 { turns % 3 } else { taken % 3 };
            turns /= 3;
            taken += 1;
            let Some(action) = searches[i].action() else {
                continue;
            };
            let mut reply = KeyReply {
                shared,
                rc: 0,
                made: 0,
                accepted: false,
            };
            match action {
                KeyAction::Load => {}
                KeyAction::Create => {
                    made += 1;
                    live.push(made);
                    reply.made = made;
                }
                KeyAction::Share { key } => {
                    reply.accepted = shared.is_none();
                    shared = shared.or(Some(key));
                }
                KeyAction::Delete { key } => live.retain(|k| *k != key),
            }
            searches[i] = searches[i].next(reply);
        }
        assert_eq!(live, vec![shared.unwrap()]);
        assert!(searches.iter().all(|s| s.found() == shared));
    }
}

/// A reader reads generation, reason, queue and generation again, each at any
/// point between the steps of two reports.
#[test]
fn a_reader_never_sees_a_torn_report() {
    let mut states = vec![TaskYieldInfo {
        reason: 1,
        generation: 4,
        vip_dsq_id: 100,
    }];
    for (reason, vip_dsq_id) in [(2, 200), (1, 300)] {
        let mut info = *states.last().unwrap();
        for action in report_actions(info.generation, reason, vip_dsq_id) {
            match action {
                InfoAction::SetGeneration { generation } => info.generation = generation,
                InfoAction::SetReason { reason } => info.reason = reason,
                InfoAction::SetQueue { vip_dsq_id } => info.vip_dsq_id = vip_dsq_id,
                InfoAction::Fence => {}
            }
            states.push(info);
        }
    }
    let n = states.len();
    let mut accepted = 0;
    for a in 0..n {
        for b in a..n {
            for c in b..n {
                for d in c..n {
                    let generation = states[a].generation;
                    if generation == states[d].generation && generation % 2 == 0 {
                        accepted += 1;
                        let seen = (states[b].reason, states[c].vip_dsq_id);
                        assert!([(1, 100), (2, 200), (1, 300)].contains(&seen));
                        assert_eq!(seen, (states[a].reason, states[a].vip_dsq_id));
                    }
                }
            }
        }
    }
    assert!(accepted >= 3);
}

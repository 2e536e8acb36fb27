use lb_simple::object::{
    apply_to_slot, get_or_init, interpose_destroy, interpose_init, storage_usable, Lookup, LookupAt,
    Operation, Slot, SlotReply, OBJ_INITING, OBJ_READY, OBJ_UNINIT,
};
use lb_simple::words::Errno;

fn slot(status: u32, ptr: usize) -> Slot {
    Slot { status, ptr }
}

#[test]
fn an_object_is_made_on_first_use() {
    let mut s = slot(OBJ_UNINIT, 0);
    assert_eq!(get_or_init(&mut s, true, true, 0x100), Ok(0x100));
    assert_eq!(s, slot(OBJ_READY, 0x100));
    assert_eq!(get_or_init(&mut s, true, true, 0x200), Ok(0x100));
    assert_eq!(get_or_init(&mut s, true, false, 0x200), Ok(0x100));
    assert_eq!(s, slot(OBJ_READY, 0x100));
}

#[test]
fn a_search_that_may_not_create_is_refused() {
    let mut s = slot(OBJ_UNINIT, 0);
    assert_eq!(get_or_init(&mut s, true, false, 0x100), Err(Errno::Invalid));
    assert_eq!(s, slot(OBJ_UNINIT, 0));
}

#[test]
fn a_ready_slot_without_an_address_is_made_anew() {
    let mut s = slot(OBJ_READY, 0);
    assert_eq!(get_or_init(&mut s, true, true, 0x100), Ok(0x100));
    assert_eq!(s, slot(OBJ_READY, 0x100));
    let mut s = slot(OBJ_READY, 0);
    assert_eq!(get_or_init(&mut s, true, false, 0x100), Err(Errno::Invalid));
    assert_eq!(s, slot(OBJ_UNINIT, 0));
}

#[test]
fn unknown_states_and_unusable_storage_are_refused() {
    let mut s = slot(77, 0x100);
    assert_eq!(get_or_init(&mut s, true, true, 0x200), Err(Errno::Invalid));
    assert_eq!(s, slot(77, 0x100));
    let mut s = slot(OBJ_READY, 0x100);
    assert_eq!(get_or_init(&mut s, false, true, 0x200), Err(Errno::Invalid));
    assert_eq!(interpose_init(&mut s, false, true, 0x200), (Err(Errno::Invalid), None));
    assert_eq!(interpose_destroy(&mut s, false), (Err(Errno::Invalid), None));
    assert_eq!(s, slot(OBJ_READY, 0x100));
}

#[test]
fn storage_must_exist_and_be_large_and_aligned_enough() {
    assert!(storage_usable(false, 40, 8, 16, 8));
    assert!(storage_usable(false, 16, 8, 16, 8));
    assert!(!storage_usable(true, 40, 8, 16, 8));
    assert!(!storage_usable(false, 15, 8, 16, 8));
    assert!(!storage_usable(false, 40, 4, 16, 8));
}

#[test]
fn a_forced_initialisation_replaces_what_is_there() {
    let mut s = slot(OBJ_READY, 0x100);
    assert_eq!(interpose_init(&mut s, true, true, 0x200), (Ok(()), Some(0x100)));
    assert_eq!(s, slot(OBJ_READY, 0x200));
    let mut s = slot(OBJ_INITING, 0);
    assert_eq!(interpose_init(&mut s, true, true, 0x200), (Ok(()), None));
    assert_eq!(s, slot(OBJ_READY, 0x200));
}

#[test]
fn an_initialisation_that_is_not_forced_keeps_what_is_there() {
    let mut s = slot(OBJ_READY, 0x100);
    assert_eq!(interpose_init(&mut s, true, false, 0x200), (Ok(()), None));
    assert_eq!(s, slot(OBJ_READY, 0x100));
    let mut s = slot(77, 0x100);
    assert_eq!(interpose_init(&mut s, true, false, 0x200), (Err(Errno::Invalid), None));
}

#[test]
fn an_object_is_destroyed_once() {
    let mut s = slot(OBJ_READY, 0x100);
    assert_eq!(interpose_destroy(&mut s, true), (Ok(()), Some(0x100)));
    assert_eq!(s, slot(OBJ_UNINIT, 0));
    assert_eq!(interpose_destroy(&mut s, true), (Ok(()), None));
    assert_eq!(get_or_init(&mut s, true, false, 0x200), Err(Errno::Invalid));
    assert_eq!(get_or_init(&mut s, true, true, 0x200), Ok(0x200));
}

#[test]
fn only_a_release_makes_no_object() {
    for operation in [
        Operation::Lock,
        Operation::TryLock,
        Operation::Wait,
        Operation::Signal,
        Operation::Broadcast,
    ] {
        assert!(operation.creates());
    }
    assert!(!Operation::Unlock.creates());
}

#[test]
fn a_search_waits_while_another_makes_the_object() {
    let mut lookup = Lookup::new(true, true);
    for _ in 0..5 {
        lookup.advance(SlotReply {
            status: OBJ_INITING,
            ptr: 0,
            claimed: false,
        });
        assert_eq!(lookup.at, LookupAt::Wait);
        lookup.advance(SlotReply {
            status: 0,
            ptr: 0,
            claimed: false,
        });
        assert_eq!(lookup.at, LookupAt::ReadStatus);
    }
}

#[test]
fn searches_that_take_turns_agree_on_one_object() {
    for seed in 1..200u64 {
        let mut state = seed.wrapping_mul(0x9e37_79b9_7f4a_7c15);
        let mut s = slot(OBJ_UNINIT, 0);
        let mut lookups = vec![Lookup::new(true, true); 6];
        let mut made = 0;
        while lookups.iter().any(|l| l.outcome().is_none()) {
            state ^= state << 13;
            state ^= state >> 7;
            state ^= state << 17;
            let i = (state % 6) as usize;
            if let Some(action) = lookups[i].action() {
                if lookups[i].at == LookupAt::Create {
                    made += 1;
                }
                let reply = apply_to_slot(&mut s, action, 0x1000 + i);
                lookups[i].advance(reply);
            }
        }
        assert_eq!(made, 1);
        for lookup in &lookups {
            assert_eq!(lookup.outcome(), Some(Ok(s.ptr)));
        }
    }
}

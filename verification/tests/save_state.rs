use nes_emu::save_state::{
    check_snapshot, RewindBuffer, SaveStateError, SaveStateSlots, DEFAULT_REWIND_CAPACITY, RAM_SIZE,
    SAVE_STATE_SLOT_COUNT, SAVE_STATE_VERSION,
};

#[test]
fn slots_start_empty() {
    let s = SaveStateSlots::new();
    for i in 0..SAVE_STATE_SLOT_COUNT {
        assert!(s.is_empty(i), "slot {i} should be empty");
    }
    assert_eq!(s.occupied_count(), 0);
}

#[test]
fn current_slot_default_zero() {
    assert_eq!(SaveStateSlots::new().current_slot(), 0);
}

#[test]
fn set_current_slot_ignores_out_of_range() {
    let mut s = SaveStateSlots::new();
    s.set_current_slot(SAVE_STATE_SLOT_COUNT + 5);
    assert_eq!(s.current_slot(), 0);
    s.set_current_slot(7);
    assert_eq!(s.current_slot(), 7);
}

#[test]
fn rewind_buffer_default_capacity() {
    let r = RewindBuffer::default();
    assert_eq!(r.capacity(), DEFAULT_REWIND_CAPACITY);
    assert!(r.is_empty());
    assert!(!r.is_full());
}

#[test]
fn rewind_buffer_capacity_floor() {
    let r = RewindBuffer::with_capacity(0);
    assert_eq!(r.capacity(), 1);
}

#[test]
fn save_then_load_returns_blob() {
    let mut s = SaveStateSlots::new();
    assert_eq!(s.save(Ok(vec![1, 2, 3]), 4), Ok(()));
    assert_eq!(s.load(4), Ok(&[1u8, 2, 3][..]));
    assert_eq!(s.get(4), Some(&[1u8, 2, 3][..]));
    assert_eq!(s.occupied_count(), 1);
    assert_eq!(s.load(3), Err(SaveStateError::SlotEmpty { slot: 3 }));
}

#[test]
fn save_out_of_range_is_refused() {
    let mut s = SaveStateSlots::new();
    assert_eq!(
        s.save(Ok(vec![9]), 10),
        Err(SaveStateError::SlotOutOfRange { requested: 10, max: 10 })
    );
    assert_eq!(
        s.load(12),
        Err(SaveStateError::SlotOutOfRange { requested: 12, max: 10 })
    );
    assert_eq!(s.occupied_count(), 0);
}

#[test]
fn save_passes_encode_error_on() {
    let mut s = SaveStateSlots::new();
    let e = SaveStateError::Encode("boom".to_string());
    assert_eq!(s.save(Err(e.clone()), 2), Err(e));
    assert!(s.is_empty(2));
}

#[test]
fn save_current_and_clear() {
    let mut s = SaveStateSlots::default();
    s.set_current_slot(9);
    s.save_current(Ok(vec![7])).unwrap();
    assert_eq!(s.load_current(), Ok(&[7u8][..]));
    s.clear(9);
    assert_eq!(s.load_current(), Err(SaveStateError::SlotEmpty { slot: 9 }));
}

#[test]
fn rewind_push_pop_is_lifo_and_evicts_oldest() {
    let mut r = RewindBuffer::with_capacity(2);
    r.push(Ok(vec![1])).unwrap();
    r.push(Ok(vec![2])).unwrap();
    assert!(r.is_full());
    r.push(Ok(vec![3])).unwrap();
    assert_eq!(r.len(), 2);
    assert_eq!(r.pop(), Some(vec![3]));
    assert_eq!(r.pop(), Some(vec![2]));
    assert_eq!(r.pop(), None);
}

#[test]
fn rewind_failed_push_leaves_ring() {
    let mut r = RewindBuffer::with_capacity(3);
    r.push(Ok(vec![1])).unwrap();
    let e = SaveStateError::Encode("x".to_string());
    assert_eq!(r.push(Err(e.clone())), Err(e));
    assert_eq!(r.len(), 1);
    r.clear();
    assert!(r.is_empty());
    assert_eq!(r.capacity(), 3);
}

#[test]
fn error_messages() {
    assert_eq!(
        SaveStateError::VersionMismatch { expected: 4, found: 3 }.message(),
        "save state version mismatch: expected 4, found 3"
    );
    assert_eq!(
        SaveStateError::SlotOutOfRange { requested: 12, max: 10 }.message(),
        "save state slot 12 out of range (max 10)"
    );
    assert_eq!(SaveStateError::SlotEmpty { slot: 0 }.message(), "save state slot 0 is empty");
    assert_eq!(
        SaveStateError::Decode("short".to_string()).message(),
        "save state decode error: short"
    );
    assert_eq!(
        SaveStateError::Encode("big".to_string()).message(),
        "save state encode error: big"
    );
}

#[test]
fn snapshot_checks_version_then_ram() {
    assert_eq!(check_snapshot(SAVE_STATE_VERSION, RAM_SIZE), Ok(()));
    assert_eq!(
        check_snapshot(3, 5),
        Err(SaveStateError::VersionMismatch { expected: 4, found: 3 })
    );
    assert_eq!(
        check_snapshot(SAVE_STATE_VERSION, 100),
        Err(SaveStateError::Decode("RAM length mismatch: expected 2048, got 100".to_string()))
    );
}

use stonitor::slot::{FetchSlot, PollStep};

#[test]
fn idle_slot_starts_one_task() {
    let mut slot = FetchSlot::new();
    assert!(!slot.is_busy());
    assert_eq!(slot.poll(false), PollStep::Start);
    assert!(slot.is_busy());
}

#[test]
fn polling_while_pending_never_starts_a_second_task() {
    let mut slot = FetchSlot::new();
    let mut starts = 0;
    for _ in 0..50 {
        if slot.poll(false) == PollStep::Start {
            starts += 1;
        }
    }
    assert_eq!(starts, 1);
    assert!(slot.is_busy());
}

#[test]
fn finished_task_is_collected_exactly_once() {
    let mut slot = FetchSlot::new();
    assert_eq!(slot.poll(false), PollStep::Start);
    assert_eq!(slot.poll(false), PollStep::Wait);
    assert_eq!(slot.poll(true), PollStep::Collect);
    assert!(!slot.is_busy());
    // The next poll starts a fresh task; it never hands the old result again.
    assert_eq!(slot.poll(true), PollStep::Start);
    assert_eq!(slot.poll(false), PollStep::Wait);
}

#[test]
fn finished_flag_on_idle_slot_still_starts() {
    let mut slot = FetchSlot::new();
    assert_eq!(slot.poll(true), PollStep::Start);
}

#[test]
fn hung_task_keeps_slot_busy() {
    let mut slot = FetchSlot::new();
    slot.poll(false);
    for _ in 0..1000 {
        assert_eq!(slot.poll(false), PollStep::Wait);
    }
    assert!(slot.is_busy());
}

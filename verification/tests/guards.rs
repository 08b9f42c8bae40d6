//! Flags and slots that a task's end releases.

use ferrosonic::daemon::guards::{
    CancelSlotCleaner, LoadingFlag, LoadingFlagOwner, PrebufferGate,
};

fn flag(task: u64) -> Option<LoadingFlag> {
    Some(LoadingFlag {
        task,
        loading: true,
    })
}

fn loading(slot: Option<LoadingFlag>) -> bool {
    slot.unwrap().loading
}

#[test]
fn loading_flag_owner_drop_clears_when_armed() {
    let f = LoadingFlagOwner::new(1).dropped(flag(1));
    assert!(
        !loading(f),
        "an armed LoadingFlagOwner Drop must clear the loading flag"
    );
}

#[test]
fn loading_flag_owner_disarm_leaves_flag_for_the_newer_task() {
    let mut owner = LoadingFlagOwner::new(1);
    owner.disarm();
    assert!(
        loading(owner.dropped(flag(1))),
        "a disarmed Drop must leave the flag to the task that took over"
    );
}

#[test]
fn prebuffer_gate_drop_clears_when_armed() {
    let f = PrebufferGate::new(1).dropped(flag(1));
    assert!(
        !loading(f),
        "an armed PrebufferGate Drop must clear the prebuffer-loading flag"
    );
}

#[test]
fn prebuffer_gate_disarm_leaves_flag_on_cancel_paths() {
    let mut gate = PrebufferGate::new(1);
    gate.disarm();
    assert!(
        loading(gate.dropped(flag(1))),
        "a disarmed PrebufferGate must leave the flag for the superseding task"
    );
}

#[test]
fn cancel_slot_cleaner_clears_a_slot_it_still_owns() {
    assert_eq!(
        CancelSlotCleaner::new(1).dropped(Some(1)),
        None,
        "an armed Drop must clear the cancel slot it still owns"
    );
}

#[test]
fn cancel_slot_cleaner_disarm_leaves_the_slot() {
    let mut cleaner = CancelSlotCleaner::new(1);
    cleaner.disarm();
    assert_eq!(
        cleaner.dropped(Some(1)),
        Some(1),
        "a disarmed cleaner must not touch the slot (no cleanup task)"
    );
}

#[test]
fn cancel_slot_cleaner_ignores_a_slot_owned_by_another_task() {
    assert_eq!(
        CancelSlotCleaner::new(1).dropped(Some(2)),
        Some(2),
        "the newer task's cancel handle must remain installed"
    );
    assert!(
        loading(PrebufferGate::new(1).dropped(flag(2))),
        "nor is another task's flag cleared"
    );
    assert_eq!(PrebufferGate::new(1).dropped(None), None);
}

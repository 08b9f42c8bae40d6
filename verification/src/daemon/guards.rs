//! What outlives a task: the flags and slots that its end must release.
//!
//! A pre-buffer task is known by its number. The slot for cancellation holds
//! the number of the task that is current; a task whose number is no longer
//! there has been cancelled. The loading flag belongs to one task as well, so
//! an old task's end never clears the flag of a newer one.

use vstd::prelude::*;

verus! {

/// The loading flag of one task.
#[derive(Debug, Clone, Copy, PartialEq, Eq, Structural)]
pub struct LoadingFlag {
    /// The task that the flag belongs to.
    pub task: u64,
    /// Whether the task still has to load its file.
    pub loading: bool,
}

/// `slot` with the flag of `task` cleared; the flag of another task stays.
pub open spec fn cleared_flag(slot: Option<LoadingFlag>, task: u64) -> Option<LoadingFlag> {
    match slot {
        Some(flag) => Some(
            LoadingFlag {
                task: flag.task,
                loading: if flag.task == task {
                    false
                } else {
                    flag.loading
                },
            },
        ),
        None => None,
    }
}

/// `slot` emptied where `task` still owns it.
pub open spec fn vacated(slot: Option<u64>, task: u64) -> Option<u64> {
    if slot == Some(task) {
        None
    } else {
        slot
    }
}

fn clear_flag(slot: Option<LoadingFlag>, task: u64) -> (r: Option<LoadingFlag>)
    ensures
        r == cleared_flag(slot, task),
{
    match slot {
        Some(flag) => {
            let loading = if flag.task == task {
                false
            } else {
                flag.loading
            };
            Some(LoadingFlag { task: flag.task, loading })
        },
        None => None,
    }
}

/// Clears the loading flag if a dispatch is dropped before its task takes over.
#[derive(Debug, Clone, Copy, PartialEq, Eq, Structural)]
pub struct LoadingFlagOwner {
    /// The task whose flag is owned, until the task takes over.
    pub task: Option<u64>,
}

impl LoadingFlagOwner {
    #[must_use]
    pub fn new(task: u64) -> (r: Self)
        ensures
            r.task == Some(task),
    {
        LoadingFlagOwner { task: Some(task) }
    }

    /// Leaves the flag to the task.
    pub fn disarm(&mut self)
        ensures
            final(self).task is None,
    {
        self.task = None;
    }

    /// The flag once the owner has been dropped.
    #[must_use]
    pub fn dropped(self, slot: Option<LoadingFlag>) -> (r: Option<LoadingFlag>)
        ensures
            r == (match self.task {
                Some(task) => cleared_flag(slot, task),
                None => slot,
            }),
    {
        match self.task {
            Some(task) => clear_flag(slot, task),
            None => slot,
        }
    }
}

/// Clears the loading flag when its task ends, unless the task was cancelled:
/// then the flag is left to the newer task.
#[derive(Debug, Clone, Copy, PartialEq, Eq, Structural)]
pub struct PrebufferGate {
    pub task: u64,
    pub armed: bool,
}

impl PrebufferGate {
    #[must_use]
    pub fn new(task: u64) -> (r: Self)
        ensures
            r == (PrebufferGate { task, armed: true }),
    {
        PrebufferGate { task, armed: true }
    }

    /// Leaves the flag alone.
    pub fn disarm(&mut self)
        ensures
            *final(self) == (PrebufferGate { armed: false, ..*old(self) }),
    {
        self.armed = false;
    }

    /// The flag once this guard has been dropped.
    #[must_use]
    pub fn dropped(self, slot: Option<LoadingFlag>) -> (r: Option<LoadingFlag>)
        ensures
            r == (if self.armed {
                cleared_flag(slot, self.task)
            } else {
                slot
            }),
    {
        if self.armed {
            clear_flag(slot, self.task)
        } else {
            slot
        }
    }
}

/// Empties the cancellation slot when its task ends, if the task still owns it.
#[derive(Debug, Clone, Copy, PartialEq, Eq, Structural)]
pub struct CancelSlotCleaner {
    pub own: u64,
    pub armed: bool,
}

impl CancelSlotCleaner {
    #[must_use]
    pub fn new(own: u64) -> (r: Self)
        ensures
            r == (CancelSlotCleaner { own, armed: true }),
    {
        CancelSlotCleaner { own, armed: true }
    }

    /// Leaves the slot alone.
    pub fn disarm(&mut self)
        ensures
            *final(self) == (CancelSlotCleaner { armed: false, ..*old(self) }),
    {
        self.armed = false;
    }

    /// The slot once the cleaner has been dropped.
    #[must_use]
    pub fn dropped(self, slot: Option<u64>) -> (r: Option<u64>)
        ensures
            r == (if self.armed {
                vacated(slot, self.own)
            } else {
                slot
            }),
    {
        if self.armed && slot == Some(self.own) {
            None
        } else {
            slot
        }
    }
}

/// The end of one task never touches the flag or the slot of another.
pub proof fn law_a_task_releases_only_its_own(
    task: u64,
    flag: Option<LoadingFlag>,
    slot: Option<u64>,
)
    ensures
        flag matches Some(f) && f.task != task ==> cleared_flag(flag, task) == flag,
        slot matches Some(owner) && owner != task ==> vacated(slot, task) == slot,
{
}

} // verus!

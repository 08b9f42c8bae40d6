//! Downloading a track in full before it is loaded.
//!
//! The whole file is fetched first so mpv reads the true track length; loading
//! a still-growing file makes mpv take the partial end for the track's end.

use crate::audio::mpv::MpvController;
use crate::audio::mpv_protocol::{commands, load, set_pause, MpvCommand};
use crate::daemon::engine::{DaemonCore, Tasks};
use crate::daemon::guards::{
    cleared_flag, vacated, CancelSlotCleaner, LoadingFlagOwner, PrebufferGate,
};
use vstd::prelude::*;

verus! {

/// How many pre-buffer files are kept: the one that mpv reads and the one that
/// is being prepared.
pub const KEPT_FILES: usize = 2;

/// How long the stream may be silent.
pub const STREAM_TIMEOUT_MS: u64 = 15_000;

/// What has just happened in a pre-buffer task.
#[derive(Debug, Clone, Copy, PartialEq, Eq, Structural)]
pub enum Progress {
    FetchFailed,
    Fetched,
    OpenFailed,
    /// The local file is open.
    Opened,
    StreamTimedOut,
    StreamFailed,
    ChunkRead,
    WriteFailed,
    ChunkWritten,
    /// The stream is at its end and the file complete.
    StreamEnded,
    LoadFailed,
    /// mpv has loaded the file, paused.
    Loaded,
    /// The rate is settled and the track runs.
    Settled,
    /// What comes next is preloaded.
    Preloaded,
}

/// What a pre-buffer task does next.
#[derive(Debug, Clone, Copy, PartialEq, Eq, Structural)]
pub enum PrebufferStep {
    OpenFile,
    ReadChunk,
    WriteChunk,
    /// Load the finished file, paused.
    LoadPaused,
    /// Settle the rate and let the track run.
    Settle,
    /// Preload what comes next.
    Preload,
    /// Stream the track directly instead, if the task is still current; then
    /// end.
    FallBack,
    /// End, releasing what the task holds.
    End,
    /// End, leaving everything to the newer task.
    Abandon,
}

/// Something went wrong before the file was complete.
pub open spec fn download_broke(progress: Progress) -> bool {
    ||| progress is FetchFailed
    ||| progress is OpenFailed
    ||| progress is StreamTimedOut
    ||| progress is StreamFailed
    ||| progress is WriteFailed
}

/// Here a task looks whether it has been cancelled: before it reads, before it
/// loads and before it lets the track run.
pub open spec fn looks_for_cancel(progress: Progress) -> bool {
    reads_next(progress) || progress is StreamEnded || progress is Loaded
}

/// More of the stream is read next.
pub open spec fn reads_next(progress: Progress) -> bool {
    progress is Opened || progress is ChunkWritten
}

/// What follows where nothing is in the way.
pub open spec fn onward(progress: Progress) -> PrebufferStep {
    match progress {
        Progress::Fetched => PrebufferStep::OpenFile,
        Progress::ChunkRead => PrebufferStep::WriteChunk,
        Progress::StreamEnded => PrebufferStep::LoadPaused,
        Progress::Loaded => PrebufferStep::Settle,
        Progress::Settled => PrebufferStep::Preload,
        _ => if reads_next(progress) {
            PrebufferStep::ReadChunk
        } else {
            PrebufferStep::End
        },
    }
}

/// What a task does next: a broken download falls back, a cancelled task leaves
/// everything to the newer one where it looks, a shutdown ends the reading, and
/// otherwise the task goes on.
pub open spec fn next_step(progress: Progress, cancelled: bool, shutdown: bool) -> PrebufferStep {
    if download_broke(progress) {
        PrebufferStep::FallBack
    } else if cancelled && looks_for_cancel(progress) {
        PrebufferStep::Abandon
    } else if shutdown && reads_next(progress) {
        PrebufferStep::End
    } else {
        onward(progress)
    }
}

/// The last `KEPT_FILES` of `files`.
pub open spec fn kept(files: Seq<u64>) -> Seq<u64> {
    if files.len() > KEPT_FILES {
        files.skip(files.len() - KEPT_FILES)
    } else {
        files
    }
}

/// The files of `files` that are not kept.
pub open spec fn given_up(files: Seq<u64>) -> Seq<u64> {
    if files.len() > KEPT_FILES {
        files.take(files.len() - KEPT_FILES)
    } else {
        Seq::empty()
    }
}

impl DaemonCore {
    /// Takes a fresh pre-buffer file in and hands out those to give up, oldest
    /// first. Two stay: the newest ones.
    pub fn keep_prebuffer_file(&mut self, file: u64) -> (r: Vec<u64>)
        ensures
            r@ == given_up(old(self).tasks.prebuffer_files@.push(file)),
            final(self).tasks.prebuffer_files@ == kept(old(self).tasks.prebuffer_files@.push(file)),
            *final(self) == (DaemonCore {
                tasks: Tasks {
                    prebuffer_files: final(self).tasks.prebuffer_files,
                    ..old(self).tasks
                },
                ..*old(self)
            }),
    {
        let mut files: Vec<u64> = Vec::new();
        for i in 0..self.tasks.prebuffer_files.len()
            invariant
                *self == *old(self),
                files@ == self.tasks.prebuffer_files@.take(i as int),
        {
            files.push(self.tasks.prebuffer_files[i]);
        }
        proof {
            let all = self.tasks.prebuffer_files@;
            assert(all.take(all.len() as int) =~= all);
        }
        files.push(file);
        let ghost all = files@;
        let mut dropped: Vec<u64> = Vec::new();
        proof {
            assert(all.skip(0) =~= all);
        }
        while files.len() > KEPT_FILES
            invariant
                dropped@.len() + files@.len() == all.len(),
                files@ == all.skip(dropped@.len() as int),
                dropped@ == all.take(dropped@.len() as int),
                dropped@.len() > 0 ==> files@.len() >= KEPT_FILES,
            decreases files@.len(),
        {
            let ghost n = dropped@.len() as int;
            let oldest = files.remove(0);
            dropped.push(oldest);
            proof {
                assert(all.take(n + 1) =~= all.take(n).push(all[n]));
                assert(files@ =~= all.skip(n + 1));
            }
        }
        self.tasks.prebuffer_files = files;
        proof {
            assert(all =~= old(self).tasks.prebuffer_files@.push(file));
            assert(files@ =~= kept(all));
            assert(dropped@ =~= given_up(all));
        }
        dropped
    }

    /// Decides what a pre-buffer task does next. A task that has been
    /// cancelled neither reads on nor loads.
    #[must_use]
    pub fn prebuffer_next(&self, task: u64, progress: Progress) -> (r: PrebufferStep)
        ensures
            r == next_step(progress, self.cancelled(task), self.tasks.shutdown),
    {
        let cancelled = self.tasks.prebuffer_cancel != Some(task);
        match progress {
            Progress::FetchFailed => PrebufferStep::FallBack,
            Progress::Fetched => PrebufferStep::OpenFile,
            Progress::OpenFailed => PrebufferStep::FallBack,
            Progress::Opened | Progress::ChunkWritten => if cancelled {
                PrebufferStep::Abandon
            } else if self.tasks.shutdown {
                PrebufferStep::End
            } else {
                PrebufferStep::ReadChunk
            },
            Progress::StreamTimedOut => PrebufferStep::FallBack,
            Progress::StreamFailed => PrebufferStep::FallBack,
            Progress::ChunkRead => PrebufferStep::WriteChunk,
            Progress::WriteFailed => PrebufferStep::FallBack,
            Progress::StreamEnded => if cancelled {
                PrebufferStep::Abandon
            } else {
                PrebufferStep::LoadPaused
            },
            Progress::LoadFailed => PrebufferStep::End,
            Progress::Loaded => if cancelled {
                PrebufferStep::Abandon
            } else {
                PrebufferStep::Settle
            },
            Progress::Settled => PrebufferStep::Preload,
            Progress::Preloaded => PrebufferStep::End,
        }
    }

    /// The task may still stream its track directly.
    pub open spec fn may_fall_back(self, task: u64) -> bool {
        !self.cancelled(task) && !self.tasks.shutdown
    }

    /// The commands of a direct fallback: none once the task has been
    /// cancelled or the daemon shuts down.
    pub fn fallback_direct_if_current(&self, task: u64, url: &str) -> (r: Option<Vec<MpvCommand>>)
        ensures
            r is Some <==> self.may_fall_back(task),
            r matches Some(c) ==> commands(c@) == seq![set_pause(false), load(url@, "replace"@)],
    {
        if self.tasks.prebuffer_cancel != Some(task) || self.tasks.shutdown {
            return None;
        }
        Some(MpvController::loadfile(url))
    }

    /// Takes over whether mpv took a load that a pre-buffer task made, of the
    /// finished file or as a fallback: one that it took counts as a new load,
    /// whose generation is returned.
    pub fn prebuffer_loaded(&mut self, taken: bool) -> (r: Option<u64>)
        ensures
            *final(self) == (if taken {
                old(self).stamped()
            } else {
                *old(self)
            }),
            r == (if taken {
                Some(final(self).tasks.loadfile_gen)
            } else {
                None
            }),
    {
        if taken {
            Some(self.stamp_loadfile())
        } else {
            None
        }
    }

    /// The core once `task` gave back its flag and its slot.
    pub open spec fn released(self, task: u64) -> DaemonCore {
        DaemonCore {
            tasks: Tasks {
                prebuffer_loading: cleared_flag(self.tasks.prebuffer_loading, task),
                prebuffer_cancel: vacated(self.tasks.prebuffer_cancel, task),
                ..self.tasks
            },
            ..self
        }
    }

    /// Ends a pre-buffer task. One that was abandoned leaves flag and slot to
    /// the newer task; any other clears its own flag and empties the slot if
    /// it still owns it.
    pub fn prebuffer_ended(&mut self, task: u64, abandoned: bool)
        ensures
            *final(self) == (if abandoned {
                *old(self)
            } else {
                old(self).released(task)
            }),
    {
        let mut gate = PrebufferGate::new(task);
        let mut cleaner = CancelSlotCleaner::new(task);
        if abandoned {
            gate.disarm();
            cleaner.disarm();
        }
        self.tasks.prebuffer_loading = gate.dropped(self.tasks.prebuffer_loading);
        self.tasks.prebuffer_cancel = cleaner.dropped(self.tasks.prebuffer_cancel);
    }

    /// Clears the loading flag of a task that never came to run: its file
    /// could not be created, or its dispatch was dropped before it took over.
    pub fn prebuffer_never_ran(&mut self, task: u64)
        ensures
            *final(self) == (DaemonCore {
                tasks: Tasks {
                    prebuffer_loading: cleared_flag(old(self).tasks.prebuffer_loading, task),
                    ..old(self).tasks
                },
                ..*old(self)
            }),
    {
        let owner = LoadingFlagOwner::new(task);
        self.tasks.prebuffer_loading = owner.dropped(self.tasks.prebuffer_loading);
    }
}

// ---------------------------------------------------------------------------
// Laws.
// ---------------------------------------------------------------------------

/// A cancelled task reads nothing more, loads nothing and lets nothing run,
/// whatever its download comes to, and its fallback sends nothing.
pub proof fn law_cancelled_task_never_loads(core: DaemonCore, task: u64, progress: Progress)
    requires
        core.cancelled(task),
    ensures
        next_step(progress, core.cancelled(task), core.tasks.shutdown) != PrebufferStep::ReadChunk,
        next_step(progress, core.cancelled(task), core.tasks.shutdown) != PrebufferStep::LoadPaused,
        next_step(progress, core.cancelled(task), core.tasks.shutdown) != PrebufferStep::Settle,
        !core.may_fall_back(task),
{
}

/// A download that broke never drops the track in silence: whatever else holds,
/// it comes to a fallback.
pub proof fn law_broken_download_falls_back(core: DaemonCore, task: u64, progress: Progress)
    requires
        download_broke(progress),
    ensures
        next_step(progress, core.cancelled(task), core.tasks.shutdown) == PrebufferStep::FallBack,
{
}

/// A direct dispatch, a pause, a stop and the end of the queue all cancel
/// whatever task was current, and a buffered dispatch cancels all but its own.
pub proof fn law_cancel_reaches_every_task(core: DaemonCore, task: u64)
    ensures
        core.without_prebuffer().cancelled(task),
        core.without_prebuffer().tasks.prebuffer_loading is None,
        core.buffering().cancelled(task) <==> task != core.tasks.next_task,
{
}

/// A load that a pre-buffer task made supersedes every settle that was current
/// before, and its own settle is current.
pub proof fn law_prebuffer_load_supersedes(core: DaemonCore, gen: u64)
    requires
        !core.superseded(gen),
    ensures
        core.stamped().superseded(gen),
        !core.stamped().superseded(core.stamped().tasks.loadfile_gen),
{
}

/// A task that was cancelled stays cancelled, whatever happens to the slot
/// afterwards: until its number comes round again it can never load.
pub proof fn law_cancelled_task_stays_cancelled(core: DaemonCore, task: u64, other: u64)
    requires
        core.cancelled(task),
        task != core.tasks.next_task,
    ensures
        core.buffering().cancelled(task),
        core.without_prebuffer().cancelled(task),
        core.released(other).cancelled(task),
{
}

/// No more files are kept than two, and the newest always is.
pub proof fn law_newest_files_are_kept(files: Seq<u64>, file: u64)
    ensures
        kept(files.push(file)).len() <= KEPT_FILES,
        kept(files.push(file)).last() == file,
        given_up(files.push(file)) + kept(files.push(file)) == files.push(file),
        files.len() > 0 ==> kept(files.push(file))[0] == files.last(),
{
    let all = files.push(file);
    assert(given_up(all) + kept(all) =~= all);
}

} // verus!

//! Settling the device rate in silence before a loaded track runs.
//!
//! A track is loaded paused. Its decoded rate is probed, the `PipeWire` graph
//! is re-clocked, and only then playback is let run. A newer load supersedes
//! the settle at every step.

use crate::audio::mpv::MpvController;
use crate::audio::mpv_protocol::{
    command_pair, commands, seek_command, set_pause, ArgView, MpvCommand,
};
use crate::audio::pipewire::{args_of, force_args};
use crate::binary64::Binary64;
use crate::daemon::engine::DaemonCore;
use crate::daemon::state::{described, AudioProps, DaemonState};
use vstd::prelude::*;

verus! {

/// How often the decoder is asked for the rate.
pub const PROBE_MAX_ITERS: u32 = 50;

/// The pause between two questions.
pub const PROBE_INTERVAL_MS: u64 = 30;

/// A settle for one load.
#[derive(Debug, Clone, Copy, PartialEq, Eq, Structural)]
pub struct Settle {
    /// The generation of the load.
    pub gen: u64,
    /// Seek here before playback runs.
    pub seek_after: Option<Binary64>,
}

/// What a settle does next.
#[derive(Debug, PartialEq, Eq)]
pub enum SettleStep {
    /// Ask the decoder; this is question number `look`.
    Probe { look: u32 },
    /// Pause, then go on with question number `look`.
    SleepThenProbe { ms: u64, look: u32 },
    /// The decoder has answered: re-clock for this.
    Reclock(AudioProps),
    /// Send what [`unpause_commands`](DaemonCore::unpause_commands) gives, one
    /// after the other whether or not the one before succeeded, and tell the
    /// clients.
    Unpause { seek: Option<Binary64> },
    /// Nothing.
    Stop,
}

/// How the graph is re-clocked for a track.
#[derive(Debug, PartialEq, Eq)]
pub struct Reclock {
    /// The arguments to run `pw-metadata` with; none where it is unavailable.
    pub args: Option<Vec<String>>,
    /// The rate really changes.
    pub changed: bool,
}

/// The commands that let a settled track run from `seek`.
pub open spec fn unpausing(seek: Option<Binary64>) -> Seq<Seq<ArgView>> {
    match seek {
        Some(at) => seq![seek_command(at, "absolute"@), set_pause(false)],
        None => seq![set_pause(false)],
    }
}

impl DaemonCore {
    /// True when a settle for load `gen` should abandon: shutting down, or a
    /// newer load has bumped the generation past `gen`.
    #[must_use]
    pub fn settle_superseded(&self, gen: u64) -> (r: bool)
        ensures
            r == self.superseded(gen),
    {
        self.tasks.shutdown || self.tasks.loadfile_gen != gen
    }

    /// Playing at `rate` makes the device change its rate.
    pub open spec fn rate_changes(self, rate: u32) -> bool {
        self.pipewire@.available && self.pipewire@.current != Some(rate)
    }

    /// The rate is known, or will not be: playback may run unless the load was
    /// superseded.
    pub open spec fn unpause_step(self, settle: Settle) -> SettleStep {
        if self.superseded(settle.gen) {
            SettleStep::Stop
        } else {
            SettleStep::Unpause { seek: settle.seek_after }
        }
    }

    /// The first step of a settle.
    pub open spec fn first_step(self, settle: Settle) -> SettleStep {
        if self.superseded(settle.gen) {
            SettleStep::Stop
        } else {
            SettleStep::Probe { look: 0 }
        }
    }

    /// The step that puts question number `look`.
    pub open spec fn question_step(self, settle: Settle, look: u32) -> SettleStep {
        if self.superseded(settle.gen) || look >= PROBE_MAX_ITERS {
            self.unpause_step(settle)
        } else {
            SettleStep::Probe { look }
        }
    }

    /// The step after the answer to question number `look`.
    pub open spec fn answer_step(self, settle: Settle, look: u32, props: AudioProps) -> SettleStep {
        if props.sample_rate is Some {
            if self.superseded(settle.gen) {
                SettleStep::Stop
            } else {
                SettleStep::Reclock(props)
            }
        } else if look + 1 < PROBE_MAX_ITERS {
            SettleStep::SleepThenProbe { ms: PROBE_INTERVAL_MS, look: (look + 1) as u32 }
        } else {
            self.unpause_step(settle)
        }
    }

    /// Begins a settle.
    pub fn settle_rate_then_unpause(&self, settle: Settle) -> (r: SettleStep)
        ensures
            r == self.first_step(settle),
    {
        if self.settle_superseded(settle.gen) {
            SettleStep::Stop
        } else {
            SettleStep::Probe { look: 0 }
        }
    }

    /// Goes on with question number `look`, after a pause.
    pub fn probe_audio_params(&self, settle: Settle, look: u32) -> (r: SettleStep)
        ensures
            r == self.question_step(settle, look),
    {
        if self.settle_superseded(settle.gen) || look >= PROBE_MAX_ITERS {
            self.settle_over(settle)
        } else {
            SettleStep::Probe { look }
        }
    }

    /// Takes over the decoder's answer to question number `look`. Without a
    /// rate the question is put again, a bounded number of times: a stream
    /// that never tells its rate is let run all the same.
    pub fn audio_params_probed(&self, settle: Settle, look: u32, props: AudioProps) -> (r:
        SettleStep)
        requires
            look < PROBE_MAX_ITERS,
        ensures
            r == self.answer_step(settle, look, props),
    {
        if props.sample_rate.is_some() {
            if self.settle_superseded(settle.gen) {
                SettleStep::Stop
            } else {
                SettleStep::Reclock(props)
            }
        } else if look + 1 < PROBE_MAX_ITERS {
            SettleStep::SleepThenProbe { ms: PROBE_INTERVAL_MS, look: look + 1 }
        } else {
            self.settle_over(settle)
        }
    }

    /// How to re-clock for `rate`; nothing once the load was superseded. The
    /// rate is always written again, so a change from outside cannot stay;
    /// only an actual change counts as one.
    pub fn settle_reclock(&self, settle: Settle, rate: u32) -> (r: Option<Reclock>)
        ensures
            match r {
                Some(c) => !self.superseded(settle.gen) && args_of(c.args) == (
                if self.pipewire@.available {
                    Some(force_args(rate as nat))
                } else {
                    None
                }) && c.changed == self.rate_changes(rate),
                None => self.superseded(settle.gen),
            },
    {
        if self.settle_superseded(settle.gen) {
            return None;
        }
        let changed = self.pipewire.is_available() && self.pipewire.get_current_rate() != Some(rate);
        Some(Reclock { args: self.pipewire.set_rate(rate), changed })
    }

    /// Notes what the decoder told and says how long to wait for the device:
    /// only after a change of rate.
    pub fn settle_reclocked(&mut self, props: AudioProps, changed: bool) -> (r: Option<u64>)
        ensures
            r == (if changed {
                Some(old(self).state.config.rate_switch_delay_ms as u64)
            } else {
                None
            }),
            *final(self) == old(self).with_props(props),
    {
        let delay: u64 = self.state.config.rate_switch_delay_ms as u64;
        self.note_audio_properties(props);
        if changed {
            Some(delay)
        } else {
            None
        }
    }

    /// The core with what the decoder told about the track.
    pub open spec fn with_props(self, props: AudioProps) -> DaemonCore {
        DaemonCore {
            state: DaemonState {
                now_playing: described(self.state.now_playing, props),
                ..self.state
            },
            ..self
        }
    }

    /// Notes what the decoder told about the track.
    pub fn note_audio_properties(&mut self, props: AudioProps)
        ensures
            *final(self) == old(self).with_props(props),
    {
        self.state.now_playing.sample_rate = props.sample_rate;
        self.state.now_playing.bit_depth = props.bit_depth;
        self.state.now_playing.format = props.format;
        self.state.now_playing.channels = props.channels;
    }

    /// Ends a settle: playback runs, unless the load was superseded.
    pub fn settle_over(&self, settle: Settle) -> (r: SettleStep)
        ensures
            r == self.unpause_step(settle),
    {
        if self.settle_superseded(settle.gen) {
            SettleStep::Stop
        } else {
            SettleStep::Unpause { seek: settle.seek_after }
        }
    }

    /// The commands that let a settled track run: an offset is sought first,
    /// while the track is still paused, so there is no audible jump.
    #[must_use]
    pub fn unpause_commands(seek: Option<Binary64>) -> (r: Vec<MpvCommand>)
        ensures
            commands(r@) == unpausing(seek),
    {
        match seek {
            Some(at) => command_pair(MpvController::seek(at), MpvController::resume()),
            None => {
                let r = vec![MpvController::resume()];
                proof {
                    assert(commands(r@) =~= unpausing(seek));
                }
                r
            },
        }
    }

    /// How to pin the graph for a track whose properties were fetched outside
    /// a settle: nothing where no rate is known yet, the rate always written
    /// again otherwise.
    pub fn fetch_audio_properties(&self, sample_rate: Option<u32>) -> (r: Option<
        Option<Vec<String>>,
    >)
        ensures
            match (sample_rate, r) {
                (Some(rate), Some(args)) => args_of(args) == (if self.pipewire@.available {
                    Some(force_args(rate as nat))
                } else {
                    None
                }),
                (None, None) => true,
                _ => false,
            },
    {
        match sample_rate {
            Some(rate) => Some(self.pipewire.set_rate(rate)),
            None => None,
        }
    }

    /// How to drop the rate pin when playback leaves `Playing`, so an idle
    /// daemon stops holding the device at the track's rate.
    pub fn release_pipewire_rate(&self) -> (r: Option<Vec<String>>)
        ensures
            args_of(r) == (if self.pipewire@.available {
                Some(force_args(0))
            } else {
                None
            }),
    {
        self.pipewire.clear_forced_rate()
    }
}

// ---------------------------------------------------------------------------
// Laws.
// ---------------------------------------------------------------------------

/// A superseded settle never lets playback run and never re-clocks, whichever
/// step it has come to.
pub proof fn law_superseded_settle_never_unpauses(
    core: DaemonCore,
    settle: Settle,
    look: u32,
    props: AudioProps,
)
    requires
        core.superseded(settle.gen),
    ensures
        core.first_step(settle) == SettleStep::Stop,
        core.question_step(settle, look) == SettleStep::Stop,
        core.answer_step(settle, look, props) !is Reclock,
        core.answer_step(settle, look, props) !is Unpause,
        core.unpause_step(settle) == SettleStep::Stop,
{
}

/// The core once `n` more loads were counted.
pub open spec fn stamped_times(core: DaemonCore, n: nat) -> DaemonCore
    decreases n,
{
    if n == 0 {
        core
    } else {
        stamped_times(core, (n - 1) as nat).stamped()
    }
}

proof fn lemma_stamped_times(core: DaemonCore, n: nat)
    ensures
        stamped_times(core, n).tasks.loadfile_gen as int == (core.tasks.loadfile_gen + n)
            % 0x1_0000_0000_0000_0000,
        stamped_times(core, n).tasks.shutdown == core.tasks.shutdown,
    decreases n,
{
    if n > 0 {
        lemma_stamped_times(core, (n - 1) as nat);
    }
}

/// A load is current right after it was made, and every later one supersedes
/// it: as long as the count has not gone all the way round, the settle of an
/// older load can never start the newer one's track.
pub proof fn law_later_loads_supersede(core: DaemonCore, n: nat)
    requires
        0 < n < 0x1_0000_0000_0000_0000,
    ensures
        stamped_times(core, n).superseded(core.tasks.loadfile_gen),
        !core.tasks.shutdown ==> !core.stamped().superseded(core.stamped().tasks.loadfile_gen),
{
    lemma_stamped_times(core, n);
}

/// How many questions follow question number `look` when no answer tells a
/// rate.
pub open spec fn questions_after(core: DaemonCore, settle: Settle, look: u32, silent: AudioProps) -> nat
    decreases PROBE_MAX_ITERS - look,
{
    match core.answer_step(settle, look, silent) {
        SettleStep::SleepThenProbe { ms: _, look: next } => if look < next <= PROBE_MAX_ITERS {
            1 + questions_after(core, settle, next, silent)
        } else {
            0
        },
        _ => 0,
    }
}

/// A decoder that never tells its rate is asked as often as the limit says and
/// no more; then playback runs, unless the load was superseded.
pub proof fn law_questions_are_bounded(
    core: DaemonCore,
    settle: Settle,
    look: u32,
    silent: AudioProps,
)
    requires
        look < PROBE_MAX_ITERS,
        silent.sample_rate is None,
    ensures
        look + 1 + questions_after(core, settle, look, silent) == PROBE_MAX_ITERS,
        core.answer_step(settle, (PROBE_MAX_ITERS - 1) as u32, silent) == core.unpause_step(settle),
    decreases PROBE_MAX_ITERS - look,
{
    if look + 1 < PROBE_MAX_ITERS {
        law_questions_are_bounded(core, settle, (look + 1) as u32, silent);
    }
}

} // verus!

//! mpv process ownership and JSON IPC control: the decisions.
//!
//! The driver owns the process, the socket and the reader task. It asks this
//! controller what to send, tells it what came back, and carries out what it
//! decides.

use crate::audio::error::AudioError;
use crate::audio::mpv_protocol::{
    as_flag, as_unsigned, bare_command, bit_depth, bit_depth_of, channels_label, channels_text,
    classify_event, command_pair, command_with, commands, event_is, flag_in, load, load_command,
    load_from, load_from_command, make_seek, mpv_allow_clip, parse_mpv_version, saturated_u32,
    saturated_usize, seek_command, set_pause, set_pause_command, set_property, set_property_command,
    text_arg, text_in, u32_sat, unsigned_in, usize_sat, version_of, version_view, ArgView, MpvArg,
    MpvCommand, MpvEvent, MpvEventKind, MpvValue,
};
use crate::binary64::{scaled_one, Binary64};
use crate::command::{push_arg, push_owned_arg, CommandLine, CommandLineView};
use crate::config::modes::{MacosAudioMode, ReplayGainMode};
use crate::config::settings::{validate_replay_gain_preamp, ConfigError};
use crate::counter::{after, bumped};
use crate::strings::{decimal, decimal_text, joined, texts};
use vstd::prelude::*;

verus! {

/// How many times the driver looks for the socket of a fresh mpv.
pub const SOCKET_LOOKS: u32 = 50;

/// How long a command may wait for its answer.
pub const COMMAND_DEADLINE_MS: u64 = 5_000;

/// What the driver knows of the mpv process that it owns.
#[derive(Debug, Clone, Copy, PartialEq, Eq, Structural)]
pub enum ChildLook {
    /// The process runs.
    Running,
    /// The process has exited and is reaped by the look itself.
    Exited,
    /// The process could not be asked.
    Unknown,
}

/// What starting mpv comes to.
#[derive(Debug, Clone, Copy, PartialEq, Eq, Structural)]
pub enum StartDecision {
    /// mpv runs and the connection is up.
    AlreadyUp,
    /// Start a new mpv; tear down what is left of an old one first where
    /// `tear_down` says so. A socket file found now belongs to another
    /// daemon's mpv, which is asked to quit before the file is removed.
    Spawn { tear_down: bool },
}

/// What the driver does after a look for the socket.
#[derive(Debug, Clone, Copy, PartialEq, Eq, Structural)]
pub enum SocketWait {
    /// Pause, then connect.
    SettleMs(u64),
    /// Pause, then look again.
    RetryMs(u64),
    /// Stop looking.
    GiveUp,
}

/// What a look at a running mpv comes to.
#[derive(Debug, Clone, Copy, PartialEq, Eq, Structural)]
pub struct RunningVerdict {
    /// The process and the connection are both alive.
    pub alive: bool,
    /// The reader task is to be aborted.
    pub abort_reader: bool,
    /// The process is to be killed and reaped.
    pub reap_child: bool,
}

/// A reply as mpv sends it.
#[derive(Debug, PartialEq, Eq)]
pub struct MpvResponse {
    pub request_id: Option<u64>,
    pub data: Option<MpvValue>,
    pub error: String,
}

/// What a line from mpv comes to.
pub enum Received {
    /// The request with this id is answered.
    Answer { id: u64, result: Result<Option<MpvValue>, AudioError> },
    /// An event for the subscribers.
    Event(MpvEventKind),
    /// Nothing for anybody.
    Nothing,
}

/// The state of the connection to mpv and the settings for its next start.
pub struct MpvController {
    socket_path: String,
    connected: bool,
    reading: bool,
    next_request: u64,
    pending: WaitingRequests,
    mpv_version: Option<(u16, u16)>,
    replaygain_mode: ReplayGainMode,
    replaygain_preamp: Gain,
    /// Our "prevent clipping" sense (`true` = prevent).
    replaygain_clip: bool,
    macos_audio_mode: MacosAudioMode,
}

/// A controller as mathematical values.
pub struct MpvView {
    /// Where the socket stands.
    pub socket_path: Seq<char>,
    /// Commands can be written.
    pub connected: bool,
    /// A reader task is attached.
    pub reading: bool,
    /// The id of the next request.
    pub next_request: u64,
    /// The requests that wait for their answer.
    pub pending: Set<u64>,
    /// The version of the connected mpv, where it is known.
    pub version: Option<(u16, u16)>,
    pub replaygain_mode: ReplayGainMode,
    pub replaygain_preamp: Binary64,
    pub prevent_clipping: bool,
    pub macos_audio_mode: MacosAudioMode,
}

impl View for MpvController {
    type V = MpvView;

    closed spec fn view(&self) -> MpvView {
        MpvView {
            socket_path: self.socket_path@,
            connected: self.connected,
            reading: self.reading,
            next_request: self.next_request,
            pending: self.pending@,
            version: self.mpv_version,
            replaygain_mode: self.replaygain_mode,
            replaygain_preamp: self.replaygain_preamp@,
            prevent_clipping: self.replaygain_clip,
            macos_audio_mode: self.macos_audio_mode,
        }
    }
}

/// A gain that mpv accepts: finite, and from -15 to 15 decibels.
pub open spec fn gain_in_range(gain: Binary64) -> bool {
    gain.finite() && -15 * scaled_one() <= gain.scaled() <= 15 * scaled_one()
}

/// `gain` limited to the range from -15 to 15 decibels.
pub open spec fn gain_clamped(gain: Binary64, r: Binary64) -> bool {
    &&& gain.below(-15) ==> r.bits == crate::binary64::MINUS_FIFTEEN
    &&& gain.above(15) ==> r.bits == crate::binary64::FIFTEEN
    &&& !gain.below(-15) && !gain.above(15) ==> r == gain
    &&& gain_in_range(r)
}

/// A gain that mpv accepts.
#[derive(Debug, Clone, Copy)]
pub struct Gain {
    decibels: Binary64,
}

impl View for Gain {
    type V = Binary64;

    closed spec fn view(&self) -> Binary64 {
        self.decibels
    }
}

impl Gain {
    #[verifier::type_invariant]
    spec fn in_range(self) -> bool {
        gain_in_range(self.decibels)
    }

    /// No gain.
    #[must_use]
    pub fn zero() -> (r: Gain)
        ensures
            r@.bits == 0,
    {
        let decibels = Binary64::zero();
        proof {
            vstd::arithmetic::power2::lemma_pow2_pos(1074);
        }
        Gain { decibels }
    }

    /// `decibels` limited to mpv's range.
    #[must_use]
    pub fn clamped(decibels: Binary64) -> (r: Gain)
        requires
            decibels.finite(),
        ensures
            gain_clamped(decibels, r@),
    {
        Gain { decibels: decibels.clamp_to_fifteen() }
    }

    /// The gain in decibels, always in mpv's range.
    #[must_use]
    pub fn get(self) -> (r: Binary64)
        ensures
            r == self@,
            gain_in_range(r),
    {
        proof {
            use_type_invariant(&self);
        }
        self.decibels
    }
}

/// The version takes the insertion index of `loadfile`; an unknown one is
/// taken to be recent.
pub open spec fn takes_index(version: Option<(u16, u16)>) -> bool {
    match version {
        None => true,
        Some((major, minor)) => major > 0 || minor >= 38,
    }
}

/// The arguments of a new mpv. `preamp_text` is the gain in decimal.
pub open spec fn startup_arguments(v: MpvView, preamp_text: Seq<char>) -> Seq<Seq<char>> {
    seq![
        "--idle"@,
        "--no-video"@,
        "--no-terminal"@,
        "--audio-client-name=ferrosonic"@,
        "--gapless-audio=yes"@,
        "--prefetch-playlist=yes"@,
        "--cache=yes"@,
        "--cache-secs=120"@,
        "--demuxer-max-bytes=100MiB"@,
        "--cache-pause-initial=no"@,
        "--cache-pause=no"@,
        "--replaygain="@ + v.replaygain_mode.mpv_text(),
        "--replaygain-preamp="@ + preamp_text,
        "--replaygain-clip="@ + (if v.prevent_clipping {
            "no"@
        } else {
            "yes"@
        }),
    ] + (match v.macos_audio_mode.argument() {
        Some(arg) => seq![arg],
        None => Seq::empty(),
    }) + seq!["--input-ipc-server="@ + v.socket_path]
}

/// The text of a timeout.
pub open spec fn timeout_text(id: u64) -> Seq<char> {
    "mpv command timeout after 5s (req "@ + decimal(id as nat) + ")"@
}

/// The waiting request that `resp` answers, if it answers one.
pub open spec fn answered(v: MpvView, resp: Option<MpvResponse>) -> Option<u64> {
    match resp {
        Some(r) => match r.request_id {
            Some(id) => if v.pending.contains(id) {
                Some(id)
            } else {
                None
            },
            None => None,
        },
        None => None,
    }
}

/// The controller once `resp` was received.
pub open spec fn received(v: MpvView, resp: Option<MpvResponse>) -> MpvView {
    match answered(v, resp) {
        Some(id) => MpvView { pending: v.pending.remove(id), ..v },
        None => v,
    }
}

/// The controller once a request was begun.
pub open spec fn requested(v: MpvView) -> MpvView {
    MpvView {
        next_request: after(v.next_request),
        pending: if v.connected {
            v.pending.insert(v.next_request)
        } else {
            v.pending
        },
        ..v
    }
}

/// Every waiting request was begun before the next one.
pub open spec fn ids_are_past(v: MpvView) -> bool {
    forall|id: u64| #[trigger] v.pending.contains(id) ==> id < v.next_request
}

/// What the answer `resp` gives to the request that it belongs to.
pub open spec fn answer_is(resp: MpvResponse, result: Result<Option<MpvValue>, AudioError>) -> bool {
    if resp.error@ == "success"@ {
        result == Ok::<Option<MpvValue>, AudioError>(resp.data)
    } else {
        result == Err::<Option<MpvValue>, AudioError>(AudioError::MpvIpc(resp.error))
    }
}

/// The requests that wait for their answer, each once.
struct WaitingRequests {
    ids: Vec<u64>,
}

impl View for WaitingRequests {
    type V = Set<u64>;

    closed spec fn view(&self) -> Set<u64> {
        self.ids@.to_set()
    }
}

impl WaitingRequests {
    #[verifier::type_invariant]
    spec fn each_once(self) -> bool {
        self.ids@.no_duplicates()
    }

    fn none() -> (r: Self)
        ensures
            r@ == Set::<u64>::empty(),
    {
        let r = WaitingRequests { ids: Vec::new() };
        proof {
            assert(r@ =~= Set::<u64>::empty());
        }
        r
    }

    fn holds(&self, id: u64) -> (r: bool)
        ensures
            r == self@.contains(id),
    {
        for i in 0..self.ids.len()
            invariant
                forall|k: int| 0 <= k < i ==> self.ids@[k] != id,
        {
            if self.ids[i] == id {
                return true;
            }
        }
        false
    }

    /// Takes `id` off, where it waits.
    fn remove(&mut self, id: u64)
        ensures
            final(self)@ == old(self)@.remove(id),
    {
        proof {
            use_type_invariant(&*self);
        }
        let ghost before = self.ids@;
        let mut kept: Vec<u64> = Vec::new();
        for i in 0..self.ids.len()
            invariant
                self.ids@ == before,
                before.no_duplicates(),
                kept@.no_duplicates(),
                forall|x: u64| #[trigger]
                    kept@.contains(x) <==> before.take(i as int).contains(x) && x != id,
        {
            let ghost was = kept@;
            proof {
                lemma_contains_push(before.take(i as int), before[i as int]);
                assert(before.take(i as int + 1) =~= before.take(i as int).push(before[i as int]));
                assert(!before.take(i as int).contains(before[i as int]));
            }
            if self.ids[i] != id {
                kept.push(self.ids[i]);
                proof {
                    lemma_contains_push(was, before[i as int]);
                }
            }
        }
        proof {
            assert(before.take(before.len() as int) =~= before);
            assert(kept@.to_set() =~= before.to_set().remove(id)) by {
                assert forall|x: u64|
                    kept@.to_set().contains(x) <==> before.to_set().remove(id).contains(x) by {
                    assert(kept@.contains(x) <==> before.contains(x) && x != id);
                }
            }
        }
        *self = WaitingRequests { ids: kept };
    }

    /// Lets `id` wait, once.
    fn insert(&mut self, id: u64)
        ensures
            final(self)@ == old(self)@.insert(id),
    {
        if self.holds(id) {
            proof {
                assert(self@.insert(id) =~= self@);
            }
            return;
        }
        proof {
            use_type_invariant(&*self);
        }
        let mut ids = self.copied();
        ids.push(id);
        proof {
            lemma_contains_push(self.ids@, id);
            assert(ids@.to_set() =~= self.ids@.to_set().insert(id));
        }
        *self = WaitingRequests { ids };
    }

    fn copied(&self) -> (r: Vec<u64>)
        ensures
            r@ == self.ids@,
    {
        let mut ids: Vec<u64> = Vec::new();
        for i in 0..self.ids.len()
            invariant
                ids@ == self.ids@.take(i as int),
        {
            ids.push(self.ids[i]);
        }
        proof {
            assert(self.ids@.take(self.ids@.len() as int) =~= self.ids@);
        }
        ids
    }

    /// Hands all of them out, each once.
    fn drain(&mut self) -> (r: Vec<u64>)
        ensures
            r@.no_duplicates(),
            r@.to_set() == old(self)@,
            final(self)@ == Set::<u64>::empty(),
    {
        proof {
            use_type_invariant(&*self);
        }
        let ids = self.copied();
        *self = WaitingRequests::none();
        ids
    }
}

proof fn lemma_contains_push(s: Seq<u64>, last: u64)
    ensures
        forall|x: u64| #[trigger] s.push(last).contains(x) <==> s.contains(x) || x == last,
        s.no_duplicates() && !s.contains(last) ==> s.push(last).no_duplicates(),
{
    assert forall|x: u64| #[trigger] s.push(last).contains(x) <==> s.contains(x) || x == last by {
        if s.contains(x) {
            let k = choose|k: int| 0 <= k < s.len() && s[k] == x;
            assert(s.push(last)[k] == x);
        }
        if x == last {
            assert(s.push(last)[s.len() as int] == x);
        }
    }
}

impl MpvController {
    /// Point the controller at a specific socket path. Does not spawn mpv or
    /// connect.
    #[must_use]
    pub fn with_socket_path(socket_path: String) -> (r: Self)
        ensures
            r@.socket_path == socket_path@,
            !r@.connected,
            !r@.reading,
            r@.next_request == 1,
            r@.pending == Set::<u64>::empty(),
            r@.version is None,
            r@.replaygain_mode == ReplayGainMode::Off,
            r@.replaygain_preamp.bits == 0,
            !r@.prevent_clipping,
            r@.macos_audio_mode == MacosAudioMode::Off,
    {
        MpvController {
            socket_path,
            connected: false,
            reading: false,
            next_request: 1,
            pending: WaitingRequests::none(),
            mpv_version: None,
            replaygain_mode: ReplayGainMode::Off,
            replaygain_preamp: Gain::zero(),
            replaygain_clip: false,
            macos_audio_mode: MacosAudioMode::Off,
        }
    }

    /// Where the socket stands.
    #[must_use]
    pub fn socket_path(&self) -> (r: &str)
        ensures
            r@ == self@.socket_path,
    {
        self.socket_path.as_str()
    }

    /// The gain that the next mpv starts with, always in mpv's range.
    #[must_use]
    pub fn replaygain_preamp(&self) -> (r: Binary64)
        ensures
            r == self@.replaygain_preamp,
            gain_in_range(r),
    {
        self.replaygain_preamp.get()
    }

    /// Set the `ReplayGain` args used by the next start, without touching a
    /// live connection. A finite gain is clamped; a gain that is not finite
    /// leaves the last valid one unchanged.
    pub fn set_replaygain_startup(&mut self, mode: ReplayGainMode, preamp: Binary64, clip: bool)
        ensures
            final(self)@ == (MpvView {
                replaygain_mode: mode,
                replaygain_preamp: final(self)@.replaygain_preamp,
                prevent_clipping: clip,
                ..old(self)@
            }),
            if preamp.finite() {
                gain_clamped(preamp, final(self)@.replaygain_preamp)
            } else {
                final(self)@.replaygain_preamp == old(self)@.replaygain_preamp
            },
    {
        self.replaygain_mode = mode;
        if preamp.is_finite() {
            self.replaygain_preamp = Gain::clamped(preamp);
        }
        self.replaygain_clip = clip;
    }

    /// Set the macOS `CoreAudio` output mode used by the next start.
    pub fn set_macos_audio_mode_startup(&mut self, mode: MacosAudioMode)
        ensures
            final(self)@ == (MpvView { macos_audio_mode: mode, ..old(self)@ }),
    {
        self.macos_audio_mode = mode;
    }

    /// `(major, minor)` of the connected mpv, or `None` if not yet probed.
    #[must_use]
    pub fn mpv_version(&self) -> (r: Option<(u16, u16)>)
        ensures
            r == self@.version,
    {
        self.mpv_version
    }

    /// Whether the connected mpv supports the 0.38+ 5-arg `loadfile` insertion
    /// index (and thus the `start=` decode-from-offset form). Unknown version
    /// is treated as capable, since modern mpv is the common case.
    #[must_use]
    pub fn supports_loadfile_index(&self) -> (r: bool)
        ensures
            r == takes_index(self@.version),
    {
        match self.mpv_version {
            None => true,
            Some((major, minor)) => major > 0 || minor >= 38,
        }
    }

    /// Takes over the answer to the version probe. A probe that fails, or
    /// answers with no text or a text without a version, leaves it unknown.
    pub fn version_probed(&mut self, answer: Result<Option<MpvValue>, AudioError>)
        ensures
            final(self)@ == (MpvView { version: final(self)@.version, ..old(self)@ }),
            version_view(final(self)@.version) == (match answer {
                Ok(data) => match text_in(data) {
                    Some(text) => version_of(text),
                    None => None,
                },
                Err(_) => None,
            }),
    {
        self.mpv_version = match answer {
            Ok(Some(MpvValue::Text(s))) => parse_mpv_version(s.as_str()),
            _ => None,
        };
    }

    /// Decides what starting mpv comes to, from what is known of the process
    /// that is owned, if one is. A live process without a connection is
    /// replaced, not kept: no command could ever reach it.
    pub fn start(&self, child: Option<ChildLook>) -> (r: StartDecision)
        ensures
            r == (if child == Some(ChildLook::Running) && self@.connected {
                StartDecision::AlreadyUp
            } else {
                StartDecision::Spawn { tear_down: child is Some || self@.connected }
            }),
    {
        match child {
            Some(ChildLook::Running) if self.connected => StartDecision::AlreadyUp,
            Some(_) => StartDecision::Spawn { tear_down: true },
            None => StartDecision::Spawn { tear_down: self.connected },
        }
    }

    /// The command line of a new mpv. `preamp_text` is the gain in decimal.
    pub fn startup_command(&self, preamp_text: &str) -> (r: CommandLine)
        ensures
            r@ == (CommandLineView {
                program: "mpv"@,
                args: startup_arguments(self@, preamp_text@),
            }),
    {
        let mut args: Vec<String> = Vec::new();
        push_arg(&mut args, "--idle");
        push_arg(&mut args, "--no-video");
        push_arg(&mut args, "--no-terminal");
        push_arg(&mut args, "--audio-client-name=ferrosonic");
        push_arg(&mut args, "--gapless-audio=yes");
        push_arg(&mut args, "--prefetch-playlist=yes");
        push_arg(&mut args, "--cache=yes");
        push_arg(&mut args, "--cache-secs=120");
        push_arg(&mut args, "--demuxer-max-bytes=100MiB");
        push_arg(&mut args, "--cache-pause-initial=no");
        push_arg(&mut args, "--cache-pause=no");
        push_owned_arg(&mut args, joined("--replaygain=", self.replaygain_mode.mpv_value()));
        push_owned_arg(&mut args, joined("--replaygain-preamp=", preamp_text));
        let clip = if mpv_allow_clip(self.replaygain_clip) {
            "yes"
        } else {
            "no"
        };
        push_owned_arg(&mut args, joined("--replaygain-clip=", clip));
        if let Some(arg) = self.macos_audio_mode.mpv_arg() {
            push_arg(&mut args, arg);
        }
        push_owned_arg(&mut args, joined("--input-ipc-server=", self.socket_path.as_str()));
        proof {
            assert(texts(args@) =~= startup_arguments(self@, preamp_text@));
        }
        CommandLine { program: "mpv".to_owned(), args }
    }

    /// Decides what follows look number `look` for the socket of a fresh mpv.
    pub fn wait_for_socket(look: u32, exists: bool) -> (r: SocketWait)
        ensures
            r == (if look >= SOCKET_LOOKS {
                SocketWait::GiveUp
            } else if exists {
                SocketWait::SettleMs(50)
            } else {
                SocketWait::RetryMs(100)
            }),
    {
        if look >= SOCKET_LOOKS {
            SocketWait::GiveUp
        } else if exists {
            SocketWait::SettleMs(50)
        } else {
            SocketWait::RetryMs(100)
        }
    }

    /// Whether the wait for the socket ended well.
    ///
    /// # Errors
    /// `MpvIpc` where the socket is not there.
    pub fn socket_ready(exists: bool) -> (r: Result<(), AudioError>)
        ensures
            exists ==> r is Ok,
            !exists ==> (r matches Err(AudioError::MpvIpc(m)) && m@ == "Socket not created"@),
    {
        if exists {
            Ok(())
        } else {
            Err(AudioError::MpvIpc("Socket not created".to_owned()))
        }
    }

    /// Whether a listening socket can be connected to.
    ///
    /// # Errors
    /// `MpvIpc` where the socket is not there.
    pub fn connect_to_existing(&self, exists: bool) -> (r: Result<(), AudioError>)
        ensures
            exists ==> r is Ok,
            !exists ==> (r matches Err(AudioError::MpvIpc(m)) && m@ == "Socket "@
                + self@.socket_path + " does not exist"@),
    {
        if exists {
            Ok(())
        } else {
            let mut message = joined("Socket ", self.socket_path.as_str());
            message.append(" does not exist");
            Err(AudioError::MpvIpc(message))
        }
    }

    /// Drops the connection and hands out the requests that were waiting, once
    /// each; every one fails with "connection reset". The process is left alone.
    pub fn reset_ipc(&mut self) -> (r: Vec<u64>)
        ensures
            r@.no_duplicates(),
            r@.to_set() == old(self)@.pending,
            final(self)@ == (MpvView {
                connected: false,
                reading: false,
                pending: Set::empty(),
                ..old(self)@
            }),
    {
        let waiting = self.pending.drain();
        self.connected = false;
        self.reading = false;
        waiting
    }

    /// How a request fails that waits while the connection is dropped.
    pub fn connection_reset() -> (r: AudioError)
        ensures
            r matches AudioError::MpvIpc(m) && m@ == "connection reset"@,
    {
        AudioError::MpvIpc("connection reset".to_owned())
    }

    /// How a request fails whose reader ended before the answer came.
    pub fn reader_ended() -> (r: AudioError)
        ensures
            r matches AudioError::MpvIpc(m) && m@ == "reader task ended"@,
    {
        AudioError::MpvIpc("reader task ended".to_owned())
    }

    /// Notes that the socket is connected and a reader attached.
    pub fn connected(&mut self)
        ensures
            final(self)@ == (MpvView { connected: true, reading: true, ..old(self)@ }),
    {
        self.connected = true;
        self.reading = true;
    }

    /// Whether an owned process has to be killed before it is let go. One that
    /// has exited is already reaped.
    pub fn reap_child(child: ChildLook) -> (kill: bool)
        ensures
            kill == (child != ChildLook::Exited),
    {
        !matches!(child, ChildLook::Exited)
    }

    /// Whether the connection and the process are both alive; clears dead
    /// state as a side effect. `reader_finished` says whether the attached
    /// reader has ended, `child` what is known of the owned process.
    pub fn is_running(&mut self, reader_finished: bool, child: Option<ChildLook>) -> (r:
        RunningVerdict)
        ensures
            r.alive == (old(self)@.connected && !(old(self)@.reading && reader_finished) && (
            child is None || child == Some(ChildLook::Running))),
            r.reap_child == (old(self)@.connected && !r.alive),
            r.abort_reader == (r.reap_child && old(self)@.reading && !reader_finished),
            final(self)@ == (if r.reap_child {
                MpvView { connected: false, reading: false, ..old(self)@ }
            } else {
                old(self)@
            }),
    {
        if !self.connected {
            return RunningVerdict { alive: false, abort_reader: false, reap_child: false };
        }
        if self.reading && reader_finished {
            self.connected = false;
            self.reading = false;
            return RunningVerdict { alive: false, abort_reader: false, reap_child: true };
        }
        let alive = match child {
            None => true,
            Some(ChildLook::Running) => true,
            Some(_) => false,
        };
        if alive {
            RunningVerdict { alive: true, abort_reader: false, reap_child: false }
        } else {
            let abort_reader = self.reading;
            self.connected = false;
            self.reading = false;
            RunningVerdict { alive: false, abort_reader, reap_child: true }
        }
    }

    /// Begins a request: its id, under which it now waits for its answer.
    ///
    /// # Errors
    /// `MpvNotRunning` without a connection; the id is used up all the same.
    pub fn send_command(&mut self) -> (r: Result<u64, AudioError>)
        ensures
            r == (if old(self)@.connected {
                Ok(old(self)@.next_request)
            } else {
                Err(AudioError::MpvNotRunning)
            }),
            final(self)@ == requested(old(self)@),
    {
        let id = self.next_request;
        self.next_request = bumped(id);
        if !self.connected {
            return Err(AudioError::MpvNotRunning);
        }
        self.pending.insert(id);
        Ok(id)
    }

    /// Gives up a request that could not be written.
    pub fn write_failed(&mut self, id: u64, reason: String) -> (r: AudioError)
        ensures
            r == AudioError::MpvIpc(reason),
            final(self)@ == (MpvView { pending: old(self)@.pending.remove(id), ..old(self)@ }),
    {
        self.pending.remove(id);
        AudioError::MpvIpc(reason)
    }

    /// Gives up a request whose answer did not come in time.
    pub fn timed_out(&mut self, id: u64) -> (r: AudioError)
        ensures
            r matches AudioError::MpvIpc(m) && m@ == timeout_text(id),
            final(self)@ == (MpvView { pending: old(self)@.pending.remove(id), ..old(self)@ }),
    {
        self.pending.remove(id);
        let mut message = joined("mpv command timeout after 5s (req ", decimal_text(id).as_str());
        message.append(")");
        AudioError::MpvIpc(message)
    }

    /// Sorts a line from mpv, given how it reads as a reply and how it reads
    /// as an event. A reply to a waiting request answers it and nothing else;
    /// any other line counts only as an event.
    pub fn receive(&mut self, resp: Option<MpvResponse>, event: Option<MpvEvent>) -> (r: Received)
        ensures
            final(self)@ == received(old(self)@, resp),
            match answered(old(self)@, resp) {
                Some(id) => r matches Received::Answer { id: to, result } && to == id && answer_is(
                    resp->0,
                    result,
                ),
                None => match event {
                    Some(e) => r matches Received::Event(kind) && event_is(
                        e.event@,
                        e.reason,
                        kind,
                    ),
                    None => r is Nothing,
                },
            },
    {
        if let Some(resp) = resp {
            if let Some(id) = resp.request_id {
                if self.pending.holds(id) {
                    self.pending.remove(id);
                    let ok = crate::strings::same_text(resp.error.as_str(), "success");
                    let result = if ok {
                        Ok(resp.data)
                    } else {
                        Err(AudioError::MpvIpc(resp.error))
                    };
                    return Received::Answer { id, result };
                }
            }
        }
        match event {
            Some(e) => Received::Event(classify_event(&e)),
            None => Received::Nothing,
        }
    }

    // -- Commands. Where several are handed out, each is sent once the one
    // -- before it has succeeded.

    /// Replace the playlist with `path` and start playing it. mpv keeps
    /// `pause` across a load, so it is cleared first.
    pub fn loadfile(path: &str) -> (r: Vec<MpvCommand>)
        ensures
            commands(r@) == seq![set_pause(false), load(path@, "replace"@)],
    {
        command_pair(set_pause_command(false), load_command(path, "replace"))
    }

    /// Replace the playlist with `path` and begin playback at `start`.
    pub fn loadfile_at(path: &str, start: Binary64) -> (r: MpvCommand)
        ensures
            r@ == load_from(path@, start),
    {
        load_from_command(path, start)
    }

    /// Replace the playlist with `path` and load it paused.
    pub fn loadfile_paused(path: &str) -> (r: Vec<MpvCommand>)
        ensures
            commands(r@) == seq![set_pause(true), load(path@, "replace"@)],
    {
        command_pair(set_pause_command(true), load_command(path, "replace"))
    }

    /// Like [`loadfile_paused`](Self::loadfile_paused) but decoding begins at
    /// `start`.
    pub fn loadfile_at_paused(path: &str, start: Binary64) -> (r: Vec<MpvCommand>)
        ensures
            commands(r@) == seq![set_pause(true), load_from(path@, start)],
    {
        command_pair(set_pause_command(true), load_from_command(path, start))
    }

    /// Append `path` to the playlist without interrupting playback.
    pub fn loadfile_append(path: &str) -> (r: MpvCommand)
        ensures
            r@ == load(path@, "append"@),
    {
        load_command(path, "append")
    }

    /// Remove the playlist entry at `index`.
    pub fn playlist_remove(index: usize) -> (r: MpvCommand)
        ensures
            r@ == seq![ArgView::Text("playlist-remove"@), ArgView::Int(index as int)],
    {
        command_with("playlist-remove", MpvArg::Unsigned(index as u64))
    }

    /// Advance to the next playlist entry, forcing past the last one.
    pub fn playlist_next() -> (r: MpvCommand)
        ensures
            r@ == seq![ArgView::Text("playlist-next"@), ArgView::Text("force"@)],
    {
        command_with("playlist-next", text_arg("force"))
    }

    /// Pause playback. Idempotent if already paused.
    pub fn pause() -> (r: MpvCommand)
        ensures
            r@ == set_pause(true),
    {
        set_pause_command(true)
    }

    /// Resume playback. Idempotent if already playing.
    pub fn resume() -> (r: MpvCommand)
        ensures
            r@ == set_pause(false),
    {
        set_pause_command(false)
    }

    /// Flip the pause state from `paused`: the command to send, and whether
    /// playback is paused once it has succeeded.
    pub fn toggle_pause(paused: bool) -> (r: (MpvCommand, bool))
        ensures
            r.0@ == set_pause(!paused),
            r.1 == !paused,
    {
        if paused {
            (Self::resume(), !paused)
        } else {
            (Self::pause(), !paused)
        }
    }

    /// Stop playback and unload the current file.
    pub fn stop() -> (r: MpvCommand)
        ensures
            r@ == seq![ArgView::Text("stop"@)],
    {
        bare_command("stop")
    }

    /// Seek to an absolute position in seconds.
    pub fn seek(position: Binary64) -> (r: MpvCommand)
        ensures
            r@ == seek_command(position, "absolute"@),
    {
        make_seek(position, "absolute")
    }

    /// Seek by a signed offset in seconds from the current position.
    pub fn seek_relative(offset: Binary64) -> (r: MpvCommand)
        ensures
            r@ == seek_command(offset, "relative"@),
    {
        make_seek(offset, "relative")
    }

    /// Set playback volume, clamped to 0-100.
    pub fn set_volume(volume: i32) -> (r: MpvCommand)
        ensures
            r@ == set_property("volume"@, ArgView::Int(clamped_volume(volume) as int)),
    {
        set_property_command("volume", MpvArg::Int(clamp_volume(volume) as i64))
    }

    /// Push the `ReplayGain` mode live. Also stores the value so a respawned
    /// mpv restarts with it.
    pub fn set_replaygain_mode(&mut self, mode: ReplayGainMode) -> (r: MpvCommand)
        ensures
            r@ == set_property("replaygain"@, ArgView::Text(mode.mpv_text())),
            final(self)@ == (MpvView { replaygain_mode: mode, ..old(self)@ }),
    {
        self.replaygain_mode = mode;
        set_property_command("replaygain", text_arg(mode.mpv_value()))
    }

    /// Push the `ReplayGain` preamp (dB) live, clamped to mpv's range.
    ///
    /// # Errors
    /// `InvalidValue` for a gain that is not finite, which changes nothing.
    pub fn set_replaygain_preamp(&mut self, preamp: Binary64) -> (r: Result<
        MpvCommand,
        ConfigError,
    >)
        ensures
            r is Ok <==> preamp.finite(),
            match r {
                Ok(c) => {
                    &&& gain_clamped(preamp, final(self)@.replaygain_preamp)
                    &&& c@ == set_property(
                        "replaygain-preamp"@,
                        ArgView::Double(final(self)@.replaygain_preamp),
                    )
                    &&& final(self)@ == (MpvView {
                        replaygain_preamp: final(self)@.replaygain_preamp,
                        ..old(self)@
                    })
                },
                Err(e) => {
                    &&& e is InvalidValue
                    &&& e->InvalidValue_field@ == "ReplayGainPreamp"@
                    &&& e->InvalidValue_reason@ == "must be finite"@
                    &&& final(self)@ == old(self)@
                },
            },
    {
        match validate_replay_gain_preamp(preamp) {
            Ok(()) => {},
            Err(e) => {
                return Err(e);
            },
        }
        let gain = Gain::clamped(preamp);
        self.replaygain_preamp = gain;
        Ok(set_property_command("replaygain-preamp", MpvArg::Double(gain.get())))
    }

    /// Push the `ReplayGain` clipping-prevention toggle live. `clip` is our
    /// "prevent clipping" sense.
    pub fn set_replaygain_clip(&mut self, clip: bool) -> (r: MpvCommand)
        ensures
            r@ == set_property("replaygain-clip"@, ArgView::Flag(!clip)),
            final(self)@ == (MpvView { prevent_clipping: clip, ..old(self)@ }),
    {
        self.replaygain_clip = clip;
        set_property_command("replaygain-clip", MpvArg::Flag(mpv_allow_clip(clip)))
    }

    /// Ask mpv to quit, where it can be asked; the process is then killed and
    /// the socket removed in any case.
    pub fn quit(&self) -> (r: Option<MpvCommand>)
        ensures
            r is Some <==> self@.connected,
            r matches Some(c) ==> c@ == seq![ArgView::Text("quit"@)],
    {
        if self.connected {
            Some(bare_command("quit"))
        } else {
            None
        }
    }

    /// Drops the connection for good. Waiting requests are left to their
    /// deadlines.
    pub fn shutdown_sync(&mut self)
        ensures
            final(self)@ == (MpvView { connected: false, reading: false, ..old(self)@ }),
    {
        self.connected = false;
        self.reading = false;
    }

    // -- What the answers to queries mean.

    /// Current playlist position, or `None` when nothing is loaded.
    pub fn get_playlist_pos(data: Option<MpvValue>) -> (r: Option<i64>)
        ensures
            r == (match data {
                Some(MpvValue::Number { signed, .. }) => signed,
                _ => None,
            }),
    {
        match data {
            Some(MpvValue::Number { signed, .. }) => signed,
            _ => None,
        }
    }

    /// Number of playlist entries; 0 when unavailable.
    pub fn get_playlist_count(data: Option<MpvValue>) -> (r: usize)
        ensures
            r == (match unsigned_in(data) {
                Some(n) => saturated_usize(n),
                None => 0,
            }),
    {
        match as_unsigned(&data) {
            Some(n) => usize_sat(n),
            None => 0,
        }
    }

    /// Whether playback is currently paused; `false` when unknown.
    pub fn is_paused(data: Option<MpvValue>) -> (r: bool)
        ensures
            r == (flag_in(data) == Some(true)),
    {
        match as_flag(&data) {
            Some(b) => b,
            None => false,
        }
    }

    /// Whether mpv reports idle (nothing loaded); `true` when unknown.
    pub fn is_idle(data: Option<MpvValue>) -> (r: bool)
        ensures
            r == (flag_in(data) != Some(false)),
    {
        match as_flag(&data) {
            Some(b) => b,
            None => true,
        }
    }

    /// Playback position in seconds; zero when unknown.
    pub fn get_time_pos(data: Option<MpvValue>) -> (r: Binary64)
        ensures
            r == double_or_zero(data),
    {
        match data {
            Some(MpvValue::Number { double: Some(d), .. }) => d,
            _ => Binary64::zero(),
        }
    }

    /// Track duration in seconds; zero when unknown.
    pub fn get_duration(data: Option<MpvValue>) -> (r: Binary64)
        ensures
            r == double_or_zero(data),
    {
        match data {
            Some(MpvValue::Number { double: Some(d), .. }) => d,
            _ => Binary64::zero(),
        }
    }

    /// Decoded sample rate in Hz of the playing track.
    pub fn get_sample_rate(data: Option<MpvValue>) -> (r: Option<u32>)
        ensures
            r == (match unsigned_in(data) {
                Some(n) => Some(saturated_u32(n)),
                None => None,
            }),
    {
        match as_unsigned(&data) {
            Some(n) => Some(u32_sat(n)),
            None => None,
        }
    }

    /// Bit depth inferred from mpv's audio format string.
    pub fn get_bit_depth(data: &Option<MpvValue>) -> (r: Option<u32>)
        ensures
            r == (match text_in(*data) {
                Some(format) => bit_depth_of(format),
                None => None,
            }),
    {
        match data {
            Some(MpvValue::Text(s)) => bit_depth(s.as_str()),
            _ => None,
        }
    }

    /// Raw mpv audio format string, e.g. `"s32"` or `"floatp"`.
    pub fn get_audio_format(data: Option<MpvValue>) -> (r: Option<String>)
        ensures
            crate::strings::text_of(r) == text_in(data),
    {
        match data {
            Some(MpvValue::Text(s)) => Some(s),
            _ => None,
        }
    }

    /// Channel layout label, e.g. `"Stereo"` or `"5ch"`.
    pub fn get_channels(data: Option<MpvValue>) -> (r: Option<String>)
        ensures
            crate::strings::text_of(r) == (match unsigned_in(data) {
                Some(n) => Some(channels_label(saturated_u32(n))),
                None => None,
            }),
    {
        match as_unsigned(&data) {
            Some(n) => Some(channels_text(u32_sat(n))),
            None => None,
        }
    }
}

/// A request is answered once: the answer that came first takes it off, and a
/// second one with the same id is not delivered to anybody.
pub proof fn law_a_request_is_answered_once(v: MpvView, resp: Option<MpvResponse>)
    ensures
        answered(received(v, resp), resp) is None,
        received(received(v, resp), resp) == received(v, resp),
{
}

/// A new request never takes the id of one that still waits, until the ids
/// have gone all the way round; so no answer can reach the wrong request.
pub proof fn law_request_ids_are_fresh(v: MpvView, resp: Option<MpvResponse>)
    requires
        ids_are_past(v),
        v.next_request < u64::MAX,
    ensures
        !v.pending.contains(v.next_request),
        ids_are_past(requested(v)),
        ids_are_past(received(v, resp)),
{
}

/// The double in a value, or zero.
pub open spec fn double_or_zero(data: Option<MpvValue>) -> Binary64 {
    match data {
        Some(MpvValue::Number { double: Some(d), .. }) => d,
        _ => Binary64 { bits: 0 },
    }
}

/// A volume limited to 0 through 100.
pub open spec fn clamped_volume(volume: i32) -> i32 {
    if volume < 0 {
        0
    } else if volume > 100 {
        100
    } else {
        volume
    }
}

/// A volume limited to 0 through 100.
pub fn clamp_volume(volume: i32) -> (r: i32)
    ensures
        r == clamped_volume(volume),
{
    if volume < 0 {
        0
    } else if volume > 100 {
        100
    } else {
        volume
    }
}

} // verus!

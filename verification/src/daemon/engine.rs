//! The heart of the daemon: what it owns, its counters and its lifetime.

use crate::audio::mpv::{gain_clamped, MpvController, MpvView};
use crate::audio::pipewire::PipeWireController;
use crate::config::settings::{eval_of, Config};
use crate::counter::{after, bumped};
use crate::daemon::guards::LoadingFlag;
use crate::daemon::state::{cloned_songs, Child, DaemonState, NowPlaying, PlaybackState};
use crate::secret::Secret;
use vstd::prelude::*;

verus! {

/// Audio-handoff strategy for playing a queue position.
#[derive(Debug, Clone, Copy, PartialEq, Eq, Structural)]
pub enum PlayMode {
    /// Load the stream itself; use for manual Next/Prev and explicit jumps
    /// within the current queue.
    Direct,
    /// Stop mpv immediately, pre-buffer the new file to disk, then load the
    /// local copy. Use for queue replacement so the new track starts cleanly.
    Buffered,
}

/// How many ticks without any use it takes before the daemon leaves.
pub const IDLE_TICKS_TO_EXIT: u32 = 2;

/// How long a tick of the idle monitor lasts.
pub const IDLE_TICK_MS: u64 = 15_000;

/// A line that the clients show.
#[derive(Debug, PartialEq, Eq)]
pub struct Notice {
    pub message: String,
    pub is_error: bool,
}

/// How to log in to the server.
pub struct ServerLogin {
    pub base_url: String,
    pub username: String,
    pub password: Secret,
    /// Library to browse and play from.
    pub music_folder: Option<i64>,
}

/// Counters and slots that the daemon's tasks share.
pub struct Tasks {
    /// The pre-buffer task that is current; any other has been cancelled.
    pub prebuffer_cancel: Option<u64>,
    /// The loading flag of the task that took the slot last.
    pub prebuffer_loading: Option<LoadingFlag>,
    /// Handles of the pre-buffer files that are kept, oldest first.
    pub prebuffer_files: Vec<u64>,
    /// Number of the next pre-buffer task.
    pub next_task: u64,
    /// Counts loads; a settle for an older count is superseded.
    pub loadfile_gen: u64,
    /// Counts playback instances: starts and restarts, not resumes.
    pub play_instance: u64,
    /// Some track has started in this session.
    pub played_this_session: bool,
    /// Counts changes of the server settings.
    pub config_gen: u64,
    /// Counts library refreshes.
    pub library_version: u64,
    /// Connected clients.
    pub active_clients: usize,
    /// An automatic advance is under way.
    pub advance_in_flight: bool,
    /// The daemon is shutting down.
    pub shutdown: bool,
    /// Forced pre-buffer failure: 0 is off, 1 the network, 2 the disk.
    pub prebuffer_failure: u8,
}

/// Heart of the daemon: owns mpv, `PipeWire`, the server login, and state.
pub struct DaemonCore {
    /// The state that clients mirror.
    pub state: DaemonState,
    /// mpv connection.
    pub mpv: MpvController,
    /// `PipeWire` sample-rate controller.
    pub pipewire: PipeWireController,
    /// Server login; `None` until the server is configured.
    pub subsonic: Option<ServerLogin>,
    /// Mirrors the setting of the same name.
    pub offline_cache_enabled: bool,
    /// Mirrors the setting of the same name.
    pub offline_cache_max_mb: u32,
    pub tasks: Tasks,
}

/// The login that the settings give, where they are complete.
pub open spec fn login_is(config: Config, login: Option<ServerLogin>) -> bool {
    if config.base_url@.len() > 0 && config.username@.len() > 0 && config.password@.len() > 0 {
        login matches Some(l) && l.base_url@ == config.base_url@ && l.username@ == config.username@
            && l.password@ == config.password@ && l.music_folder == config.music_folder_id
    } else {
        login is None
    }
}

/// The login that the settings give, where they are complete.
pub fn server_login(config: &Config) -> (r: Option<ServerLogin>)
    ensures
        login_is(*config, r),
{
    if config.is_configured() {
        Some(
            ServerLogin {
                base_url: config.base_url.clone(),
                username: config.username.clone(),
                password: config.password.clone(),
                music_folder: config.music_folder_id,
            },
        )
    } else {
        None
    }
}

/// Strip every secret-bearing credential source before a config crosses the
/// IPC boundary: the resolved password, its file path, the command (which can
/// embed a secret) and the keyring marker.
pub fn scrub_config_for_wire(cfg: &mut Config)
    ensures
        final(cfg).password@ == Seq::<char>::empty(),
        *final(cfg) == scrubbed(*old(cfg), final(cfg).password),
{
    cfg.password.clear();
    cfg.password_file = None;
    cfg.password_eval = None;
    cfg.password_keyring = false;
    cfg.password_from_env = false;
}

/// `cfg` with `password` and without any trace of where a password comes from.
pub open spec fn scrubbed(cfg: Config, password: Secret) -> Config {
    Config {
        password,
        password_file: None,
        password_eval: None,
        password_keyring: false,
        password_from_env: false,
        ..cfg
    }
}

/// A scrubbed configuration holds no credential at all and names no source of
/// one, so what is saved from it holds none either.
pub proof fn law_scrubbed_config_holds_no_secret(cfg: Config, password: Secret)
    requires
        password@.len() == 0,
    ensures
        !scrubbed(cfg, password).secret_external(),
        scrubbed(cfg, password).password@.len() == 0,
        scrubbed(cfg, password).password_file is None,
        scrubbed(cfg, password).password_eval is None,
        forall|d: crate::config::settings::ConfigOnDisk| #[trigger]
            scrubbed(cfg, password).saved_as(d) ==> d.password is None && d.password_file is None
                && d.password_eval is None,
{
    let c = scrubbed(cfg, password);
    assert forall|d: crate::config::settings::ConfigOnDisk| #[trigger]
        c.saved_as(d) implies d.password is None && d.password_file is None
        && d.password_eval is None by {
        assert(crate::strings::text_of(d.password_file) == crate::strings::text_of(c.password_file));
        assert(eval_of(d.password_eval) == eval_of(c.password_eval));
    }
}

impl DaemonCore {
    /// The task has been cancelled: another one took its slot, or playback
    /// went on without it.
    pub open spec fn cancelled(self, task: u64) -> bool {
        self.tasks.prebuffer_cancel != Some(task)
    }

    /// A settle for load `gen` has nothing left to do.
    pub open spec fn superseded(self, gen: u64) -> bool {
        self.tasks.shutdown || self.tasks.loadfile_gen != gen
    }

    /// The core once another load was counted.
    pub open spec fn stamped(self) -> DaemonCore {
        DaemonCore {
            tasks: Tasks { loadfile_gen: after(self.tasks.loadfile_gen), ..self.tasks },
            ..self
        }
    }

    /// No client is connected and nothing plays that could be missed: playback
    /// is stopped, or paused in a session that never played.
    pub open spec fn idle_for_exit(self) -> bool {
        &&& self.tasks.active_clients == 0
        &&& self.state.now_playing.state == PlaybackState::Stopped || (
        self.state.now_playing.state == PlaybackState::Paused && !self.tasks.played_this_session)
    }

    /// The queue position is one that can be counted on from.
    pub open spec fn position_in_range(self) -> bool {
        self.state.queue@.len() > 0 ==> (self.state.queue_position matches Some(p) ==> p
            < usize::MAX)
    }

    /// Build the core around mpv and `PipeWire` controllers. `logged_in` says
    /// whether a client for the server could be made, `on_macos` whether the
    /// `CoreAudio` mode applies.
    pub fn new_with_mpv_and_pipewire(
        state: DaemonState,
        config: &Config,
        mpv: MpvController,
        pipewire: PipeWireController,
        logged_in: bool,
        on_macos: bool,
    ) -> (r: Self)
        ensures
            r.state == state,
            r.pipewire == pipewire,
            r.mpv@ == (MpvView {
                replaygain_mode: config.replay_gain_mode,
                replaygain_preamp: r.mpv@.replaygain_preamp,
                prevent_clipping: config.replay_gain_clip,
                macos_audio_mode: if on_macos {
                    config.macos_audio_mode
                } else {
                    mpv@.macos_audio_mode
                },
                ..mpv@
            }),
            if config.replay_gain_preamp.finite() {
                gain_clamped(config.replay_gain_preamp, r.mpv@.replaygain_preamp)
            } else {
                r.mpv@.replaygain_preamp == mpv@.replaygain_preamp
            },
            if logged_in {
                login_is(*config, r.subsonic)
            } else {
                r.subsonic is None
            },
            r.offline_cache_enabled == config.offline_cache_enabled,
            r.offline_cache_max_mb == config.offline_cache_max_mb,
            r.tasks.prebuffer_cancel is None,
            r.tasks.prebuffer_loading is None,
            r.tasks.prebuffer_files@.len() == 0,
            r.tasks.next_task == 0,
            r.tasks.loadfile_gen == 0,
            r.tasks.play_instance == 0,
            !r.tasks.played_this_session,
            r.tasks.config_gen == 0,
            r.tasks.library_version == 0,
            r.tasks.active_clients == 0,
            !r.tasks.advance_in_flight,
            !r.tasks.shutdown,
            r.tasks.prebuffer_failure == 0,
    {
        let mut mpv = mpv;
        mpv.set_replaygain_startup(
            config.replay_gain_mode,
            config.replay_gain_preamp,
            config.replay_gain_clip,
        );
        if on_macos {
            mpv.set_macos_audio_mode_startup(config.macos_audio_mode);
        }
        let subsonic = if logged_in {
            server_login(config)
        } else {
            None
        };
        DaemonCore {
            state,
            mpv,
            pipewire,
            subsonic,
            offline_cache_enabled: config.offline_cache_enabled,
            offline_cache_max_mb: config.offline_cache_max_mb,
            tasks: Tasks {
                prebuffer_cancel: None,
                prebuffer_loading: None,
                prebuffer_files: Vec::new(),
                next_task: 0,
                loadfile_gen: 0,
                play_instance: 0,
                played_this_session: false,
                config_gen: 0,
                library_version: 0,
                active_clients: 0,
                advance_in_flight: false,
                shutdown: false,
                prebuffer_failure: 0,
            },
        }
    }

    // -- Counters.

    /// Mark a fresh load and return its generation; a settle passes this back
    /// to detect supersession.
    pub fn stamp_loadfile(&mut self) -> (r: u64)
        ensures
            r == final(self).tasks.loadfile_gen,
            *final(self) == old(self).stamped(),
    {
        self.tasks.loadfile_gen = bumped(self.tasks.loadfile_gen);
        self.tasks.loadfile_gen
    }

    /// Mark a genuinely new playback instance and return its id. Called on a
    /// track start or restart, never on a pause/resume.
    pub fn mark_play_instance(&mut self) -> (r: u64)
        ensures
            r == after(old(self).tasks.play_instance),
            *final(self) == (DaemonCore {
                tasks: Tasks {
                    play_instance: r,
                    played_this_session: true,
                    ..old(self).tasks
                },
                ..*old(self)
            }),
    {
        self.tasks.played_this_session = true;
        self.tasks.play_instance = bumped(self.tasks.play_instance);
        self.tasks.play_instance
    }

    /// Test seam: mark a new playback instance.
    pub fn mark_play_instance_for_test(&mut self) -> (r: u64)
        ensures
            r == after(old(self).tasks.play_instance),
            *final(self) == (DaemonCore {
                tasks: Tasks {
                    play_instance: r,
                    played_this_session: true,
                    ..old(self).tasks
                },
                ..*old(self)
            }),
    {
        self.mark_play_instance()
    }

    /// Test seam: read the current play-instance generation.
    #[must_use]
    pub fn play_instance_for_test(&self) -> (r: u64)
        ensures
            r == self.tasks.play_instance,
    {
        self.tasks.play_instance
    }

    /// Test seam: force a pre-buffer fallback at a deterministic gate
    /// (`1`=network, `2`=disk write).
    pub fn force_prebuffer_failure_for_test(&mut self, kind: u8)
        ensures
            *final(self) == (DaemonCore {
                tasks: Tasks { prebuffer_failure: kind, ..old(self).tasks },
                ..*old(self)
            }),
    {
        self.tasks.prebuffer_failure = kind;
    }

    /// Takes a forced failure of that kind, if one is set.
    pub fn take_forced_failure(&mut self, kind: u8) -> (r: bool)
        ensures
            r == (old(self).tasks.prebuffer_failure == kind),
            *final(self) == (if r {
                DaemonCore {
                    tasks: Tasks { prebuffer_failure: 0, ..old(self).tasks },
                    ..*old(self)
                }
            } else {
                *old(self)
            }),
    {
        if self.tasks.prebuffer_failure == kind {
            self.tasks.prebuffer_failure = 0;
            true
        } else {
            false
        }
    }

    /// Test seam: force the single-flight guard of the automatic advance.
    pub fn set_advance_in_flight_for_test(&mut self, in_flight: bool)
        ensures
            *final(self) == (DaemonCore {
                tasks: Tasks { advance_in_flight: in_flight, ..old(self).tasks },
                ..*old(self)
            }),
    {
        self.tasks.advance_in_flight = in_flight;
    }

    /// Test seam: read the single-flight guard of the automatic advance.
    #[must_use]
    pub fn advance_in_flight_for_test(&self) -> (r: bool)
        ensures
            r == self.tasks.advance_in_flight,
    {
        self.tasks.advance_in_flight
    }

    /// Whether the server settings changed since `snapshot` was taken.
    #[must_use]
    pub fn config_gen_changed(&self, snapshot: u64) -> (r: bool)
        ensures
            r == (self.tasks.config_gen != snapshot),
    {
        self.tasks.config_gen != snapshot
    }

    /// Test seam: the generation of the server settings.
    #[must_use]
    pub fn config_gen_for_test(&self) -> (r: u64)
        ensures
            r == self.tasks.config_gen,
    {
        self.tasks.config_gen
    }

    /// Test seam: count a change of the server settings.
    pub fn bump_config_gen_for_test(&mut self)
        ensures
            *final(self) == (DaemonCore {
                tasks: Tasks { config_gen: after(old(self).tasks.config_gen), ..old(self).tasks },
                ..*old(self)
            }),
    {
        self.tasks.config_gen = bumped(self.tasks.config_gen);
    }

    /// Counts a library refresh; the new version goes to the subscribers.
    pub fn bump_library_version(&mut self) -> (r: u64)
        ensures
            r == after(old(self).tasks.library_version),
            *final(self) == (DaemonCore {
                tasks: Tasks { library_version: r, ..old(self).tasks },
                ..*old(self)
            }),
    {
        self.tasks.library_version = bumped(self.tasks.library_version);
        self.tasks.library_version
    }

    // -- What clients see.

    /// The current track, for the subscribers.
    #[must_use]
    pub fn broadcast_now_playing(&self) -> (r: NowPlaying)
        ensures
            r == self.state.now_playing,
    {
        self.state.now_playing.clone()
    }

    /// The queue and the position in it, for the subscribers.
    #[must_use]
    pub fn queue_event(&self) -> (r: (Vec<Child>, Option<usize>))
        ensures
            r.0@ == self.state.queue@,
            r.1 == self.state.queue_position,
    {
        (cloned_songs(&self.state.queue), self.state.queue_position)
    }

    /// The settings, for the subscribers: all of them but the credentials.
    #[must_use]
    pub fn config_for_wire(&self) -> (r: Config)
        ensures
            scrubbed_copy(self.state.config, r),
    {
        let mut cfg = self.state.config.clone();
        scrub_config_for_wire(&mut cfg);
        cfg
    }

    /// Snapshot for a connecting client. Credentials are scrubbed: a client
    /// never talks to the server directly.
    #[must_use]
    pub fn snapshot(&self) -> (r: DaemonState)
        ensures
            r.queue@ == self.state.queue@,
            r.queue_position == self.state.queue_position,
            r.now_playing == self.state.now_playing,
            scrubbed_copy(self.state.config, r.config),
            r.mpv_version == self.mpv@.version,
    {
        DaemonState {
            queue: cloned_songs(&self.state.queue),
            queue_position: self.state.queue_position,
            now_playing: self.state.now_playing.clone(),
            config: self.config_for_wire(),
            mpv_version: self.mpv.mpv_version(),
        }
    }

    /// `(major, minor)` of the connected mpv, or `None` if unknown.
    #[must_use]
    pub fn mpv_version(&self) -> (r: Option<(u16, u16)>)
        ensures
            r == self.mpv@.version,
    {
        self.mpv.mpv_version()
    }

    // -- Lifetime.

    /// Signal background tasks to exit.
    pub fn request_shutdown(&mut self)
        ensures
            *final(self) == (DaemonCore {
                tasks: Tasks { shutdown: true, ..old(self).tasks },
                ..*old(self)
            }),
    {
        self.tasks.shutdown = true;
    }

    /// Register a connected client; dropping the guard takes it off again.
    pub fn client_guard(&mut self) -> (r: ClientGuard)
        ensures
            *final(self) == (DaemonCore {
                tasks: Tasks {
                    active_clients: one_more(old(self).tasks.active_clients),
                    ..old(self).tasks
                },
                ..*old(self)
            }),
    {
        self.tasks.active_clients = self.tasks.active_clients.wrapping_add(1);
        ClientGuard { counted: () }
    }

    /// Takes a client off that has gone.
    pub fn client_gone(&mut self, guard: ClientGuard)
        ensures
            *final(self) == (DaemonCore {
                tasks: Tasks {
                    active_clients: one_less(old(self).tasks.active_clients),
                    ..old(self).tasks
                },
                ..*old(self)
            }),
    {
        let ClientGuard { counted: _ } = guard;
        self.tasks.active_clients = self.tasks.active_clients.wrapping_sub(1);
    }

    /// True when no client is connected and playback is stopped (or paused in
    /// a session that never played): the daemon has no reason to stay.
    #[must_use]
    pub fn is_idle_for_exit(&self) -> (r: bool)
        ensures
            r == self.idle_for_exit(),
    {
        if self.tasks.active_clients != 0 {
            return false;
        }
        let state = self.state.now_playing.state;
        state == PlaybackState::Stopped || (state == PlaybackState::Paused
            && !self.tasks.played_this_session)
    }

    /// One tick of the idle monitor, after `ticks` idle ones in a row. Returns
    /// the number of idle ticks in a row now, or nothing when the monitor
    /// ends: because the daemon shuts down, or because it has been idle long
    /// enough and shuts down now.
    pub fn idle_tick(&mut self, ticks: u32) -> (r: Option<u32>)
        requires
            ticks < IDLE_TICKS_TO_EXIT,
        ensures
            r == (if old(self).tasks.shutdown {
                None
            } else if !old(self).idle_for_exit() {
                Some(0u32)
            } else if ticks + 1 >= IDLE_TICKS_TO_EXIT {
                None
            } else {
                Some((ticks + 1) as u32)
            }),
            r matches Some(t) ==> t < IDLE_TICKS_TO_EXIT && *final(self) == *old(self),
            r is None ==> *final(self) == (DaemonCore {
                tasks: Tasks { shutdown: true, ..old(self).tasks },
                ..*old(self)
            }),
    {
        if self.tasks.shutdown {
            return None;
        }
        if !self.is_idle_for_exit() {
            return Some(0);
        }
        let now: u32 = ticks + 1;
        if now >= IDLE_TICKS_TO_EXIT {
            self.request_shutdown();
            return None;
        }
        Some(now)
    }
}

/// A connected client. Only registering one makes a guard.
pub struct ClientGuard {
    counted: (),
}

/// The count after a client has come.
pub open spec fn one_more(n: usize) -> usize {
    if n == usize::MAX {
        0
    } else {
        (n + 1) as usize
    }
}

/// The count after a client has gone.
pub open spec fn one_less(n: usize) -> usize {
    if n == 0 {
        usize::MAX
    } else {
        (n - 1) as usize
    }
}

/// `r` is `cfg` without its credentials.
pub open spec fn scrubbed_copy(cfg: Config, r: Config) -> bool {
    &&& r.password@ == Seq::<char>::empty()
    &&& r.password_file is None
    &&& r.password_eval is None
    &&& !r.password_keyring
    &&& !r.password_from_env
    &&& exists|copy: Config| copy.same_settings(cfg) && r == scrubbed(copy, r.password)
}

/// A client that comes and goes leaves the count as it was.
pub proof fn law_clients_balance(n: usize)
    ensures
        one_less(one_more(n)) == n,
        one_more(one_less(n)) == n,
{
}

} // verus!

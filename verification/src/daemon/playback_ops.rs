//! Playback control: pause/resume, seek, skip, advance, preload, stop, volume.

use crate::audio::mpv::{clamp_volume, clamped_volume, MpvController};
use crate::audio::mpv_protocol::{load, seek_command, set_property, ArgView, MpvCommand};
use crate::audio::pipewire::{args_of, force_args};
use crate::binary64::Binary64;
use crate::config::modes::{position_of, RepeatMode};
use crate::daemon::dispatch::{pick_url, source_url, Committed, Dispatch, PlayRequest};
use crate::daemon::engine::{DaemonCore, Notice, PlayMode, Tasks};
use crate::daemon::state::{rewound, song_at, unloaded, DaemonState, NowPlaying, PlaybackState};
use vstd::prelude::*;

verus! {

/// Whether a position is started afresh or taken up again.
#[derive(Debug, Clone, Copy, PartialEq, Eq, Structural)]
pub enum PlayIntent {
    Start,
    Resume,
}

/// What the pause key comes to.
#[derive(Debug, Clone, Copy, PartialEq, Eq, Structural)]
pub enum Toggle {
    Pause,
    Resume,
    /// Play this queue position from the start.
    Play(usize),
    Nothing,
}

/// What taking up playback comes to.
#[derive(Debug, PartialEq, Eq)]
pub struct Resume {
    pub pos: usize,
    pub start_at: Binary64,
    /// Re-pin the device first, where it no longer matches the track.
    pub repin: Option<Repin>,
}

/// A switch of the device back to the track's rate.
#[derive(Debug, PartialEq, Eq)]
pub struct Repin {
    pub rate: u32,
    /// The arguments to run `pw-metadata` with.
    pub args: Option<Vec<String>>,
    /// How long to wait for the device afterwards.
    pub settle_ms: u64,
}

/// Where playback goes after the current track.
#[derive(Debug, Clone, Copy, PartialEq, Eq, Structural)]
pub enum Advance {
    /// Stay.
    Nothing,
    /// Play this queue position from the start.
    Play(usize),
    /// Continue with random songs; finish where that fails.
    Continue,
    /// Finish at the end of the queue.
    Finish,
}

/// What a step back comes to.
#[derive(Debug, Clone, Copy, PartialEq, Eq, Structural)]
pub enum Back {
    Nothing,
    /// Play this queue position from the start.
    Play(usize),
    /// Seek the current track to its start.
    Restart,
}

/// A part of stopping, carried out in the order in which it is handed out.
#[derive(Debug, Clone, Copy, PartialEq, Eq, Structural)]
pub enum Halt {
    CancelPrebuffer,
    /// Stop mpv; that it fails is only logged.
    StopMpv,
    /// Mark playback stopped at the start of the track.
    Rewind,
    /// Mark playback stopped with no track loaded.
    Unload,
    /// Empty the queue.
    ClearQueue,
    TellNowPlaying,
    TellQueue,
    ReleaseRate,
}

/// What preloading the next track needs.
#[derive(Debug, PartialEq, Eq)]
pub struct Preload {
    /// The load that the preload belongs to.
    pub gen: u64,
    pub request: PlayRequest,
}

/// The position that follows `current` with `target`, where there is one.
pub open spec fn advance_target(core: DaemonCore, target: Option<int>) -> Advance {
    match target {
        Some(p) => Advance::Play(p as usize),
        None => if core.state.config.auto_continue {
            Advance::Continue
        } else {
            Advance::Finish
        },
    }
}

/// Where a manual skip leads.
pub open spec fn skip_target(core: DaemonCore) -> Advance {
    let len = core.state.queue@.len() as int;
    if len == 0 {
        Advance::Nothing
    } else {
        match core.state.queue_position {
            None => Advance::Play(0),
            Some(p) => advance_target(core, core.state.config.repeat_mode.manual_target(p as int, len)),
        }
    }
}

/// Where the end of a track leads.
pub open spec fn end_target(core: DaemonCore) -> Advance {
    let len = core.state.queue@.len() as int;
    if len == 0 {
        Advance::Nothing
    } else {
        match core.state.queue_position {
            None => Advance::Play(0),
            Some(p) => advance_target(core, core.state.config.repeat_mode.auto_target(p as int, len)),
        }
    }
}

/// Where a step back leads: to the track before within the first three
/// seconds, to the start of the current one otherwise.
pub open spec fn back_target(core: DaemonCore) -> Back {
    let len = core.state.queue@.len() as int;
    if len == 0 {
        Back::Nothing
    } else if !core.state.now_playing.position.below(3) {
        Back::Restart
    } else {
        match core.state.queue_position {
            None => Back::Restart,
            Some(p) => if p > 0 {
                Back::Play((p - 1) as usize)
            } else {
                match core.state.config.repeat_mode.wrap_target(len) {
                    Some(last) => Back::Play(last as usize),
                    None => Back::Restart,
                }
            },
        }
    }
}

/// Where playback is taken up: the queue position, and where in the track. A
/// paused track goes on at its playhead, a stopped one starts from the top.
pub open spec fn resume_point(core: DaemonCore) -> Option<(usize, Binary64)> {
    if core.state.now_playing.state == PlaybackState::Playing {
        None
    } else {
        match core.state.queue_position {
            None => None,
            Some(pos) => Some(
                (
                    pos,
                    if core.state.now_playing.state == PlaybackState::Paused {
                        core.state.now_playing.position
                    } else {
                        Binary64 { bits: 0 }
                    },
                ),
            ),
        }
    }
}

/// The device is switched to this rate before a paused track goes on: the
/// track's known rate, where the device can be switched and has another.
pub open spec fn repin_rate(core: DaemonCore) -> Option<u32> {
    if core.state.now_playing.state == PlaybackState::Paused && core.pipewire@.available
        && core.pipewire@.current != core.state.now_playing.sample_rate {
        core.state.now_playing.sample_rate
    } else {
        None
    }
}

/// An automatic advance begun: what it is for, and the core with it under way.
pub open spec fn advance_begun(core: DaemonCore) -> (Option<u64>, DaemonCore) {
    (
        if core.tasks.advance_in_flight {
            None
        } else {
            Some(core.tasks.play_instance)
        },
        DaemonCore { tasks: Tasks { advance_in_flight: true, ..core.tasks }, ..core },
    )
}

/// The core with playback marked paused.
pub open spec fn marked_paused(core: DaemonCore) -> DaemonCore {
    with_now_playing(core, NowPlaying { state: PlaybackState::Paused, ..core.state.now_playing })
}

/// The core with `now_playing` replaced.
pub open spec fn with_now_playing(core: DaemonCore, np: NowPlaying) -> DaemonCore {
    DaemonCore { state: DaemonState { now_playing: np, ..core.state }, ..core }
}

/// What is left to carry out once a pause was committed.
pub open spec fn pause_parts() -> Seq<Halt> {
    seq![Halt::CancelPrebuffer, Halt::StopMpv, Halt::TellNowPlaying, Halt::ReleaseRate]
}

/// The parts of a full stop.
pub open spec fn stop_parts() -> Seq<Halt> {
    seq![
        Halt::CancelPrebuffer,
        Halt::StopMpv,
        Halt::Unload,
        Halt::ClearQueue,
        Halt::TellNowPlaying,
        Halt::TellQueue,
        Halt::ReleaseRate,
    ]
}

/// The parts of unloading the track with the queue kept.
pub open spec fn unload_parts() -> Seq<Halt> {
    seq![
        Halt::CancelPrebuffer,
        Halt::StopMpv,
        Halt::Unload,
        Halt::TellNowPlaying,
        Halt::ReleaseRate,
    ]
}

/// The parts of stopping at the end of the queue.
pub open spec fn finish_parts() -> Seq<Halt> {
    seq![
        Halt::CancelPrebuffer,
        Halt::StopMpv,
        Halt::Rewind,
        Halt::TellNowPlaying,
        Halt::ReleaseRate,
    ]
}

/// What one part of stopping does to the core.
pub open spec fn halted(core: DaemonCore, part: Halt, after: DaemonCore) -> bool {
    match part {
        Halt::CancelPrebuffer => after == core.without_prebuffer(),
        Halt::Rewind => after == with_now_playing(core, rewound(core.state.now_playing)),
        Halt::Unload => after == with_now_playing(core, unloaded(core.state.now_playing)),
        Halt::ClearQueue => after.state.queue@.len() == 0 && after == (DaemonCore {
            state: DaemonState {
                queue: after.state.queue,
                queue_position: None,
                ..core.state
            },
            ..core
        }),
        _ => after == core,
    }
}

/// `run` shows the core before `parts` of stopping, after each of them and
/// after the last.
pub open spec fn carried_out(run: Seq<DaemonCore>, parts: Seq<Halt>) -> bool {
    &&& run.len() == parts.len() + 1
    &&& forall|i: int| 0 <= i < parts.len() ==> halted(#[trigger] run[i], parts[i], run[i + 1])
}

impl DaemonCore {
    /// Toggle pause by current state: `Playing` pauses, `Paused` resumes,
    /// `Stopped` with a queued position starts playback.
    #[must_use]
    pub fn toggle_pause(&self) -> (r: Toggle)
        ensures
            r == (match self.state.now_playing.state {
                PlaybackState::Playing => Toggle::Pause,
                PlaybackState::Paused => Toggle::Resume,
                PlaybackState::Stopped => match self.state.queue_position {
                    Some(pos) => Toggle::Play(pos),
                    None => Toggle::Nothing,
                },
            }),
    {
        match self.state.now_playing.state {
            PlaybackState::Playing => Toggle::Pause,
            PlaybackState::Paused => Toggle::Resume,
            PlaybackState::Stopped => match self.state.queue_position {
                Some(pos) => Toggle::Play(pos),
                None => Toggle::Nothing,
            },
        }
    }

    /// Pause playback. `Paused` is committed before mpv is stopped, so the stop
    /// cannot be read as the end of the track; the playhead is kept. What is
    /// left to carry out is handed out; nothing where nothing plays.
    pub fn pause_playback(&mut self) -> (r: Vec<Halt>)
        ensures
            old(self).state.now_playing.state != PlaybackState::Playing ==> r@.len() == 0 && *final(
                self) == *old(self),
            old(self).state.now_playing.state == PlaybackState::Playing ==> {
                &&& r@ == pause_parts()
                &&& *final(self) == marked_paused(*old(self))
            },
    {
        if self.state.now_playing.state != PlaybackState::Playing {
            return Vec::new();
        }
        self.state.now_playing.state = PlaybackState::Paused;
        vec![Halt::CancelPrebuffer, Halt::StopMpv, Halt::TellNowPlaying, Halt::ReleaseRate]
    }

    /// Resume from pause at the kept playhead, or start the queued position
    /// from the top when stopped. Pausing released the device: where its rate
    /// no longer matches the track's known one it is switched back and waited
    /// for before audio.
    pub fn resume_playback(&self) -> (r: Option<Resume>)
        ensures
            match r {
                Some(res) => {
                    &&& resume_point(*self) == Some((res.pos, res.start_at))
                    &&& match res.repin {
                        Some(p) => repin_rate(*self) == Some(p.rate) && args_of(p.args) == Some(
                            force_args(p.rate as nat),
                        ) && p.settle_ms == self.state.config.rate_switch_delay_ms,
                        None => repin_rate(*self) is None,
                    }
                },
                None => resume_point(*self) is None,
            },
    {
        let playback = self.state.now_playing.state;
        if playback == PlaybackState::Playing {
            return None;
        }
        let pos = match self.state.queue_position {
            Some(p) => p,
            None => {
                return None;
            },
        };
        if playback != PlaybackState::Paused {
            return Some(Resume { pos, start_at: Binary64::zero(), repin: None });
        }
        let repin = match self.state.now_playing.sample_rate {
            Some(rate) => {
                if !self.pipewire.is_available() || self.pipewire.get_current_rate() == Some(rate) {
                    None
                } else {
                    Some(
                        Repin {
                            rate,
                            args: self.pipewire.set_rate(rate),
                            settle_ms: self.state.config.rate_switch_delay_ms as u64,
                        },
                    )
                }
            },
            None => None,
        };
        Some(Resume { pos, start_at: self.state.now_playing.position, repin })
    }

    /// Whether restored playback starts by itself: the setting is on and a
    /// track was restored paused.
    #[must_use]
    pub fn autoplay_restored_if_configured(&self) -> (r: bool)
        ensures
            r == (self.state.config.autoplay_on_start && self.state.now_playing.state
                == PlaybackState::Paused && self.state.queue_position is Some),
    {
        self.state.config.autoplay_on_start && self.state.now_playing.state
            == PlaybackState::Paused && self.state.queue_position.is_some()
    }

    /// Manual skip. Ignores `repeat=One`: the user wants to move. A skip that
    /// was asked for while an automatic advance was under way comes to nothing:
    /// that advance is the skip.
    #[must_use]
    pub fn next_track(&self, auto_was_in_flight: bool) -> (r: Advance)
        requires
            self.position_in_range(),
        ensures
            r == (if auto_was_in_flight {
                Advance::Nothing
            } else {
                skip_target(*self)
            }),
    {
        if auto_was_in_flight {
            return Advance::Nothing;
        }
        let len = self.state.queue.len();
        if len == 0 {
            return Advance::Nothing;
        }
        match self.state.queue_position {
            None => Advance::Play(0),
            Some(p) => self.advance_to(self.state.config.repeat_mode.next_manual(p, len)),
        }
    }

    fn advance_to(&self, target: Option<usize>) -> (r: Advance)
        ensures
            r == advance_target(*self, position_of(target)),
    {
        match target {
            Some(p) => Advance::Play(p),
            None => if self.state.config.auto_continue {
                Advance::Continue
            } else {
                Advance::Finish
            },
        }
    }

    /// Begins an automatic advance: the playback instance that it is for.
    /// Nothing where one is under way already; a track end may be noticed
    /// twice, but leads on once.
    pub fn begin_advance(&mut self) -> (r: Option<u64>)
        ensures
            (r, *final(self)) == advance_begun(*old(self)),
    {
        if self.tasks.advance_in_flight {
            return None;
        }
        self.tasks.advance_in_flight = true;
        Some(self.tasks.play_instance)
    }

    /// Auto-end advance. Honours `repeat=One` and `repeat=All`. An advance for
    /// a playback instance that is no longer current was overtaken by a manual
    /// transition and comes to nothing.
    #[must_use]
    pub fn advance_auto(&self, instance_at_request: u64) -> (r: Advance)
        requires
            self.position_in_range(),
        ensures
            r == (if self.tasks.play_instance != instance_at_request {
                Advance::Nothing
            } else {
                end_target(*self)
            }),
    {
        if self.tasks.play_instance != instance_at_request {
            return Advance::Nothing;
        }
        let len = self.state.queue.len();
        if len == 0 {
            return Advance::Nothing;
        }
        match self.state.queue_position {
            None => Advance::Play(0),
            Some(p) => self.advance_to(self.state.config.repeat_mode.next_auto(p, len)),
        }
    }

    /// Ends an automatic advance, however it went.
    pub fn end_advance(&mut self)
        ensures
            *final(self) == (DaemonCore {
                tasks: Tasks { advance_in_flight: false, ..old(self).tasks },
                ..*old(self)
            }),
    {
        self.tasks.advance_in_flight = false;
    }

    /// Restarts the current track if more than 3s in, else goes back one.
    #[must_use]
    pub fn prev_track(&self) -> (r: Back)
        ensures
            r == back_target(*self),
    {
        let len = self.state.queue.len();
        if len == 0 {
            return Back::Nothing;
        }
        if self.state.now_playing.position.is_below_three() {
            if let Some(pos) = self.state.queue_position {
                if pos > 0 {
                    return Back::Play(pos - 1);
                }
                if let Some(last) = self.state.config.repeat_mode.prev_wrap(len) {
                    return Back::Play(last);
                }
            }
        }
        Back::Restart
    }

    /// Commits the queue position and hands it to mpv. `stream_url` and
    /// `cached` answer [`play_request`](Self::play_request).
    pub fn play_queue_position_at_locked(
        &mut self,
        pos: usize,
        mode: PlayMode,
        start_at: Binary64,
        intent: PlayIntent,
        stream_url: Result<String, String>,
        cached: Option<String>,
    ) -> (r: Result<Dispatch, Option<Notice>>)
        ensures
            match (song_at(old(self).state.queue@, pos as int), stream_url) {
                (None, _) => r matches Err(None) && *final(self) == *old(self),
                (Some(_), Err(e)) => {
                    &&& r matches Err(Some(n)) && n.is_error && n.message@
                        == "Failed to get stream URL: "@ + e@
                    &&& *final(self) == *old(self)
                },
                (Some(song), Ok(url)) => {
                    let committed = old(self).committed(song, pos, intent == PlayIntent::Start);
                    let from = source_url(
                        old(self).state.config.offline_cache_enabled,
                        url@,
                        cached,
                    );
                    &&& r matches Ok(d) && committed.dispatches(from, pos, mode, start_at, d)
                    &&& *final(self) == committed.dispatched(from, mode)
                },
            },
    {
        match self.commit_play_state_in_lock(
            pos,
            matches!(intent, PlayIntent::Start),
            stream_url,
            cached,
        ) {
            Committed::NoSong => Err(None),
            Committed::NoUrl(n) => Err(Some(n)),
            Committed::Ready { song, url } => {
                let _current = song;
                Ok(self.dispatch_play(url, pos, mode, start_at))
            },
        }
    }

    /// What preloading the track after `current_pos` needs: nothing where no
    /// track follows, or there is no server.
    pub fn preload_next_track(&self, current_pos: usize) -> (r: Option<Preload>)
        requires
            self.state.queue@.len() == 0 || self.state.config.repeat_mode == RepeatMode::One
                || current_pos < usize::MAX,
        ensures
            ({
                let target = self.state.config.repeat_mode.auto_target(
                    current_pos as int,
                    self.state.queue@.len() as int,
                );
                match r {
                    Some(p) => {
                        &&& self.subsonic is Some
                        &&& target is Some
                        &&& 0 <= target->0 < self.state.queue@.len()
                        &&& p.gen == self.tasks.loadfile_gen
                        &&& p.request.song_id == self.state.queue@[target->0].id
                        &&& p.request.want_cached == self.state.config.offline_cache_enabled
                    },
                    None => {
                        ||| self.subsonic is None
                        ||| target is None
                        ||| target->0 >= self.state.queue@.len()
                    },
                }
            }),
    {
        let len = self.state.queue.len();
        match self.state.config.repeat_mode.next_auto(current_pos, len) {
            None => None,
            Some(p) => match self.play_request(p) {
                Some(request) => Some(Preload { gen: self.tasks.loadfile_gen, request }),
                None => None,
            },
        }
    }

    /// The command that appends the preloaded track: none once a newer load
    /// superseded the preload, and only while the current track is the lone
    /// playlist entry. `count` is mpv's answer, nothing where it gave none.
    pub fn append_preload(
        &self,
        gen: u64,
        count: Option<usize>,
        url: String,
        want_cached: bool,
        cached: Option<String>,
    ) -> (r: Option<MpvCommand>)
        ensures
            r is Some <==> self.tasks.loadfile_gen == gen && count == Some(1usize),
            r matches Some(c) ==> c@ == load(source_url(want_cached, url@, cached), "append"@),
    {
        if self.tasks.loadfile_gen != gen || count != Some(1) {
            return None;
        }
        Some(MpvController::loadfile_append(pick_url(want_cached, url, cached).as_str()))
    }

    /// The position whose next track is preloaded anew after a change of the
    /// queue: none unless something plays.
    #[must_use]
    pub fn resync_gapless_preload(&self) -> (r: Option<usize>)
        ensures
            r == (if self.state.now_playing.state == PlaybackState::Playing {
                self.state.queue_position
            } else {
                None
            }),
    {
        if self.state.now_playing.state != PlaybackState::Playing {
            return None;
        }
        self.state.queue_position
    }

    /// The command that drops a stale preload, where mpv holds one. `count` is
    /// mpv's answer, nothing where it gave none.
    #[must_use]
    pub fn drop_stale_preload(count: Option<usize>) -> (r: Option<MpvCommand>)
        ensures
            r is Some <==> count is Some && count->0 > 1,
            r matches Some(c) ==> c@ == seq![ArgView::Text("playlist-remove"@), ArgView::Int(1)],
    {
        match count {
            Some(n) if n > 1 => Some(MpvController::playlist_remove(1)),
            _ => None,
        }
    }

    /// End-of-queue stop: halt mpv, mark `Stopped`, tell, and release the
    /// device.
    #[must_use]
    pub fn finish_at_queue_end() -> (r: Vec<Halt>)
        ensures
            r@ == finish_parts(),
    {
        vec![
            Halt::CancelPrebuffer,
            Halt::StopMpv,
            Halt::Rewind,
            Halt::TellNowPlaying,
            Halt::ReleaseRate,
        ]
    }

    /// Stop playback, unload the track and empty the queue.
    #[must_use]
    pub fn stop_playback() -> (r: Vec<Halt>)
        ensures
            r@ == stop_parts(),
    {
        vec![
            Halt::CancelPrebuffer,
            Halt::StopMpv,
            Halt::Unload,
            Halt::ClearQueue,
            Halt::TellNowPlaying,
            Halt::TellQueue,
            Halt::ReleaseRate,
        ]
    }

    /// Stop-button semantics: halt playback but keep the queue and current
    /// selection intact so Play can resume the same track.
    #[must_use]
    pub fn stop_keep_queue() -> (r: Vec<Halt>)
        ensures
            r@ == finish_parts(),
    {
        Self::finish_at_queue_end()
    }

    /// Stop mpv and unload the track without touching the queue.
    #[must_use]
    pub fn halt_keep_queue() -> (r: Vec<Halt>)
        ensures
            r@ == unload_parts(),
    {
        vec![
            Halt::CancelPrebuffer,
            Halt::StopMpv,
            Halt::Unload,
            Halt::TellNowPlaying,
            Halt::ReleaseRate,
        ]
    }

    /// Carries out one part of stopping, as far as it concerns the core.
    pub fn halt(&mut self, part: Halt)
        ensures
            halted(*old(self), part, *final(self)),
    {
        match part {
            Halt::CancelPrebuffer => {
                self.cancel_prebuffer();
            },
            Halt::Rewind => {
                self.state.now_playing.state = PlaybackState::Stopped;
                self.state.now_playing.position = Binary64::zero();
            },
            Halt::Unload => {
                let volume: i32 = self.state.now_playing.volume;
                self.state.now_playing = NowPlaying {
                    song: None,
                    state: PlaybackState::Stopped,
                    position: Binary64::zero(),
                    duration: 0,
                    sample_rate: None,
                    bit_depth: None,
                    format: None,
                    channels: None,
                    volume,
                };
            },
            Halt::ClearQueue => {
                self.state.queue = Vec::new();
                self.state.queue_position = None;
            },
            Halt::StopMpv | Halt::TellNowPlaying | Halt::TellQueue | Halt::ReleaseRate => {},
        }
    }

    /// Seek to an absolute position in seconds: the command for mpv. The
    /// playhead moves with [`seeked`](Self::seeked), once mpv has obeyed.
    #[must_use]
    pub fn seek(pos: Binary64) -> (r: MpvCommand)
        ensures
            r@ == seek_command(pos, "absolute"@),
    {
        MpvController::seek(pos)
    }

    /// Moves the playhead after a seek: nowhere where mpv refused.
    pub fn seeked(&mut self, pos: Binary64, ok: bool)
        ensures
            *final(self) == (if ok {
                old(self).at_position(pos)
            } else {
                *old(self)
            }),
    {
        if ok {
            self.state.now_playing.position = pos;
        }
    }

    /// Seek by a signed offset in seconds: the command for mpv. The playhead
    /// follows with the next tick.
    #[must_use]
    pub fn seek_relative(offset: Binary64) -> (r: MpvCommand)
        ensures
            r@ == seek_command(offset, "relative"@),
    {
        MpvController::seek_relative(offset)
    }

    /// Set mpv volume as a percentage: the command for mpv. The volume is
    /// noted whether mpv obeys or not.
    pub fn set_volume(&mut self, vol: i32) -> (r: MpvCommand)
        ensures
            r@ == set_property("volume"@, ArgView::Int(clamped_volume(vol) as int)),
            *final(self) == with_now_playing(
                *old(self),
                NowPlaying { volume: clamped_volume(vol), ..old(self).state.now_playing },
            ),
    {
        let clamped = clamp_volume(vol);
        self.state.now_playing.volume = clamped;
        MpvController::set_volume(clamped)
    }
}

} // verus!

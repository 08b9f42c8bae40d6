//! Committing a queue position to play and handing it to mpv.

use crate::audio::mpv::{takes_index, MpvController};
use crate::audio::mpv_protocol::{commands, load, load_from, set_pause, MpvCommand};
use crate::binary64::Binary64;
use crate::counter::{after, bumped};
use crate::daemon::engine::{DaemonCore, Notice, PlayMode, Tasks};
use crate::daemon::guards::LoadingFlag;
use crate::daemon::state::{song_at, Child, DaemonState, NowPlaying, PlaybackState};
use crate::strings::{joined, starts_with_char};
use vstd::prelude::*;

verus! {

/// What the driver has to find out before a position can be committed.
#[derive(Debug, PartialEq, Eq)]
pub struct PlayRequest {
    /// The song whose stream URL is wanted.
    pub song_id: String,
    /// Whether a cached copy of the song is wanted too.
    pub want_cached: bool,
}

/// What committing a position came to.
pub enum Committed {
    /// The song is current; `url` is where to load it from.
    Ready { song: Child, url: String },
    /// There is no song at the position.
    NoSong,
    /// The server gave no URL.
    NoUrl(Notice),
}

/// A load of the stream or of a local file.
#[derive(Debug, PartialEq, Eq)]
pub struct DirectLoad {
    pub url: String,
    pub pos: usize,
    /// Decode from here; only where mpv can.
    pub start: Option<Binary64>,
    /// Seek here once the load is settled; only where mpv cannot decode from
    /// an offset.
    pub seek_after: Option<Binary64>,
}

/// A download that is loaded once it is complete.
#[derive(Debug, PartialEq, Eq)]
pub struct BufferedLoad {
    /// The number of the pre-buffer task.
    pub task: u64,
    pub url: String,
    pub pos: usize,
}

/// How a position is handed to mpv.
pub enum Dispatch {
    Direct(DirectLoad),
    Buffered(BufferedLoad),
}

/// What follows a direct load.
pub enum AfterLoad {
    /// mpv took the load: settle the rate for load `gen`, preload what comes
    /// next, then see to the cache.
    Settle { gen: u64, seek_after: Option<Binary64> },
    /// mpv refused.
    Failed(Notice),
}

/// A track to store in the offline cache.
#[derive(Debug, PartialEq, Eq)]
pub struct CachePopulation {
    pub song_id: String,
    pub url: String,
}

/// A local path, which is loaded as it is.
pub open spec fn is_local(url: Seq<char>) -> bool {
    url.len() > 0 && url[0] == '/'
}

/// A local file is always loaded directly; anything else as the mode says.
pub open spec fn loads_directly(url: Seq<char>, mode: PlayMode) -> bool {
    is_local(url) || mode == PlayMode::Direct
}

/// The offset that a start position comes to: itself where it is a positive
/// finite number, none otherwise. No other value may reach mpv.
pub open spec fn usable_offset(start_at: Binary64) -> Option<Binary64> {
    if start_at.finite() && start_at.above(0) {
        Some(start_at)
    } else {
        None
    }
}

/// Where to load a song from: the cached copy where the cache is on and holds
/// one, the stream otherwise.
pub open spec fn source_url(enabled: bool, url: Seq<char>, cached: Option<String>) -> Seq<char> {
    match cached {
        Some(path) => if enabled {
            path@
        } else {
            url
        },
        None => url,
    }
}

/// The state after `song` at `pos` was committed.
pub open spec fn committed_state(before: DaemonState, song: Child, pos: usize) -> DaemonState {
    DaemonState {
        queue_position: Some(pos),
        now_playing: NowPlaying {
            song: Some(song),
            state: PlaybackState::Playing,
            position: (Binary64 { bits: 0 }),
            duration: match song.duration {
                Some(d) => d,
                None => 0,
            },
            sample_rate: None,
            bit_depth: None,
            format: None,
            channels: None,
            ..before.now_playing
        },
        ..before
    }
}

/// The counters after a position was committed.
pub open spec fn committed_tasks(before: Tasks, new_instance: bool) -> Tasks {
    Tasks {
        loadfile_gen: after(before.loadfile_gen),
        play_instance: if new_instance {
            after(before.play_instance)
        } else {
            before.play_instance
        },
        played_this_session: before.played_this_session || new_instance,
        ..before
    }
}

/// Two urls, one of which is taken.
pub(crate) fn pick_url(enabled: bool, url: String, cached: Option<String>) -> (r: String)
    ensures
        r@ == source_url(enabled, url@, cached),
{
    match cached {
        Some(path) => if enabled {
            path
        } else {
            url
        },
        None => url,
    }
}

impl DirectLoad {
    /// The commands that make the load. The track is loaded paused.
    #[must_use]
    pub fn load_commands(&self) -> (r: Vec<MpvCommand>)
        ensures
            commands(r@) == (match self.start {
                Some(at) => seq![set_pause(true), load_from(self.url@, at)],
                None => seq![set_pause(true), load(self.url@, "replace"@)],
            }),
    {
        match self.start {
            Some(at) => MpvController::loadfile_at_paused(self.url.as_str(), at),
            None => MpvController::loadfile_paused(self.url.as_str()),
        }
    }
}

impl DaemonCore {
    /// What has to be found out before the position can be played; nothing
    /// where there is no server, or no song at the position.
    pub fn play_request(&self, pos: usize) -> (r: Option<PlayRequest>)
        ensures
            match r {
                Some(req) => self.subsonic is Some && pos < self.state.queue@.len() && req.song_id
                    == self.state.queue@[pos as int].id && req.want_cached
                    == self.state.config.offline_cache_enabled,
                None => self.subsonic is None || pos >= self.state.queue@.len(),
            },
    {
        if self.subsonic.is_none() || pos >= self.state.queue.len() {
            return None;
        }
        Some(
            PlayRequest {
                song_id: self.state.queue[pos].id.clone(),
                want_cached: self.state.config.offline_cache_enabled,
            },
        )
    }

    /// Validate the position, take its stream URL, and commit play state.
    /// `stream_url` is what the server's client answered for the song, `cached`
    /// the cached copy, where there is one.
    pub fn commit_play_state_in_lock(
        &mut self,
        pos: usize,
        new_instance: bool,
        stream_url: Result<String, String>,
        cached: Option<String>,
    ) -> (r: Committed)
        ensures
            match (song_at(old(self).state.queue@, pos as int), stream_url) {
                (None, _) => r is NoSong && *final(self) == *old(self),
                (Some(_), Err(e)) => {
                    &&& r matches Committed::NoUrl(n) && n.is_error && n.message@
                        == "Failed to get stream URL: "@ + e@
                    &&& *final(self) == *old(self)
                },
                (Some(song), Ok(url)) => {
                    &&& r matches Committed::Ready { song: s, url: u } && s == song && u@
                        == source_url(old(self).state.config.offline_cache_enabled, url@, cached)
                    &&& *final(self) == old(self).committed(song, pos, new_instance)
                },
            },
    {
        if pos >= self.state.queue.len() {
            return Committed::NoSong;
        }
        let song = self.state.queue[pos].clone();
        match stream_url {
            Err(e) => Committed::NoUrl(
                Notice {
                    message: joined("Failed to get stream URL: ", e.as_str()),
                    is_error: true,
                },
            ),
            Ok(url) => {
                let url = pick_url(self.state.config.offline_cache_enabled, url, cached);
                let duration: u32 = match song.duration {
                    Some(d) => d,
                    None => 0,
                };
                let volume: i32 = self.state.now_playing.volume;
                self.state.queue_position = Some(pos);
                self.state.now_playing = NowPlaying {
                    song: Some(song.clone()),
                    state: PlaybackState::Playing,
                    position: Binary64::zero(),
                    duration,
                    sample_rate: None,
                    bit_depth: None,
                    format: None,
                    channels: None,
                    volume,
                };
                self.stamp_loadfile();
                if new_instance {
                    self.mark_play_instance();
                }
                Committed::Ready { song, url }
            },
        }
    }

    /// How a fresh, cold queue start is handed to mpv.
    pub open spec fn start_mode(self) -> PlayMode {
        if self.state.config.stream_on_start {
            PlayMode::Direct
        } else {
            PlayMode::Buffered
        }
    }

    /// Audio-handoff strategy for a fresh, cold queue start, chosen from the
    /// settings: stream at once, or download the whole track first.
    #[must_use]
    pub fn preferred_start_mode(&self) -> (r: PlayMode)
        ensures
            r == self.start_mode(),
    {
        if self.state.config.stream_on_start {
            PlayMode::Direct
        } else {
            PlayMode::Buffered
        }
    }

    /// Cancel any in-flight pre-buffer download because playback goes on
    /// without it. The task notices at its next checkpoint and returns without
    /// loading.
    pub fn cancel_prebuffer(&mut self)
        ensures
            *final(self) == old(self).without_prebuffer(),
    {
        self.tasks.prebuffer_cancel = None;
        self.tasks.prebuffer_loading = None;
    }

    /// The core once `song` at `pos` was committed.
    pub open spec fn committed(self, song: Child, pos: usize, new_instance: bool) -> DaemonCore {
        DaemonCore {
            state: committed_state(self.state, song, pos),
            tasks: committed_tasks(self.tasks, new_instance),
            ..self
        }
    }

    /// The core once a new pre-buffer task took the place of the one before.
    pub open spec fn buffering(self) -> DaemonCore {
        let task = self.tasks.next_task;
        DaemonCore {
            tasks: Tasks {
                next_task: after(task),
                prebuffer_cancel: Some(task),
                prebuffer_loading: Some(LoadingFlag { task, loading: true }),
                ..self.tasks
            },
            ..self
        }
    }

    /// `r` hands `url` for the position to mpv: directly, decoding from the
    /// offset where mpv can and seeking to it afterwards where it cannot, or
    /// through a download.
    pub open spec fn dispatches(
        self,
        url: Seq<char>,
        pos: usize,
        mode: PlayMode,
        start_at: Binary64,
        r: Dispatch,
    ) -> bool {
        match r {
            Dispatch::Direct(d) => {
                &&& loads_directly(url, mode)
                &&& d.url@ == url
                &&& d.pos == pos
                &&& d.start == (if takes_index(self.mpv@.version) {
                    usable_offset(start_at)
                } else {
                    None
                })
                &&& d.seek_after == (if takes_index(self.mpv@.version) {
                    None
                } else {
                    usable_offset(start_at)
                })
            },
            Dispatch::Buffered(b) => {
                &&& !loads_directly(url, mode)
                &&& b.task == self.tasks.next_task
                &&& b.url@ == url
                &&& b.pos == pos
            },
        }
    }

    /// The core once `url` was handed to mpv in that mode.
    pub open spec fn dispatched(self, url: Seq<char>, mode: PlayMode) -> DaemonCore {
        if loads_directly(url, mode) {
            self.without_prebuffer()
        } else {
            self.buffering()
        }
    }

    /// The core with no pre-buffer task current.
    pub open spec fn without_prebuffer(self) -> DaemonCore {
        DaemonCore {
            tasks: Tasks { prebuffer_cancel: None, prebuffer_loading: None, ..self.tasks },
            ..self
        }
    }

    /// Hand a committed URL to mpv. A local file is always loaded directly. A
    /// direct load supersedes any download that is under way; a buffered one
    /// takes the place of the one before it.
    pub fn dispatch_play(
        &mut self,
        stream_url: String,
        pos: usize,
        mode: PlayMode,
        start_at: Binary64,
    ) -> (r: Dispatch)
        ensures
            old(self).dispatches(stream_url@, pos, mode, start_at, r),
            *final(self) == old(self).dispatched(stream_url@, mode),
    {
        if starts_with_char(stream_url.as_str(), '/') || mode == PlayMode::Direct {
            self.cancel_prebuffer();
            let offset = if start_at.is_finite() && start_at.is_positive() {
                Some(start_at)
            } else {
                None
            };
            if self.mpv.supports_loadfile_index() {
                Dispatch::Direct(
                    DirectLoad { url: stream_url, pos, start: offset, seek_after: None },
                )
            } else {
                Dispatch::Direct(
                    DirectLoad { url: stream_url, pos, start: None, seek_after: offset },
                )
            }
        } else {
            let task = self.tasks.next_task;
            self.tasks.next_task = bumped(task);
            self.tasks.prebuffer_cancel = Some(task);
            self.tasks.prebuffer_loading = Some(LoadingFlag { task, loading: true });
            Dispatch::Buffered(BufferedLoad { task, url: stream_url, pos })
        }
    }

    /// Takes over the outcome of a direct load: nothing where mpv took it, or
    /// what mpv complained about.
    pub fn direct_loaded(&mut self, seek_after: Option<Binary64>, failure: Option<String>) -> (r:
        AfterLoad)
        ensures
            match failure {
                Some(e) => {
                    &&& r matches AfterLoad::Failed(n) && n.is_error && n.message@ == "MPV error: "@
                        + e@
                    &&& *final(self) == *old(self)
                },
                None => {
                    &&& r == (AfterLoad::Settle { gen: final(self).tasks.loadfile_gen, seek_after })
                    &&& *final(self) == old(self).stamped()
                },
            },
    {
        match failure {
            Some(e) => AfterLoad::Failed(
                Notice { message: joined("MPV error: ", e.as_str()), is_error: true },
            ),
            None => AfterLoad::Settle { gen: self.stamp_loadfile(), seek_after },
        }
    }

    /// What happens to the playhead once a position was handed to mpv: a start
    /// offset shows at once, before the first tick.
    pub fn playing_from(&mut self, start_at: Binary64)
        ensures
            *final(self) == (if start_at.above(0) {
                old(self).at_position(start_at)
            } else {
                *old(self)
            }),
    {
        if start_at.is_positive() {
            self.state.now_playing.position = start_at;
        }
    }

    /// The core with the playhead at `position`.
    pub open spec fn at_position(self, position: Binary64) -> DaemonCore {
        DaemonCore {
            state: DaemonState {
                now_playing: NowPlaying { position, ..self.state.now_playing },
                ..self.state
            },
            ..self
        }
    }

    /// Whether mpv is unpaused before a download starts. `paused` is mpv's
    /// answer, nothing where it gave none.
    #[must_use]
    pub fn unpause_before_buffering(paused: Option<bool>) -> (r: bool)
        ensures
            r == (paused == Some(true)),
    {
        paused == Some(true)
    }

    /// Whether mpv is stopped before a download starts, so that it falls
    /// silent at once. `idle` is mpv's answer, nothing where it gave none.
    #[must_use]
    pub fn stop_before_buffering(running: bool, idle: Option<bool>) -> (r: bool)
        ensures
            r == (running && idle == Some(false)),
    {
        running && idle == Some(false)
    }

    // -- Offline cache.

    /// The track to store in the cache after `url` was loaded for the
    /// position: none for a local file, or when the cache is off.
    pub fn spawn_cache_population(&self, pos: usize, url: &str) -> (r: Option<CachePopulation>)
        ensures
            match r {
                Some(p) => !is_local(url@) && self.offline_cache_enabled && pos
                    < self.state.queue@.len() && p.song_id == self.state.queue@[pos as int].id
                    && p.url@ == url@,
                None => is_local(url@) || !self.offline_cache_enabled || pos
                    >= self.state.queue@.len(),
            },
    {
        if starts_with_char(url, '/') || !self.offline_cache_enabled || pos
            >= self.state.queue.len() {
            return None;
        }
        Some(
            CachePopulation { song_id: self.state.queue[pos].id.clone(), url: url.to_owned() },
        )
    }

    /// The size that the cache is cut down to after a track was stored.
    #[must_use]
    pub fn cache_capacity(&self) -> (r: u64)
        ensures
            r == capacity_bytes(self.offline_cache_max_mb),
            1024 * 1024 <= r <= 102_400 * 1024 * 1024,
    {
        let mb: u64 = if self.offline_cache_max_mb < 1 {
            1
        } else if self.offline_cache_max_mb > 102_400 {
            102_400
        } else {
            self.offline_cache_max_mb as u64
        };
        mb * 1024 * 1024
    }
}

/// The capacity of the cache: as many MiB as set, at least one and at most a
/// hundred gibibytes.
pub open spec fn capacity_bytes(max_mb: u32) -> int {
    let mb = if max_mb < 1 {
        1
    } else if max_mb > 102_400 {
        102_400
    } else {
        max_mb as int
    };
    mb * 1024 * 1024
}

/// A step in storing a track in the cache.
pub enum CacheEvent {
    /// Whether a place for the track could be reserved.
    Reserved(bool),
    /// The download is complete.
    Downloaded,
    DownloadFailed,
    /// The downloaded file of that size now has its final name.
    Renamed(u64),
    RenameFailed,
}

/// What the driver does next to store a track.
pub enum CacheStep {
    Download,
    /// Give the downloaded file its final name.
    Rename,
    /// Delete the partial file and forget the track.
    Abandon,
    /// Index the track with its size, then evict down to the capacity.
    Commit { size: u64, capacity: u64 },
    /// Nothing.
    Leave,
}

impl DaemonCore {
    /// Decides the next step in storing a track. A partial download is
    /// deleted, never indexed.
    pub fn populate_cache(&self, event: CacheEvent) -> (r: CacheStep)
        ensures
            match event {
                CacheEvent::Reserved(true) => r is Download,
                CacheEvent::Reserved(false) => r is Leave,
                CacheEvent::Downloaded => r is Rename,
                CacheEvent::DownloadFailed => r is Abandon,
                CacheEvent::Renamed(size) => r matches CacheStep::Commit { size: s, capacity } && s
                    == size && capacity == capacity_bytes(self.offline_cache_max_mb),
                CacheEvent::RenameFailed => r is Abandon,
            },
    {
        match event {
            CacheEvent::Reserved(reserved) => if reserved {
                CacheStep::Download
            } else {
                CacheStep::Leave
            },
            CacheEvent::Downloaded => CacheStep::Rename,
            CacheEvent::DownloadFailed => CacheStep::Abandon,
            CacheEvent::Renamed(size) => CacheStep::Commit {
                size,
                capacity: self.cache_capacity(),
            },
            CacheEvent::RenameFailed => CacheStep::Abandon,
        }
    }
}

} // verus!

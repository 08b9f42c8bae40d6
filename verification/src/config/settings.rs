//! The settings themselves and their form on disk.

use crate::binary64::Binary64;
use crate::config::keybind::{actions_differ, cloned_bindings, Keybinding};
use crate::config::modes::{MacosAudioMode, RepeatMode, ReplayGainMode};
use crate::secret::Secret;
use crate::strings::{text_of, texts};
use vstd::prelude::*;

verus! {

/// A command run to obtain the password: a shell string or an argv array.
#[derive(Debug, PartialEq, Eq)]
pub enum PasswordEval {
    /// Run via `sh -c`; the shell expands env vars, `~`, and pipes.
    Shell(String),
    /// Direct exec of `[program, args...]`; no shell involved.
    Argv(Vec<String>),
}

/// What a password command says, as characters.
pub enum PasswordEvalView {
    Shell(Seq<char>),
    Argv(Seq<Seq<char>>),
}

impl View for PasswordEval {
    type V = PasswordEvalView;

    open spec fn view(&self) -> PasswordEvalView {
        match self {
            PasswordEval::Shell(s) => PasswordEvalView::Shell(s@),
            PasswordEval::Argv(parts) => PasswordEvalView::Argv(texts(parts@)),
        }
    }
}

impl Clone for PasswordEval {
    fn clone(&self) -> (r: Self)
        ensures
            r@ == self@,
    {
        match self {
            PasswordEval::Shell(s) => PasswordEval::Shell(s.clone()),
            PasswordEval::Argv(parts) => {
                let copied = cloned_texts(parts);
                PasswordEval::Argv(copied)
            },
        }
    }
}

/// A copy of a list of strings.
pub fn cloned_texts(v: &Vec<String>) -> (r: Vec<String>)
    ensures
        texts(r@) == texts(v@),
        r@ == v@,
{
    let mut out: Vec<String> = Vec::new();
    for i in 0..v.len()
        invariant
            out@ == v@.take(i as int),
    {
        out.push(v[i].clone());
    }
    proof {
        assert(v@.take(v@.len() as int) =~= v@);
    }
    out
}

/// The command that an optional password command holds.
pub open spec fn eval_of(o: Option<PasswordEval>) -> Option<PasswordEvalView> {
    match o {
        Some(e) => Some(e@),
        None => None,
    }
}

/// A copy of an optional password command.
pub fn cloned_eval(o: &Option<PasswordEval>) -> (r: Option<PasswordEval>)
    ensures
        eval_of(r) == eval_of(*o),
{
    match o {
        Some(e) => Some(e.clone()),
        None => None,
    }
}

/// A copy of an optional string.
pub fn cloned_text(o: &Option<String>) -> (r: Option<String>)
    ensures
        r == *o,
{
    match o {
        Some(s) => Some(s.clone()),
        None => None,
    }
}

/// Playback queue exclusion rules: a song failing any set criterion never
/// makes it into the queue.
#[derive(Debug, PartialEq, Eq)]
pub struct PlaybackFilters {
    /// Exclude songs rated `1..=min_rating`; `0` disables the rating filter.
    pub min_rating: u8,
    /// Exclude songs released before this year, when known.
    pub year_min: Option<i32>,
    /// Exclude songs released after this year, when known.
    pub year_max: Option<i32>,
    /// Exclude songs shorter than this, in seconds, when duration is known.
    pub duration_min_secs: Option<u32>,
    /// Exclude songs longer than this, in seconds, when duration is known.
    pub duration_max_secs: Option<u32>,
    /// Exclude songs whose genre case-insensitively matches one of these.
    pub excluded_genres: Vec<String>,
    /// Exclude songs whose artist case-insensitively matches one of these.
    pub excluded_artists: Vec<String>,
}

/// The rules as mathematical values.
#[verifier::ext_equal]
pub struct FiltersView {
    pub min_rating: u8,
    pub year_min: Option<i32>,
    pub year_max: Option<i32>,
    pub duration_min_secs: Option<u32>,
    pub duration_max_secs: Option<u32>,
    pub excluded_genres: Seq<Seq<char>>,
    pub excluded_artists: Seq<Seq<char>>,
}

/// Rules that exclude nothing.
pub open spec fn no_filters() -> FiltersView {
    FiltersView {
        min_rating: 0,
        year_min: None,
        year_max: None,
        duration_min_secs: None,
        duration_max_secs: None,
        excluded_genres: Seq::empty(),
        excluded_artists: Seq::empty(),
    }
}

impl View for PlaybackFilters {
    type V = FiltersView;

    open spec fn view(&self) -> FiltersView {
        FiltersView {
            min_rating: self.min_rating,
            year_min: self.year_min,
            year_max: self.year_max,
            duration_min_secs: self.duration_min_secs,
            duration_max_secs: self.duration_max_secs,
            excluded_genres: texts(self.excluded_genres@),
            excluded_artists: texts(self.excluded_artists@),
        }
    }
}

impl Default for PlaybackFilters {
    fn default() -> (r: Self)
        ensures
            r@ == no_filters(),
    {
        let r = PlaybackFilters {
            min_rating: 0,
            year_min: None,
            year_max: None,
            duration_min_secs: None,
            duration_max_secs: None,
            excluded_genres: Vec::new(),
            excluded_artists: Vec::new(),
        };
        proof {
            assert(r@ =~~= no_filters());
        }
        r
    }
}

impl Clone for PlaybackFilters {
    fn clone(&self) -> (r: Self)
        ensures
            r@ == self@,
    {
        PlaybackFilters {
            min_rating: self.min_rating,
            year_min: self.year_min,
            year_max: self.year_max,
            duration_min_secs: self.duration_min_secs,
            duration_max_secs: self.duration_max_secs,
            excluded_genres: cloned_texts(&self.excluded_genres),
            excluded_artists: cloned_texts(&self.excluded_artists),
        }
    }
}

impl PlaybackFilters {
    /// Whether no rule is set.
    pub fn is_default(&self) -> (r: bool)
        ensures
            r == (self@ == no_filters()),
    {
        let r = self.min_rating == 0 && self.year_min.is_none() && self.year_max.is_none()
            && self.duration_min_secs.is_none() && self.duration_max_secs.is_none()
            && self.excluded_genres.len() == 0 && self.excluded_artists.len() == 0;
        proof {
            if r {
                assert(self@ =~~= no_filters());
            } else if self.excluded_genres@.len() != 0 {
                assert(self@.excluded_genres.len() != 0);
            } else if self.excluded_artists@.len() != 0 {
                assert(self@.excluded_artists.len() != 0);
            }
        }
        r
    }
}

/// Why a configuration is refused.
#[allow(inconsistent_fields)]
#[derive(Debug, PartialEq, Eq)]
pub enum ConfigError {
    /// The file is not there.
    NotFound { path: String },
    /// A required setting is empty.
    MissingField { field: String },
    /// The server address is not a URL.
    InvalidUrl { url: String },
    /// The file does not parse.
    Parse(toml::de::Error),
    /// A setting holds a value that it cannot have.
    InvalidValue { field: &'static str, reason: &'static str },
}

/// User configuration.
pub struct Config {
    /// Subsonic server base URL, scheme included.
    pub base_url: String,
    /// Subsonic account username.
    pub username: String,
    /// Resolved at load time from env, `PasswordEval`, `PasswordFile`, the OS
    /// keychain, then the inline value.
    pub password: Secret,
    /// Path of a file holding the password; takes priority over the inline value.
    pub password_file: Option<String>,
    /// Command whose stdout is the password.
    pub password_eval: Option<PasswordEval>,
    /// True when the password lives in the OS keychain.
    pub password_keyring: bool,
    /// True when `password` came from the environment at load time. Never
    /// persisted.
    pub password_from_env: bool,
    /// Active theme name; empty selects the built-in default.
    pub theme: String,
    /// Whether the cava visualizer is enabled.
    pub cava: bool,
    /// Cava visualizer height in rows.
    pub cava_size: u8,
    /// `false` forces standalone mode on next launch.
    pub daemon: bool,
    /// Auto-continue with random songs when the queue ends.
    pub auto_continue: bool,
    /// Start playback by streaming instead of downloading the track first.
    pub stream_on_start: bool,
    /// Milliseconds to wait after the last keystroke before searching.
    pub search_debounce_ms: u32,
    /// Maximum artist results of a search.
    pub search_artist_limit: u32,
    /// Maximum album results of a search.
    pub search_album_limit: u32,
    /// Maximum song results of a search.
    pub search_song_limit: u32,
    /// Restore the queue, track and playhead on the next start.
    pub resume_on_start: bool,
    /// Start a restored session playing instead of paused.
    pub autoplay_on_start: bool,
    /// Cache streamed tracks locally.
    pub offline_cache_enabled: bool,
    /// Maximum size of the offline track cache in MiB.
    pub offline_cache_max_mb: u32,
    /// Queue repeat mode.
    pub repeat_mode: RepeatMode,
    /// Whether cover art rendering is enabled.
    pub cover_art: bool,
    /// Height of the now-playing section in rows when cover art is visible.
    pub cover_art_size: u8,
    /// Report plays to the server.
    pub scrobble: bool,
    /// Show a desktop notification on track change.
    pub notifications: bool,
    /// Milliseconds to hold a track paused after re-clocking the audio device.
    pub rate_switch_delay_ms: u32,
    /// macOS-only `CoreAudio` output mode.
    pub macos_audio_mode: MacosAudioMode,
    /// Library to browse and play from; `None` is all.
    pub music_folder_id: Option<i64>,
    /// True once the user has picked a library.
    pub music_folder_chosen: bool,
    /// `ReplayGain` mode.
    pub replay_gain_mode: ReplayGainMode,
    /// `ReplayGain` preamp in dB.
    pub replay_gain_preamp: Binary64,
    /// Prevent clipping from `ReplayGain` amplification.
    pub replay_gain_clip: bool,
    /// Exclusion rules applied when songs are added to the queue.
    pub playback_filters: PlaybackFilters,
    /// Overrides for the global keybindings, each action once.
    pub keybindings: Vec<Keybinding>,
}

/// The configuration file: each key with its value, or absent.
pub struct ConfigOnDisk {
    pub base_url: Option<String>,
    pub username: Option<String>,
    pub password: Option<String>,
    pub password_file: Option<String>,
    pub password_eval: Option<PasswordEval>,
    pub password_keyring: Option<bool>,
    pub theme: Option<String>,
    pub cava: Option<bool>,
    pub cava_size: Option<u8>,
    pub daemon: Option<bool>,
    pub auto_continue: Option<bool>,
    pub stream_on_start: Option<bool>,
    pub search_debounce_ms: Option<u32>,
    pub search_artist_limit: Option<u32>,
    pub search_album_limit: Option<u32>,
    pub search_song_limit: Option<u32>,
    pub resume_on_start: Option<bool>,
    pub autoplay_on_start: Option<bool>,
    pub offline_cache_enabled: Option<bool>,
    pub offline_cache_max_mb: Option<u32>,
    pub repeat_mode: Option<RepeatMode>,
    pub cover_art: Option<bool>,
    pub cover_art_size: Option<u8>,
    pub scrobble: Option<bool>,
    pub notifications: Option<bool>,
    pub rate_switch_delay_ms: Option<u32>,
    pub macos_audio_mode: Option<MacosAudioMode>,
    pub music_folder_id: Option<i64>,
    pub music_folder_chosen: Option<bool>,
    pub replay_gain_mode: Option<ReplayGainMode>,
    pub replay_gain_preamp: Option<Binary64>,
    pub replay_gain_clip: Option<bool>,
    pub playback_filters: Option<PlaybackFilters>,
    pub keybindings: Option<Vec<Keybinding>>,
}

/// The value of a key, or its default where the key is absent.
pub open spec fn value_or<T>(o: Option<T>, default: T) -> T {
    match o {
        Some(v) => v,
        None => default,
    }
}

/// The text of a key, or the empty text where the key is absent.
pub open spec fn text_or_empty(o: Option<String>) -> Seq<char> {
    match o {
        Some(s) => s@,
        None => Seq::empty(),
    }
}

/// `v` as the file holds it when only `true` is written.
pub open spec fn only_true(v: bool) -> Option<bool> {
    if v {
        Some(true)
    } else {
        None
    }
}

fn only_if_true(v: bool) -> (r: Option<bool>)
    ensures
        r == only_true(v),
{
    if v {
        Some(true)
    } else {
        None
    }
}

fn text_or_default(o: Option<String>) -> (r: String)
    ensures
        r@ == text_or_empty(o),
{
    match o {
        Some(s) => s,
        None => String::new(),
    }
}

fn owned(s: &str) -> (r: Option<String>)
    ensures
        text_of(r) == Some(s@),
{
    Some(s.to_owned())
}

impl Config {
    /// The password is held outside the file: by a password file, a password
    /// command, the OS keychain or the environment.
    pub open spec fn secret_external(self) -> bool {
        ||| (self.password_file matches Some(p) && p@.len() > 0)
        ||| self.password_eval is Some
        ||| self.password_keyring
        ||| self.password_from_env
    }

    /// Each action has one keybinding at most.
    pub open spec fn keybindings_valid(self) -> bool {
        actions_differ(self.keybindings@)
    }

    /// What a saved file holds of these settings.
    pub open spec fn saved_as(self, d: ConfigOnDisk) -> bool {
        &&& text_of(d.base_url) == Some(self.base_url@)
        &&& text_of(d.username) == Some(self.username@)
        &&& text_of(d.password) == (if self.secret_external() || self.password@.len() == 0 {
            None
        } else {
            Some(self.password@)
        })
        &&& text_of(d.password_file) == text_of(self.password_file)
        &&& eval_of(d.password_eval) == eval_of(self.password_eval)
        &&& d.password_keyring == only_true(self.password_keyring)
        &&& text_of(d.theme) == Some(self.theme@)
        &&& d.cava == Some(self.cava)
        &&& d.cava_size == Some(self.cava_size)
        &&& d.daemon == Some(self.daemon)
        &&& d.auto_continue == Some(self.auto_continue)
        &&& d.stream_on_start == Some(self.stream_on_start)
        &&& d.search_debounce_ms == Some(self.search_debounce_ms)
        &&& d.search_artist_limit == Some(self.search_artist_limit)
        &&& d.search_album_limit == Some(self.search_album_limit)
        &&& d.search_song_limit == Some(self.search_song_limit)
        &&& d.resume_on_start == Some(self.resume_on_start)
        &&& d.autoplay_on_start == Some(self.autoplay_on_start)
        &&& d.offline_cache_enabled == Some(self.offline_cache_enabled)
        &&& d.offline_cache_max_mb == Some(self.offline_cache_max_mb)
        &&& d.repeat_mode == Some(self.repeat_mode)
        &&& d.cover_art == Some(self.cover_art)
        &&& d.cover_art_size == Some(self.cover_art_size)
        &&& d.scrobble == Some(self.scrobble)
        &&& d.notifications == Some(self.notifications)
        &&& d.rate_switch_delay_ms == Some(self.rate_switch_delay_ms)
        &&& d.macos_audio_mode == (if self.macos_audio_mode == MacosAudioMode::Off {
            None
        } else {
            Some(self.macos_audio_mode)
        })
        &&& d.music_folder_id == self.music_folder_id
        &&& d.music_folder_chosen == only_true(self.music_folder_chosen)
        &&& d.replay_gain_mode == Some(self.replay_gain_mode)
        &&& d.replay_gain_preamp == Some(self.replay_gain_preamp)
        &&& d.replay_gain_clip == Some(self.replay_gain_clip)
        &&& match d.playback_filters {
            Some(f) => self.playback_filters@ != no_filters() && f@ == self.playback_filters@,
            None => self.playback_filters@ == no_filters(),
        }
        &&& match d.keybindings {
            Some(b) => self.keybindings@.len() > 0 && b@ == self.keybindings@,
            None => self.keybindings@.len() == 0,
        }
    }

    /// The settings that a file stands for: the written value of each key, the
    /// documented default of each absent one.
    pub open spec fn loaded_from(self, d: ConfigOnDisk) -> bool {
        &&& self.base_url@ == text_or_empty(d.base_url)
        &&& self.username@ == text_or_empty(d.username)
        &&& self.password@ == text_or_empty(d.password)
        &&& text_of(self.password_file) == text_of(d.password_file)
        &&& eval_of(self.password_eval) == eval_of(d.password_eval)
        &&& self.password_keyring == value_or(d.password_keyring, false)
        &&& self.password_from_env == false
        &&& self.theme@ == text_or_empty(d.theme)
        &&& self.cava == value_or(d.cava, false)
        &&& self.cava_size == value_or(d.cava_size, 40)
        &&& self.daemon == value_or(d.daemon, true)
        &&& self.auto_continue == value_or(d.auto_continue, false)
        &&& self.stream_on_start == value_or(d.stream_on_start, true)
        &&& self.search_debounce_ms == value_or(d.search_debounce_ms, 200)
        &&& self.search_artist_limit == value_or(d.search_artist_limit, 100)
        &&& self.search_album_limit == value_or(d.search_album_limit, 100)
        &&& self.search_song_limit == value_or(d.search_song_limit, 200)
        &&& self.resume_on_start == value_or(d.resume_on_start, true)
        &&& self.autoplay_on_start == value_or(d.autoplay_on_start, false)
        &&& self.offline_cache_enabled == value_or(d.offline_cache_enabled, false)
        &&& self.offline_cache_max_mb == value_or(d.offline_cache_max_mb, 2048)
        &&& self.repeat_mode == value_or(d.repeat_mode, RepeatMode::Off)
        &&& self.cover_art == value_or(d.cover_art, false)
        &&& self.cover_art_size == value_or(d.cover_art_size, 16)
        &&& self.scrobble == value_or(d.scrobble, true)
        &&& self.notifications == value_or(d.notifications, true)
        &&& self.rate_switch_delay_ms == value_or(d.rate_switch_delay_ms, 500)
        &&& self.macos_audio_mode == value_or(d.macos_audio_mode, MacosAudioMode::Off)
        &&& self.music_folder_id == d.music_folder_id
        &&& self.music_folder_chosen == value_or(d.music_folder_chosen, false)
        &&& self.replay_gain_mode == value_or(d.replay_gain_mode, ReplayGainMode::Off)
        &&& self.replay_gain_preamp == value_or(d.replay_gain_preamp, (Binary64 { bits: 0 }))
        &&& self.replay_gain_clip == value_or(d.replay_gain_clip, false)
        &&& self.playback_filters@ == (match d.playback_filters {
            Some(f) => f@,
            None => no_filters(),
        })
        &&& self.keybindings@ == (match d.keybindings {
            Some(b) => b@,
            None => Seq::empty(),
        })
    }

    /// The two configurations agree in every setting but the password and
    /// where it came from.
    pub open spec fn same_settings(self, other: Config) -> bool {
        &&& self.base_url@ == other.base_url@
        &&& self.username@ == other.username@
        &&& text_of(self.password_file) == text_of(other.password_file)
        &&& eval_of(self.password_eval) == eval_of(other.password_eval)
        &&& self.password_keyring == other.password_keyring
        &&& self.theme@ == other.theme@
        &&& self.cava == other.cava
        &&& self.cava_size == other.cava_size
        &&& self.daemon == other.daemon
        &&& self.auto_continue == other.auto_continue
        &&& self.stream_on_start == other.stream_on_start
        &&& self.search_debounce_ms == other.search_debounce_ms
        &&& self.search_artist_limit == other.search_artist_limit
        &&& self.search_album_limit == other.search_album_limit
        &&& self.search_song_limit == other.search_song_limit
        &&& self.resume_on_start == other.resume_on_start
        &&& self.autoplay_on_start == other.autoplay_on_start
        &&& self.offline_cache_enabled == other.offline_cache_enabled
        &&& self.offline_cache_max_mb == other.offline_cache_max_mb
        &&& self.repeat_mode == other.repeat_mode
        &&& self.cover_art == other.cover_art
        &&& self.cover_art_size == other.cover_art_size
        &&& self.scrobble == other.scrobble
        &&& self.notifications == other.notifications
        &&& self.rate_switch_delay_ms == other.rate_switch_delay_ms
        &&& self.macos_audio_mode == other.macos_audio_mode
        &&& self.music_folder_id == other.music_folder_id
        &&& self.music_folder_chosen == other.music_folder_chosen
        &&& self.replay_gain_mode == other.replay_gain_mode
        &&& self.replay_gain_preamp == other.replay_gain_preamp
        &&& self.replay_gain_clip == other.replay_gain_clip
        &&& self.playback_filters@ == other.playback_filters@
        &&& self.keybindings@ == other.keybindings@
    }

    /// The form in which the settings are saved. The secret is written only
    /// where nothing else holds it.
    pub fn as_on_disk(&self) -> (r: ConfigOnDisk)
        ensures
            self.saved_as(r),
            r.keybindings_valid() == self.keybindings_valid(),
    {
        let file_set = match &self.password_file {
            Some(s) => !s.as_str().is_empty(),
            None => false,
        };
        let external = file_set || self.password_eval.is_some() || self.password_keyring
            || self.password_from_env;
        ConfigOnDisk {
            base_url: Some(self.base_url.clone()),
            username: Some(self.username.clone()),
            password: if external || self.password.is_empty() {
                None
            } else {
                owned(self.password.expose())
            },
            password_file: cloned_text(&self.password_file),
            password_eval: cloned_eval(&self.password_eval),
            password_keyring: only_if_true(self.password_keyring),
            theme: Some(self.theme.clone()),
            cava: Some(self.cava),
            cava_size: Some(self.cava_size),
            daemon: Some(self.daemon),
            auto_continue: Some(self.auto_continue),
            stream_on_start: Some(self.stream_on_start),
            search_debounce_ms: Some(self.search_debounce_ms),
            search_artist_limit: Some(self.search_artist_limit),
            search_album_limit: Some(self.search_album_limit),
            search_song_limit: Some(self.search_song_limit),
            resume_on_start: Some(self.resume_on_start),
            autoplay_on_start: Some(self.autoplay_on_start),
            offline_cache_enabled: Some(self.offline_cache_enabled),
            offline_cache_max_mb: Some(self.offline_cache_max_mb),
            repeat_mode: Some(self.repeat_mode),
            cover_art: Some(self.cover_art),
            cover_art_size: Some(self.cover_art_size),
            scrobble: Some(self.scrobble),
            notifications: Some(self.notifications),
            rate_switch_delay_ms: Some(self.rate_switch_delay_ms),
            macos_audio_mode: if self.macos_audio_mode.is_off() {
                None
            } else {
                Some(self.macos_audio_mode)
            },
            music_folder_id: self.music_folder_id,
            music_folder_chosen: only_if_true(self.music_folder_chosen),
            replay_gain_mode: Some(self.replay_gain_mode),
            replay_gain_preamp: Some(self.replay_gain_preamp),
            replay_gain_clip: Some(self.replay_gain_clip),
            playback_filters: if self.playback_filters.is_default() {
                None
            } else {
                Some(self.playback_filters.clone())
            },
            keybindings: if self.keybindings.len() == 0 {
                None
            } else {
                Some(cloned_bindings(&self.keybindings))
            },
        }
    }

    /// The settings that a file stands for, before the password is resolved.
    ///
    /// # Errors
    /// `Parse` for a gain that is not finite.
    pub fn from_on_disk(d: ConfigOnDisk) -> (r: Result<Config, ConfigError>)
        ensures
            match r {
                Ok(c) => {
                    &&& c.loaded_from(d)
                    &&& d.acceptable()
                    &&& c.keybindings_valid() == d.keybindings_valid()
                },
                Err(e) => !d.acceptable() && refused_gain(e),
            },
    {
        let replay_gain_preamp = match d.replay_gain_preamp {
            Some(v) => match deserialize_replay_gain_preamp(v) {
                Ok(v) => v,
                Err(e) => {
                    return Err(ConfigError::Parse(e));
                },
            },
            None => Binary64::zero(),
        };
        let keybindings = match d.keybindings {
            Some(b) => b,
            None => Vec::new(),
        };
        Ok(
            Config {
                base_url: text_or_default(d.base_url),
                username: text_or_default(d.username),
                password: match d.password {
                    Some(s) => Secret::from_string(s),
                    None => Secret::new(),
                },
                password_file: d.password_file,
                password_eval: d.password_eval,
                password_keyring: d.password_keyring.unwrap_or(false),
                password_from_env: false,
                theme: text_or_default(d.theme),
                cava: d.cava.unwrap_or(false),
                cava_size: d.cava_size.unwrap_or(Self::default_cava_size()),
                daemon: d.daemon.unwrap_or(Self::default_daemon()),
                auto_continue: d.auto_continue.unwrap_or(false),
                stream_on_start: d.stream_on_start.unwrap_or(Self::default_stream_on_start()),
                search_debounce_ms: d.search_debounce_ms.unwrap_or(
                    Self::default_search_debounce_ms(),
                ),
                search_artist_limit: d.search_artist_limit.unwrap_or(
                    Self::default_search_artist_limit(),
                ),
                search_album_limit: d.search_album_limit.unwrap_or(
                    Self::default_search_album_limit(),
                ),
                search_song_limit: d.search_song_limit.unwrap_or(Self::default_search_song_limit()),
                resume_on_start: d.resume_on_start.unwrap_or(Self::default_resume_on_start()),
                autoplay_on_start: d.autoplay_on_start.unwrap_or(Self::default_autoplay_on_start()),
                offline_cache_enabled: d.offline_cache_enabled.unwrap_or(
                    Self::default_offline_cache_enabled(),
                ),
                offline_cache_max_mb: d.offline_cache_max_mb.unwrap_or(
                    Self::default_offline_cache_max_mb(),
                ),
                repeat_mode: d.repeat_mode.unwrap_or(RepeatMode::Off),
                cover_art: d.cover_art.unwrap_or(false),
                cover_art_size: d.cover_art_size.unwrap_or(Self::default_cover_art_size()),
                scrobble: d.scrobble.unwrap_or(Self::default_scrobble()),
                notifications: d.notifications.unwrap_or(Self::default_notifications()),
                rate_switch_delay_ms: d.rate_switch_delay_ms.unwrap_or(
                    Self::default_rate_switch_delay_ms(),
                ),
                macos_audio_mode: d.macos_audio_mode.unwrap_or(
                    Self::default_macos_audio_mode(),
                ),
                music_folder_id: d.music_folder_id,
                music_folder_chosen: d.music_folder_chosen.unwrap_or(false),
                replay_gain_mode: d.replay_gain_mode.unwrap_or(ReplayGainMode::Off),
                replay_gain_preamp,
                replay_gain_clip: d.replay_gain_clip.unwrap_or(false),
                playback_filters: match d.playback_filters {
                    Some(f) => f,
                    None => PlaybackFilters::default(),
                },
                keybindings,
            },
        )
    }
}

impl ConfigOnDisk {
    /// Each action has one keybinding at most.
    pub open spec fn keybindings_valid(self) -> bool {
        self.keybindings matches Some(b) ==> actions_differ(b@)
    }

    /// Loading takes the file: its gain, where it gives one, is finite.
    pub open spec fn acceptable(self) -> bool {
        self.replay_gain_preamp matches Some(v) ==> v.finite()
    }
}

/// The error for a file whose gain is not finite.
pub open spec fn refused_gain(e: ConfigError) -> bool {
    e matches ConfigError::Parse(cause) && error_message(cause)
        == "Invalid ReplayGainPreamp: must be finite"@
}

/// A refusal of the TOML parser.
#[verifier::external_type_specification]
#[verifier::external_body]
pub struct ExParseError(toml::de::Error);

/// The message that `toml::de::Error::message` reads from an error.
pub uninterp spec fn error_message(e: toml::de::Error) -> Seq<char>;

/// Calls `serde::de::Error::custom` for the error of the TOML parser. The result
/// carries the message; that it names no place in a file is left unsaid.
#[verifier::external_body]
fn parse_error(message: &str) -> (r: toml::de::Error)
    ensures
        error_message(r) == message@,
{
    serde::de::Error::custom(message)
}

/// Reads the gain of a file.
///
/// # Errors
/// A refusal of the parser for a gain that is not finite.
pub fn deserialize_replay_gain_preamp(value: Binary64) -> (r: Result<Binary64, toml::de::Error>)
    ensures
        match r {
            Ok(v) => value.finite() && v == value,
            Err(e) => !value.finite() && error_message(e)
                == "Invalid ReplayGainPreamp: must be finite"@,
        },
{
    match validate_replay_gain_preamp(value) {
        Ok(()) => Ok(value),
        Err(_) => Err(parse_error("Invalid ReplayGainPreamp: must be finite")),
    }
}

/// Reject non-finite gain before persistence, IPC, or mpv command construction.
///
/// # Errors
/// `InvalidValue` for a gain that is not finite.
pub fn validate_replay_gain_preamp(value: Binary64) -> (r: Result<(), ConfigError>)
    ensures
        match r {
            Ok(()) => value.finite(),
            Err(e) => {
                &&& !value.finite()
                &&& e is InvalidValue
                &&& e->InvalidValue_field@ == "ReplayGainPreamp"@
                &&& e->InvalidValue_reason@ == "must be finite"@
            },
        },
{
    if !value.is_finite() {
        return Err(
            ConfigError::InvalidValue { field: "ReplayGainPreamp", reason: "must be finite" },
        );
    }
    Ok(())
}

} // verus!

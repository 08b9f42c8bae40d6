//! Defaults of the settings and what can be asked of a configuration.

use crate::binary64::Binary64;
use crate::config::keybind::cloned_bindings;
use crate::config::modes::{MacosAudioMode, RepeatMode, ReplayGainMode};
use crate::config::settings::{
    cloned_eval, cloned_text, no_filters, validate_replay_gain_preamp, Config,
    ConfigError, PlaybackFilters,
};
use crate::secret::Secret;
use vstd::prelude::*;

verus! {

impl Config {
    pub fn default_cava_size() -> (r: u8)
        ensures
            r == 40,
    {
        40
    }

    pub fn default_daemon() -> (r: bool)
        ensures
            r,
    {
        true
    }

    pub fn default_cover_art_size() -> (r: u8)
        ensures
            r == 16,
    {
        16
    }

    pub fn default_scrobble() -> (r: bool)
        ensures
            r,
    {
        true
    }

    pub fn default_notifications() -> (r: bool)
        ensures
            r,
    {
        true
    }

    pub fn default_stream_on_start() -> (r: bool)
        ensures
            r,
    {
        true
    }

    pub fn default_search_debounce_ms() -> (r: u32)
        ensures
            r == 200,
    {
        200
    }

    pub fn default_search_artist_limit() -> (r: u32)
        ensures
            r == 100,
    {
        100
    }

    pub fn default_search_album_limit() -> (r: u32)
        ensures
            r == 100,
    {
        100
    }

    pub fn default_search_song_limit() -> (r: u32)
        ensures
            r == 200,
    {
        200
    }

    pub fn default_resume_on_start() -> (r: bool)
        ensures
            r,
    {
        true
    }

    pub fn default_autoplay_on_start() -> (r: bool)
        ensures
            !r,
    {
        false
    }

    pub fn default_offline_cache_enabled() -> (r: bool)
        ensures
            !r,
    {
        false
    }

    pub fn default_offline_cache_max_mb() -> (r: u32)
        ensures
            r == 2048,
    {
        2048
    }

    pub fn default_rate_switch_delay_ms() -> (r: u32)
        ensures
            r == 500,
    {
        500
    }

    pub fn default_macos_audio_mode() -> (r: MacosAudioMode)
        ensures
            r == MacosAudioMode::Off,
    {
        MacosAudioMode::Off
    }

    /// Every setting has its documented default.
    pub open spec fn is_default(self) -> bool {
        &&& self.base_url@ == Seq::<char>::empty()
        &&& self.username@ == Seq::<char>::empty()
        &&& self.password@ == Seq::<char>::empty()
        &&& self.password_file is None
        &&& self.password_eval is None
        &&& !self.password_keyring
        &&& !self.password_from_env
        &&& self.theme@ == Seq::<char>::empty()
        &&& !self.cava
        &&& self.cava_size == 40
        &&& self.daemon
        &&& !self.auto_continue
        &&& self.stream_on_start
        &&& self.search_debounce_ms == 200
        &&& self.search_artist_limit == 100
        &&& self.search_album_limit == 100
        &&& self.search_song_limit == 200
        &&& self.resume_on_start
        &&& !self.autoplay_on_start
        &&& !self.offline_cache_enabled
        &&& self.offline_cache_max_mb == 2048
        &&& self.repeat_mode == RepeatMode::Off
        &&& !self.cover_art
        &&& self.cover_art_size == 16
        &&& self.scrobble
        &&& self.notifications
        &&& self.rate_switch_delay_ms == 500
        &&& self.macos_audio_mode == MacosAudioMode::Off
        &&& self.music_folder_id is None
        &&& !self.music_folder_chosen
        &&& self.replay_gain_mode == ReplayGainMode::Off
        &&& self.replay_gain_preamp.bits == 0
        &&& !self.replay_gain_clip
        &&& self.playback_filters@ == no_filters()
        &&& self.keybindings@.len() == 0
    }

    /// Alias for [`Config::default`].
    #[must_use]
    pub fn new() -> (r: Self)
        ensures
            r.is_default(),
            r.keybindings_valid(),
    {
        Config::default()
    }

    /// True when `base_url`, username, and password are all non-empty.
    #[must_use]
    pub fn is_configured(&self) -> (r: bool)
        ensures
            r == (self.base_url@.len() > 0 && self.username@.len() > 0 && self.password@.len() > 0),
    {
        !self.base_url.as_str().is_empty() && !self.username.as_str().is_empty()
            && !self.password.is_empty()
    }

    /// The resolved password in plain text.
    #[must_use]
    pub fn password_str(&self) -> (r: &str)
        ensures
            r@ == self.password@,
    {
        self.password.expose()
    }

    /// What [`Config::validate`] answers, given whether the server address
    /// parses as a URL.
    pub open spec fn verdict(self, url_parses: bool, r: Result<(), ConfigError>) -> bool {
        if !self.replay_gain_preamp.finite() {
            r matches Err(ConfigError::InvalidValue { field, reason }) && field@
                == "ReplayGainPreamp"@ && reason@ == "must be finite"@
        } else if self.base_url@.len() == 0 {
            r matches Err(ConfigError::MissingField { field }) && field@ == "BaseURL"@
        } else if !url_parses {
            r matches Err(ConfigError::InvalidUrl { url }) && url@ == self.base_url@
        } else {
            r is Ok
        }
    }

    /// Reject a non-finite gain and an empty or malformed `base_url`, where
    /// `url_parses` says whether `base_url` parses as a URL.
    ///
    /// # Errors
    /// `InvalidValue`, `MissingField` or `InvalidUrl`, in that order.
    pub fn validate_with(&self, url_parses: bool) -> (r: Result<(), ConfigError>)
        ensures
            self.verdict(url_parses, r),
    {
        match validate_replay_gain_preamp(self.replay_gain_preamp) {
            Ok(()) => {},
            Err(e) => {
                return Err(e);
            },
        }
        if self.base_url.as_str().is_empty() {
            return Err(ConfigError::MissingField { field: "BaseURL".to_owned() });
        }
        if !url_parses {
            return Err(ConfigError::InvalidUrl { url: self.base_url.clone() });
        }
        Ok(())
    }

    /// Reject a non-finite gain and an empty or malformed `base_url`. An empty
    /// username or password is accepted.
    ///
    /// # Errors
    /// `InvalidValue`, `MissingField` or `InvalidUrl`, in that order.
    pub fn validate(&self) -> (r: Result<(), ConfigError>)
        ensures
            self.verdict(is_absolute_url(self.base_url@), r),
    {
        self.validate_with(url_parses(self.base_url.as_str()))
    }
}

impl Clone for Config {
    fn clone(&self) -> (r: Self)
        ensures
            r.same_settings(*self),
            r.password@ == self.password@,
            r.password_from_env == self.password_from_env,
    {
        Config {
            base_url: self.base_url.clone(),
            username: self.username.clone(),
            password: self.password.clone(),
            password_file: cloned_text(&self.password_file),
            password_eval: cloned_eval(&self.password_eval),
            password_keyring: self.password_keyring,
            password_from_env: self.password_from_env,
            theme: self.theme.clone(),
            cava: self.cava,
            cava_size: self.cava_size,
            daemon: self.daemon,
            auto_continue: self.auto_continue,
            stream_on_start: self.stream_on_start,
            search_debounce_ms: self.search_debounce_ms,
            search_artist_limit: self.search_artist_limit,
            search_album_limit: self.search_album_limit,
            search_song_limit: self.search_song_limit,
            resume_on_start: self.resume_on_start,
            autoplay_on_start: self.autoplay_on_start,
            offline_cache_enabled: self.offline_cache_enabled,
            offline_cache_max_mb: self.offline_cache_max_mb,
            repeat_mode: self.repeat_mode,
            cover_art: self.cover_art,
            cover_art_size: self.cover_art_size,
            scrobble: self.scrobble,
            notifications: self.notifications,
            rate_switch_delay_ms: self.rate_switch_delay_ms,
            macos_audio_mode: self.macos_audio_mode,
            music_folder_id: self.music_folder_id,
            music_folder_chosen: self.music_folder_chosen,
            replay_gain_mode: self.replay_gain_mode,
            replay_gain_preamp: self.replay_gain_preamp,
            replay_gain_clip: self.replay_gain_clip,
            playback_filters: self.playback_filters.clone(),
            keybindings: cloned_bindings(&self.keybindings),
        }
    }
}

/// Whether `url::Url::parse` accepts a text as an absolute URL.
pub uninterp spec fn is_absolute_url(text: Seq<char>) -> bool;

/// Calls `url::Url::parse`. The result says whether the text parsed; what the
/// URL grammar accepts is left unsaid, the answer is a function of the text
/// alone.
#[verifier::external_body]
fn url_parses(text: &str) -> (r: bool)
    ensures
        r == is_absolute_url(text@),
{
    url::Url::parse(text).is_ok()
}

impl Default for Config {
    fn default() -> (r: Self)
        ensures
            r.is_default(),
            r.keybindings_valid(),
    {
        Config {
            base_url: String::new(),
            username: String::new(),
            password: Secret::new(),
            password_file: None,
            theme: String::new(),
            cava: false,
            cava_size: Self::default_cava_size(),
            daemon: Self::default_daemon(),
            auto_continue: false,
            stream_on_start: Self::default_stream_on_start(),
            search_debounce_ms: Self::default_search_debounce_ms(),
            search_artist_limit: Self::default_search_artist_limit(),
            search_album_limit: Self::default_search_album_limit(),
            search_song_limit: Self::default_search_song_limit(),
            resume_on_start: Self::default_resume_on_start(),
            autoplay_on_start: Self::default_autoplay_on_start(),
            offline_cache_enabled: Self::default_offline_cache_enabled(),
            offline_cache_max_mb: Self::default_offline_cache_max_mb(),
            repeat_mode: RepeatMode::Off,
            cover_art: false,
            cover_art_size: Self::default_cover_art_size(),
            scrobble: Self::default_scrobble(),
            notifications: Self::default_notifications(),
            rate_switch_delay_ms: Self::default_rate_switch_delay_ms(),
            macos_audio_mode: Self::default_macos_audio_mode(),
            music_folder_id: None,
            music_folder_chosen: false,
            password_eval: None,
            password_keyring: false,
            password_from_env: false,
            replay_gain_mode: ReplayGainMode::Off,
            replay_gain_preamp: Binary64::zero(),
            replay_gain_clip: false,
            playback_filters: PlaybackFilters::default(),
            keybindings: Vec::new(),
        }
    }
}

} // verus!

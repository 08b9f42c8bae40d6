//! What a saved configuration holds, and what loading it gives back.

use crate::config::keys::{known_key, KNOWN_CONFIG_KEYS};
use crate::config::settings::{
    refused_gain, validate_replay_gain_preamp, Config, ConfigError, ConfigOnDisk,
};
use vstd::prelude::*;

verus! {

/// The keys in `v`, as characters.
pub open spec fn key_texts(v: Seq<&'static str>) -> Seq<Seq<char>> {
    v.map_values(|k: &'static str| k@)
}

/// `keys` with `key` behind them where it has a value.
#[verifier::opaque]
pub open spec fn and_key<T>(
    keys: Seq<Seq<char>>,
    value: Option<T>,
    key: Seq<char>,
) -> Seq<Seq<char>> {
    if value is Some {
        keys.push(key)
    } else {
        keys
    }
}

/// Every one of `keys` is a key that loading knows.
#[verifier::opaque]
pub open spec fn all_known(keys: Seq<Seq<char>>) -> bool {
    forall|i: int| 0 <= i < keys.len() ==> known_key(#[trigger] keys[i])
}

fn note_key<T>(out: &mut Vec<&'static str>, value: &Option<T>, key: &'static str)
    ensures
        key_texts(final(out)@) == and_key(key_texts(old(out)@), *value, key@),
{
    proof {
        reveal(and_key);
    }
    if value.is_some() {
        out.push(key);
    }
    proof {
        assert(key_texts(out@) =~= and_key(key_texts(old(out)@), *value, key@));
    }
}

proof fn lemma_one_more_known<T>(keys: Seq<Seq<char>>, value: Option<T>, i: int)
    requires
        all_known(keys),
        0 <= i < 37,
    ensures
        all_known(and_key(keys, value, KNOWN_CONFIG_KEYS@[i]@)),
{
    reveal(and_key);
    reveal(all_known);
    let key = KNOWN_CONFIG_KEYS@[i]@;
    let more = and_key(keys, value, key);
    assert forall|k: int| 0 <= k < more.len() implies known_key(#[trigger] more[k]) by {
        if k < keys.len() {
            assert(more[k] == keys[k]);
        } else {
            assert(more[k] == key);
        }
    }
}

impl ConfigOnDisk {
    /// The keys that are present, in the order in which they are written.
    pub open spec fn written_keys(self) -> Seq<Seq<char>> {
        let keys = Seq::<Seq<char>>::empty();
        let keys = and_key(keys, self.base_url, "BaseURL"@);
        let keys = and_key(keys, self.username, "Username"@);
        let keys = and_key(keys, self.password, "Password"@);
        let keys = and_key(keys, self.password_file, "PasswordFile"@);
        let keys = and_key(keys, self.password_eval, "PasswordEval"@);
        let keys = and_key(keys, self.password_keyring, "PasswordKeyring"@);
        let keys = and_key(keys, self.theme, "Theme"@);
        let keys = and_key(keys, self.cava, "Cava"@);
        let keys = and_key(keys, self.cava_size, "CavaSize"@);
        let keys = and_key(keys, self.daemon, "Daemon"@);
        let keys = and_key(keys, self.auto_continue, "AutoContinue"@);
        let keys = and_key(keys, self.stream_on_start, "StreamOnStart"@);
        let keys = and_key(keys, self.search_debounce_ms, "SearchDebounceMs"@);
        let keys = and_key(keys, self.search_artist_limit, "SearchArtistLimit"@);
        let keys = and_key(keys, self.search_album_limit, "SearchAlbumLimit"@);
        let keys = and_key(keys, self.search_song_limit, "SearchSongLimit"@);
        let keys = and_key(keys, self.resume_on_start, "ResumeOnStart"@);
        let keys = and_key(keys, self.autoplay_on_start, "AutoplayOnStart"@);
        let keys = and_key(keys, self.offline_cache_enabled, "OfflineCacheEnabled"@);
        let keys = and_key(keys, self.offline_cache_max_mb, "OfflineCacheMaxMb"@);
        let keys = and_key(keys, self.repeat_mode, "RepeatMode"@);
        let keys = and_key(keys, self.cover_art, "CoverArt"@);
        let keys = and_key(keys, self.cover_art_size, "CoverArtSize"@);
        let keys = and_key(keys, self.scrobble, "Scrobble"@);
        let keys = and_key(keys, self.notifications, "Notifications"@);
        let keys = and_key(keys, self.rate_switch_delay_ms, "RateSwitchDelayMs"@);
        let keys = and_key(keys, self.macos_audio_mode, "MacosAudioMode"@);
        let keys = and_key(keys, self.music_folder_id, "MusicFolderId"@);
        let keys = and_key(keys, self.music_folder_chosen, "MusicFolderChosen"@);
        let keys = and_key(keys, self.replay_gain_mode, "ReplayGainMode"@);
        let keys = and_key(keys, self.replay_gain_preamp, "ReplayGainPreamp"@);
        let keys = and_key(keys, self.replay_gain_clip, "ReplayGainClip"@);
        let keys = and_key(keys, self.playback_filters, "PlaybackFilters"@);
        let keys = and_key(keys, self.keybindings, "Keybindings"@);
        keys
    }

    /// The keys that a file with these contents has.
    #[must_use]
    pub fn keys(&self) -> (r: Vec<&'static str>)
        ensures
            key_texts(r@) == self.written_keys(),
    {
        let mut out: Vec<&'static str> = Vec::new();
        proof {
            assert(key_texts(out@) =~= Seq::<Seq<char>>::empty());
        }
        note_key(&mut out, &self.base_url, "BaseURL");
        note_key(&mut out, &self.username, "Username");
        note_key(&mut out, &self.password, "Password");
        note_key(&mut out, &self.password_file, "PasswordFile");
        note_key(&mut out, &self.password_eval, "PasswordEval");
        note_key(&mut out, &self.password_keyring, "PasswordKeyring");
        note_key(&mut out, &self.theme, "Theme");
        note_key(&mut out, &self.cava, "Cava");
        note_key(&mut out, &self.cava_size, "CavaSize");
        note_key(&mut out, &self.daemon, "Daemon");
        note_key(&mut out, &self.auto_continue, "AutoContinue");
        note_key(&mut out, &self.stream_on_start, "StreamOnStart");
        note_key(&mut out, &self.search_debounce_ms, "SearchDebounceMs");
        note_key(&mut out, &self.search_artist_limit, "SearchArtistLimit");
        note_key(&mut out, &self.search_album_limit, "SearchAlbumLimit");
        note_key(&mut out, &self.search_song_limit, "SearchSongLimit");
        note_key(&mut out, &self.resume_on_start, "ResumeOnStart");
        note_key(&mut out, &self.autoplay_on_start, "AutoplayOnStart");
        note_key(&mut out, &self.offline_cache_enabled, "OfflineCacheEnabled");
        note_key(&mut out, &self.offline_cache_max_mb, "OfflineCacheMaxMb");
        note_key(&mut out, &self.repeat_mode, "RepeatMode");
        note_key(&mut out, &self.cover_art, "CoverArt");
        note_key(&mut out, &self.cover_art_size, "CoverArtSize");
        note_key(&mut out, &self.scrobble, "Scrobble");
        note_key(&mut out, &self.notifications, "Notifications");
        note_key(&mut out, &self.rate_switch_delay_ms, "RateSwitchDelayMs");
        note_key(&mut out, &self.macos_audio_mode, "MacosAudioMode");
        note_key(&mut out, &self.music_folder_id, "MusicFolderId");
        note_key(&mut out, &self.music_folder_chosen, "MusicFolderChosen");
        note_key(&mut out, &self.replay_gain_mode, "ReplayGainMode");
        note_key(&mut out, &self.replay_gain_preamp, "ReplayGainPreamp");
        note_key(&mut out, &self.replay_gain_clip, "ReplayGainClip");
        note_key(&mut out, &self.playback_filters, "PlaybackFilters");
        note_key(&mut out, &self.keybindings, "Keybindings");
        out
    }
}

impl Config {
    /// What a save writes.
    ///
    /// # Errors
    /// `InvalidValue` for a gain that is not finite; nothing is written then.
    pub fn save_to_file(&self) -> (r: Result<ConfigOnDisk, ConfigError>)
        ensures
            match r {
                Ok(d) => {
                    &&& self.replay_gain_preamp.finite()
                    &&& self.saved_as(d)
                    &&& d.keybindings_valid() == self.keybindings_valid()
                },
                Err(e) => {
                    &&& !self.replay_gain_preamp.finite()
                    &&& e is InvalidValue
                    &&& e->InvalidValue_field@ == "ReplayGainPreamp"@
                    &&& e->InvalidValue_reason@ == "must be finite"@
                },
            },
    {
        match validate_replay_gain_preamp(self.replay_gain_preamp) {
            Ok(()) => Ok(self.as_on_disk()),
            Err(e) => Err(e),
        }
    }

    /// `r` is what loading comes to for a file that the parser answered with
    /// `parsed`.
    pub open spec fn loads_as(
        parsed: Result<ConfigOnDisk, toml::de::Error>,
        r: Result<Config, ConfigError>,
    ) -> bool {
        match parsed {
            Err(e) => r == Err::<Config, ConfigError>(ConfigError::Parse(e)),
            Ok(d) => match r {
                Ok(c) => {
                    &&& c.loaded_from(d)
                    &&& d.acceptable()
                    &&& c.keybindings_valid() == d.keybindings_valid()
                },
                Err(e) => !d.acceptable() && refused_gain(e),
            },
        }
    }

    fn from_parsed(parsed: Result<ConfigOnDisk, toml::de::Error>) -> (r: Result<
        Config,
        ConfigError,
    >)
        ensures
            Self::loads_as(parsed, r),
    {
        match parsed {
            Ok(d) => Config::from_on_disk(d),
            Err(e) => Err(ConfigError::Parse(e)),
        }
    }

    /// The settings in the file at `path`, before the password is resolved.
    /// `file` is what the parser answered to the file's text, nothing where
    /// there is no file.
    ///
    /// # Errors
    /// `NotFound` without a file, `Parse` for one that the parser refuses.
    pub fn load_from_file(
        path: &str,
        file: Option<Result<ConfigOnDisk, toml::de::Error>>,
    ) -> (r: Result<Config, ConfigError>)
        ensures
            match file {
                None => r matches Err(ConfigError::NotFound { path: p }) && p@ == path@,
                Some(parsed) => Self::loads_as(parsed, r),
            },
    {
        match file {
            None => Err(ConfigError::NotFound { path: path.to_owned() }),
            Some(parsed) => Config::from_parsed(parsed),
        }
    }

    /// The default place of the configuration file, where the system has one.
    ///
    /// # Errors
    /// `NotFound` where it has none.
    pub fn default_location(path: Option<String>) -> (r: Result<String, ConfigError>)
        ensures
            match path {
                Some(p) => r == Ok::<String, ConfigError>(p),
                None => r matches Err(ConfigError::NotFound { path: p }) && p@
                    == "default config location"@,
            },
    {
        match path {
            Some(p) => Ok(p),
            None => Err(ConfigError::NotFound { path: "default config location".to_owned() }),
        }
    }

    /// The settings at start: those of the file, or the defaults where there
    /// is none yet.
    ///
    /// # Errors
    /// `Parse` for a file that the parser refuses.
    pub fn load_default(file: Option<Result<ConfigOnDisk, toml::de::Error>>) -> (r: Result<
        Config,
        ConfigError,
    >)
        ensures
            match file {
                None => r matches Ok(c) && c.is_default(),
                Some(parsed) => Self::loads_as(parsed, r),
            },
    {
        match file {
            None => Ok(Config::new()),
            Some(parsed) => Config::from_parsed(parsed),
        }
    }
}

/// Every key that a saved configuration holds is one that loading knows, so a
/// save never provokes the warning about unknown keys.
pub proof fn law_saved_keys_are_known(d: ConfigOnDisk)
    ensures
        all_known(d.written_keys()),
{
    let keys = Seq::<Seq<char>>::empty();
    assert(all_known(keys)) by {
        reveal(all_known);
    }
    lemma_one_more_known(keys, d.base_url, 0);
    let keys = and_key(keys, d.base_url, "BaseURL"@);
    lemma_one_more_known(keys, d.username, 1);
    let keys = and_key(keys, d.username, "Username"@);
    lemma_one_more_known(keys, d.password, 2);
    let keys = and_key(keys, d.password, "Password"@);
    lemma_one_more_known(keys, d.password_file, 3);
    let keys = and_key(keys, d.password_file, "PasswordFile"@);
    lemma_one_more_known(keys, d.password_eval, 4);
    let keys = and_key(keys, d.password_eval, "PasswordEval"@);
    lemma_one_more_known(keys, d.password_keyring, 5);
    let keys = and_key(keys, d.password_keyring, "PasswordKeyring"@);
    lemma_one_more_known(keys, d.theme, 6);
    let keys = and_key(keys, d.theme, "Theme"@);
    lemma_one_more_known(keys, d.cava, 7);
    let keys = and_key(keys, d.cava, "Cava"@);
    lemma_one_more_known(keys, d.cava_size, 8);
    let keys = and_key(keys, d.cava_size, "CavaSize"@);
    lemma_one_more_known(keys, d.daemon, 9);
    let keys = and_key(keys, d.daemon, "Daemon"@);
    lemma_one_more_known(keys, d.auto_continue, 10);
    let keys = and_key(keys, d.auto_continue, "AutoContinue"@);
    lemma_one_more_known(keys, d.stream_on_start, 11);
    let keys = and_key(keys, d.stream_on_start, "StreamOnStart"@);
    lemma_one_more_known(keys, d.search_debounce_ms, 12);
    let keys = and_key(keys, d.search_debounce_ms, "SearchDebounceMs"@);
    lemma_one_more_known(keys, d.search_artist_limit, 13);
    let keys = and_key(keys, d.search_artist_limit, "SearchArtistLimit"@);
    lemma_one_more_known(keys, d.search_album_limit, 14);
    let keys = and_key(keys, d.search_album_limit, "SearchAlbumLimit"@);
    lemma_one_more_known(keys, d.search_song_limit, 15);
    let keys = and_key(keys, d.search_song_limit, "SearchSongLimit"@);
    lemma_one_more_known(keys, d.resume_on_start, 16);
    let keys = and_key(keys, d.resume_on_start, "ResumeOnStart"@);
    lemma_one_more_known(keys, d.autoplay_on_start, 17);
    let keys = and_key(keys, d.autoplay_on_start, "AutoplayOnStart"@);
    lemma_one_more_known(keys, d.offline_cache_enabled, 18);
    let keys = and_key(keys, d.offline_cache_enabled, "OfflineCacheEnabled"@);
    lemma_one_more_known(keys, d.offline_cache_max_mb, 19);
    let keys = and_key(keys, d.offline_cache_max_mb, "OfflineCacheMaxMb"@);
    lemma_one_more_known(keys, d.repeat_mode, 20);
    let keys = and_key(keys, d.repeat_mode, "RepeatMode"@);
    lemma_one_more_known(keys, d.cover_art, 21);
    let keys = and_key(keys, d.cover_art, "CoverArt"@);
    lemma_one_more_known(keys, d.cover_art_size, 22);
    let keys = and_key(keys, d.cover_art_size, "CoverArtSize"@);
    lemma_one_more_known(keys, d.scrobble, 23);
    let keys = and_key(keys, d.scrobble, "Scrobble"@);
    lemma_one_more_known(keys, d.notifications, 24);
    let keys = and_key(keys, d.notifications, "Notifications"@);
    lemma_one_more_known(keys, d.rate_switch_delay_ms, 25);
    let keys = and_key(keys, d.rate_switch_delay_ms, "RateSwitchDelayMs"@);
    lemma_one_more_known(keys, d.macos_audio_mode, 26);
    let keys = and_key(keys, d.macos_audio_mode, "MacosAudioMode"@);
    lemma_one_more_known(keys, d.music_folder_id, 27);
    let keys = and_key(keys, d.music_folder_id, "MusicFolderId"@);
    lemma_one_more_known(keys, d.music_folder_chosen, 28);
    let keys = and_key(keys, d.music_folder_chosen, "MusicFolderChosen"@);
    lemma_one_more_known(keys, d.replay_gain_mode, 32);
    let keys = and_key(keys, d.replay_gain_mode, "ReplayGainMode"@);
    lemma_one_more_known(keys, d.replay_gain_preamp, 33);
    let keys = and_key(keys, d.replay_gain_preamp, "ReplayGainPreamp"@);
    lemma_one_more_known(keys, d.replay_gain_clip, 34);
    let keys = and_key(keys, d.replay_gain_clip, "ReplayGainClip"@);
    lemma_one_more_known(keys, d.playback_filters, 35);
    let keys = and_key(keys, d.playback_filters, "PlaybackFilters"@);
    lemma_one_more_known(keys, d.keybindings, 36);
    let keys = and_key(keys, d.keybindings, "Keybindings"@);
}

/// Loading what was saved gives every setting back, of settings that bind each
/// action once at most; what is loaded does so too. The password comes back
/// only where nothing else holds it; its source is never part of the file.
pub proof fn law_saved_settings_load_back(saved: Config, d: ConfigOnDisk, loaded: Config)
    requires
        saved.keybindings_valid(),
        saved.saved_as(d),
        loaded.loaded_from(d),
    ensures
        loaded.same_settings(saved),
        loaded.keybindings_valid(),
        loaded.password@ == (if saved.secret_external() {
            Seq::<char>::empty()
        } else {
            saved.password@
        }),
        !loaded.password_from_env,
{
    if saved.password@.len() == 0 {
        assert(saved.password@ =~= Seq::<char>::empty());
    }
    if saved.keybindings@.len() == 0 {
        assert(saved.keybindings@ =~= Seq::empty());
    }
}

/// Settings with a finite gain are saved in a form that loading accepts.
pub proof fn law_saved_settings_are_accepted(saved: Config, d: ConfigOnDisk)
    requires
        saved.saved_as(d),
        saved.replay_gain_preamp.finite(),
    ensures
        d.acceptable(),
{
}

/// A secret that a password file, a command, the keychain or the environment
/// holds is never written to the configuration file.
pub proof fn law_external_secret_is_not_saved(c: Config, d: ConfigOnDisk)
    requires
        c.saved_as(d),
        c.secret_external(),
    ensures
        d.password is None,
{
}

} // verus!

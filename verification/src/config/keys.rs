//! The top-level keys of the configuration file.

use crate::strings::{same_text, texts};
use vstd::prelude::*;

verus! {

/// All top-level TOML keys we expect. Anything not in this list is
/// warned on load so a typo like `RepeateMode` is visible instead of
/// silently reverting to the default. The `Audiobook*` keys are retired:
/// accepted on load, never written.
pub const KNOWN_CONFIG_KEYS: [&'static str; 37] = [
    "BaseURL",
    "Username",
    "Password",
    "PasswordFile",
    "PasswordEval",
    "PasswordKeyring",
    "Theme",
    "Cava",
    "CavaSize",
    "Daemon",
    "AutoContinue",
    "StreamOnStart",
    "SearchDebounceMs",
    "SearchArtistLimit",
    "SearchAlbumLimit",
    "SearchSongLimit",
    "ResumeOnStart",
    "AutoplayOnStart",
    "OfflineCacheEnabled",
    "OfflineCacheMaxMb",
    "RepeatMode",
    "CoverArt",
    "CoverArtSize",
    "Scrobble",
    "Notifications",
    "RateSwitchDelayMs",
    "MacosAudioMode",
    "MusicFolderId",
    "MusicFolderChosen",
    "AudiobookMusicFolderId",
    "AudiobookPathPrefix",
    "AudiobookPlaybackSpeed",
    "ReplayGainMode",
    "ReplayGainPreamp",
    "ReplayGainClip",
    "PlaybackFilters",
    "Keybindings",
];

/// Whether `key` is one that the configuration file may hold.
pub open spec fn known_key(key: Seq<char>) -> bool {
    exists|i: int| 0 <= i < 37 && KNOWN_CONFIG_KEYS@[i]@ == key
}

/// Whether `key` is one that the configuration file may hold.
pub fn is_known_key(key: &str) -> (r: bool)
    ensures
        r == known_key(key@),
{
    let known = KNOWN_CONFIG_KEYS;
    for i in 0..known.len()
        invariant
            known == KNOWN_CONFIG_KEYS,
            forall|k: int| 0 <= k < i ==> KNOWN_CONFIG_KEYS@[k]@ != key@,
    {
        if same_text(key, known[i]) {
            return true;
        }
    }
    false
}

/// What `toml::from_str` into a `toml::Value` makes of a document: the keys of
/// its top-level table, or nothing where the document does not parse.
pub uninterp spec fn toml_keys(contents: Seq<char>) -> Option<Seq<Seq<char>>>;

/// Calls `toml::from_str`, `toml::Value::as_table` and `toml::Table::keys`. The
/// result is the top-level keys of the document, in the order in which the
/// table gives them, or `None` where the document does not parse as a table.
/// What the TOML grammar accepts is left unsaid; the result is a function of
/// the text alone.
#[verifier::external_body]
fn top_level_keys(contents: &str) -> (r: Option<Vec<String>>)
    ensures
        match r {
            Some(keys) => toml_keys(contents@) == Some(texts(keys@)),
            None => toml_keys(contents@) is None,
        },
{
    let value = toml::from_str::<toml::Value>(contents).ok()?;
    let table = value.as_table()?;
    Some(table.keys().cloned().collect())
}

/// The keys among `keys` that no setting has, in their order.
pub open spec fn unknown_among(keys: Seq<Seq<char>>) -> Seq<Seq<char>> {
    keys.filter(|k: Seq<char>| !known_key(k))
}

/// The keys among `keys` that no setting has, in their order.
pub fn unknown_keys_among(keys: &Vec<String>) -> (r: Vec<String>)
    ensures
        texts(r@) == unknown_among(texts(keys@)),
{
    let mut out: Vec<String> = Vec::new();
    let ghost unknown = |k: Seq<char>| !known_key(k);
    for i in 0..keys.len()
        invariant
            unknown == (|k: Seq<char>| !known_key(k)),
            texts(out@) == texts(keys@).take(i as int).filter(unknown),
    {
        let ghost before = out@;
        proof {
            let all = texts(keys@);
            assert(all.take(i as int + 1) =~= all.take(i as int).push(all[i as int]));
            lemma_filter_push(all.take(i as int), all[i as int], unknown);
        }
        if !is_known_key(keys[i].as_str()) {
            out.push(keys[i].clone());
            proof {
                assert(texts(out@) =~= texts(before).push(texts(keys@)[i as int]));
            }
        }
    }
    proof {
        assert(texts(keys@).take(keys@.len() as int) =~= texts(keys@));
    }
    out
}

proof fn lemma_filter_push(s: Seq<Seq<char>>, x: Seq<char>, keep: spec_fn(Seq<char>) -> bool)
    ensures
        s.push(x).filter(keep) == if keep(x) {
            s.filter(keep).push(x)
        } else {
            s.filter(keep)
        },
{
    reveal(Seq::filter);
    assert(s.push(x).drop_last() =~= s);
}

/// The keys of a configuration document to warn about: none where the document
/// does not parse.
pub fn unknown_config_keys(contents: &str) -> (r: Vec<String>)
    ensures
        texts(r@) == (match toml_keys(contents@) {
            Some(keys) => unknown_among(keys),
            None => Seq::empty(),
        }),
{
    match top_level_keys(contents) {
        Some(keys) => unknown_keys_among(&keys),
        None => Vec::new(),
    }
}

/// The keys that the configuration file may hold: one for each setting, and
/// those of the retired audiobook settings, which old files still have.
pub open spec fn file_keys() -> Seq<Seq<char>> {
    seq![
        "BaseURL"@,
        "Username"@,
        "Password"@,
        "PasswordFile"@,
        "PasswordEval"@,
        "PasswordKeyring"@,
        "Theme"@,
        "Cava"@,
        "CavaSize"@,
        "Daemon"@,
        "AutoContinue"@,
        "StreamOnStart"@,
        "SearchDebounceMs"@,
        "SearchArtistLimit"@,
        "SearchAlbumLimit"@,
        "SearchSongLimit"@,
        "ResumeOnStart"@,
        "AutoplayOnStart"@,
        "OfflineCacheEnabled"@,
        "OfflineCacheMaxMb"@,
        "RepeatMode"@,
        "CoverArt"@,
        "CoverArtSize"@,
        "Scrobble"@,
        "Notifications"@,
        "RateSwitchDelayMs"@,
        "MacosAudioMode"@,
        "MusicFolderId"@,
        "MusicFolderChosen"@,
        "AudiobookMusicFolderId"@,
        "AudiobookPathPrefix"@,
        "AudiobookPlaybackSpeed"@,
        "ReplayGainMode"@,
        "ReplayGainPreamp"@,
        "ReplayGainClip"@,
        "PlaybackFilters"@,
        "Keybindings"@,
    ]
}

/// A key is known exactly where a setting, or a retired one, has it.
pub proof fn law_known_keys(key: &str, r: bool)
    requires
        call_ensures(is_known_key, (key,), r),
    ensures
        r <==> file_keys().contains(key@),
{
    lemma_known_keys(key@);
}

/// The known keys are those of the settings and the retired ones.
pub proof fn lemma_known_keys(key: Seq<char>)
    ensures
        known_key(key) <==> file_keys().contains(key),
{
    let all = file_keys();
    assert(KNOWN_CONFIG_KEYS@.len() == 37);
    assert(all.len() == 37);
    assert(KNOWN_CONFIG_KEYS@[0]@ == all[0]);
    assert(KNOWN_CONFIG_KEYS@[1]@ == all[1]);
    assert(KNOWN_CONFIG_KEYS@[2]@ == all[2]);
    assert(KNOWN_CONFIG_KEYS@[3]@ == all[3]);
    assert(KNOWN_CONFIG_KEYS@[4]@ == all[4]);
    assert(KNOWN_CONFIG_KEYS@[5]@ == all[5]);
    assert(KNOWN_CONFIG_KEYS@[6]@ == all[6]);
    assert(KNOWN_CONFIG_KEYS@[7]@ == all[7]);
    assert(KNOWN_CONFIG_KEYS@[8]@ == all[8]);
    assert(KNOWN_CONFIG_KEYS@[9]@ == all[9]);
    assert(KNOWN_CONFIG_KEYS@[10]@ == all[10]);
    assert(KNOWN_CONFIG_KEYS@[11]@ == all[11]);
    assert(KNOWN_CONFIG_KEYS@[12]@ == all[12]);
    assert(KNOWN_CONFIG_KEYS@[13]@ == all[13]);
    assert(KNOWN_CONFIG_KEYS@[14]@ == all[14]);
    assert(KNOWN_CONFIG_KEYS@[15]@ == all[15]);
    assert(KNOWN_CONFIG_KEYS@[16]@ == all[16]);
    assert(KNOWN_CONFIG_KEYS@[17]@ == all[17]);
    assert(KNOWN_CONFIG_KEYS@[18]@ == all[18]);
    assert(KNOWN_CONFIG_KEYS@[19]@ == all[19]);
    assert(KNOWN_CONFIG_KEYS@[20]@ == all[20]);
    assert(KNOWN_CONFIG_KEYS@[21]@ == all[21]);
    assert(KNOWN_CONFIG_KEYS@[22]@ == all[22]);
    assert(KNOWN_CONFIG_KEYS@[23]@ == all[23]);
    assert(KNOWN_CONFIG_KEYS@[24]@ == all[24]);
    assert(KNOWN_CONFIG_KEYS@[25]@ == all[25]);
    assert(KNOWN_CONFIG_KEYS@[26]@ == all[26]);
    assert(KNOWN_CONFIG_KEYS@[27]@ == all[27]);
    assert(KNOWN_CONFIG_KEYS@[28]@ == all[28]);
    assert(KNOWN_CONFIG_KEYS@[29]@ == all[29]);
    assert(KNOWN_CONFIG_KEYS@[30]@ == all[30]);
    assert(KNOWN_CONFIG_KEYS@[31]@ == all[31]);
    assert(KNOWN_CONFIG_KEYS@[32]@ == all[32]);
    assert(KNOWN_CONFIG_KEYS@[33]@ == all[33]);
    assert(KNOWN_CONFIG_KEYS@[34]@ == all[34]);
    assert(KNOWN_CONFIG_KEYS@[35]@ == all[35]);
    assert(KNOWN_CONFIG_KEYS@[36]@ == all[36]);
    if all.contains(key) {
        let i = choose|i: int| 0 <= i < all.len() && all[i] == key;
        assert(KNOWN_CONFIG_KEYS@[i]@ == key);
    }
    if known_key(key) {
        let i = choose|i: int| 0 <= i < KNOWN_CONFIG_KEYS@.len() && KNOWN_CONFIG_KEYS@[i]@ == key;
        assert(all[i] == key);
    }
}

/// What is warned about in a document are the unknown ones of its own keys; of
/// a document that does not parse nothing is.
pub proof fn law_warnings(contents: &str, keys: Vec<String>, among: Vec<String>, r: Vec<String>)
    requires
        call_ensures(unknown_config_keys, (contents,), r),
        call_ensures(unknown_keys_among, (&keys,), among),
    ensures
        toml_keys(contents@) == Some(texts(keys@)) ==> texts(r@) == texts(among@),
        toml_keys(contents@) is None ==> r@.len() == 0,
{
    assert(texts(r@).len() == r@.len());
}

} // verus!

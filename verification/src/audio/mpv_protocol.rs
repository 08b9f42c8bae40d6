//! The vocabulary of mpv's JSON IPC: commands, replies, events, versions.

use crate::binary64::Binary64;
use crate::strings::{
    chars_of, contains_text, decimal, decimal_text, find_char, is_digit, joined, occurs,
    parse_number, parsed_number, same_text,
};
use vstd::prelude::*;

verus! {

// ---------------------------------------------------------------------------
// Commands.
// ---------------------------------------------------------------------------

/// One element of a command.
#[derive(Debug, PartialEq, Eq)]
pub enum MpvArg {
    Text(String),
    Flag(bool),
    Int(i64),
    Unsigned(u64),
    Double(Binary64),
    /// The text `start=` followed by the number: a file option of `loadfile`.
    StartAt(Binary64),
}

/// One element of a command, as a mathematical value.
pub enum ArgView {
    Text(Seq<char>),
    Flag(bool),
    Int(int),
    Double(Binary64),
    StartAt(Binary64),
}

impl View for MpvArg {
    type V = ArgView;

    open spec fn view(&self) -> ArgView {
        match self {
            MpvArg::Text(s) => ArgView::Text(s@),
            MpvArg::Flag(b) => ArgView::Flag(*b),
            MpvArg::Int(i) => ArgView::Int(*i as int),
            MpvArg::Unsigned(n) => ArgView::Int(*n as int),
            MpvArg::Double(d) => ArgView::Double(*d),
            MpvArg::StartAt(d) => ArgView::StartAt(*d),
        }
    }
}

/// A command: its name and its arguments.
#[derive(Debug, PartialEq, Eq)]
pub struct MpvCommand {
    pub args: Vec<MpvArg>,
}

impl View for MpvCommand {
    type V = Seq<ArgView>;

    open spec fn view(&self) -> Seq<ArgView> {
        self.args@.map_values(|a: MpvArg| a@)
    }
}

/// A list of commands, as mathematical values.
pub open spec fn commands(v: Seq<MpvCommand>) -> Seq<Seq<ArgView>> {
    v.map_values(|c: MpvCommand| c@)
}

/// The command that sets a property.
pub open spec fn set_property(name: Seq<char>, value: ArgView) -> Seq<ArgView> {
    seq![ArgView::Text("set_property"@), ArgView::Text(name), value]
}

/// The command that reads a property.
pub open spec fn get_property(name: Seq<char>) -> Seq<ArgView> {
    seq![ArgView::Text("get_property"@), ArgView::Text(name)]
}

/// The command that pauses or unpauses.
pub open spec fn set_pause(paused: bool) -> Seq<ArgView> {
    set_property("pause"@, ArgView::Flag(paused))
}

/// The command that puts `path` on the playlist in the way `how` says.
pub open spec fn load(path: Seq<char>, how: Seq<char>) -> Seq<ArgView> {
    seq![ArgView::Text("loadfile"@), ArgView::Text(path), ArgView::Text(how)]
}

/// The command that replaces the playlist with `path`, decoded from `start`.
pub open spec fn load_from(path: Seq<char>, start: Binary64) -> Seq<ArgView> {
    seq![
        ArgView::Text("loadfile"@),
        ArgView::Text(path),
        ArgView::Text("replace"@),
        ArgView::Int(-1),
        ArgView::StartAt(start),
    ]
}

/// The command that seeks to, or by, `seconds`.
pub open spec fn seek_command(seconds: Binary64, how: Seq<char>) -> Seq<ArgView> {
    seq![ArgView::Text("seek"@), ArgView::Double(seconds), ArgView::Text(how)]
}

/// A text argument.
pub fn text_arg(s: &str) -> (r: MpvArg)
    ensures
        r@ == ArgView::Text(s@),
{
    MpvArg::Text(s.to_owned())
}

/// The command that sets a property.
pub fn set_property_command(name: &str, value: MpvArg) -> (r: MpvCommand)
    ensures
        r@ == set_property(name@, value@),
{
    let r = MpvCommand { args: vec![text_arg("set_property"), text_arg(name), value] };
    proof {
        assert(r@ =~= set_property(name@, value@));
    }
    r
}

/// The command that reads a property.
pub fn get_property_command(name: &str) -> (r: MpvCommand)
    ensures
        r@ == get_property(name@),
{
    let r = MpvCommand { args: vec![text_arg("get_property"), text_arg(name)] };
    proof {
        assert(r@ =~= get_property(name@));
    }
    r
}

/// The command that pauses or unpauses.
pub fn set_pause_command(paused: bool) -> (r: MpvCommand)
    ensures
        r@ == set_pause(paused),
{
    set_property_command("pause", MpvArg::Flag(paused))
}

/// The command that puts `path` on the playlist in the way `how` says.
pub fn load_command(path: &str, how: &str) -> (r: MpvCommand)
    ensures
        r@ == load(path@, how@),
{
    let r = MpvCommand { args: vec![text_arg("loadfile"), text_arg(path), text_arg(how)] };
    proof {
        assert(r@ =~= load(path@, how@));
    }
    r
}

/// The command that replaces the playlist with `path`, decoded from `start`.
pub fn load_from_command(path: &str, start: Binary64) -> (r: MpvCommand)
    ensures
        r@ == load_from(path@, start),
{
    let r = MpvCommand {
        args: vec![
            text_arg("loadfile"),
            text_arg(path),
            text_arg("replace"),
            MpvArg::Int(-1),
            MpvArg::StartAt(start),
        ],
    };
    proof {
        assert(r@ =~= load_from(path@, start));
    }
    r
}

/// A command of a name and one argument.
pub fn command_with(name: &str, arg: MpvArg) -> (r: MpvCommand)
    ensures
        r@ == seq![ArgView::Text(name@), arg@],
{
    let r = MpvCommand { args: vec![text_arg(name), arg] };
    proof {
        assert(r@ =~= seq![ArgView::Text(name@), arg@]);
    }
    r
}

/// A command of a name alone.
pub fn bare_command(name: &str) -> (r: MpvCommand)
    ensures
        r@ == seq![ArgView::Text(name@)],
{
    let r = MpvCommand { args: vec![text_arg(name)] };
    proof {
        assert(r@ =~= seq![ArgView::Text(name@)]);
    }
    r
}

/// The command that seeks to, or by, `seconds`.
pub fn make_seek(seconds: Binary64, how: &str) -> (r: MpvCommand)
    ensures
        r@ == seek_command(seconds, how@),
{
    let r = MpvCommand { args: vec![text_arg("seek"), MpvArg::Double(seconds), text_arg(how)] };
    proof {
        assert(r@ =~= seek_command(seconds, how@));
    }
    r
}

/// Two commands, the first sent first.
pub fn command_pair(first: MpvCommand, second: MpvCommand) -> (r: Vec<MpvCommand>)
    ensures
        commands(r@) == seq![first@, second@],
{
    let r = vec![first, second];
    proof {
        assert(commands(r@) =~= seq![first@, second@]);
    }
    r
}

/// Ends a serialized command: mpv reads one command per line.
pub fn frame_command(json: Vec<u8>) -> (r: Vec<u8>)
    ensures
        r@ == json@.push(0x0a),
{
    let mut out = json;
    out.push(0x0a);
    out
}

// ---------------------------------------------------------------------------
// Properties and their values.
// ---------------------------------------------------------------------------

/// A property that the daemon reads.
#[derive(Debug, Clone, Copy, PartialEq, Eq, Structural)]
pub enum MpvProperty {
    PlaylistPos,
    PlaylistCount,
    Pause,
    TimePos,
    Duration,
    SampleRate,
    Format,
    ChannelCount,
    IdleActive,
    Version,
}

impl MpvProperty {
    /// mpv's name of the property.
    pub open spec fn name_text(self) -> Seq<char> {
        match self {
            MpvProperty::PlaylistPos => "playlist-pos"@,
            MpvProperty::PlaylistCount => "playlist-count"@,
            MpvProperty::Pause => "pause"@,
            MpvProperty::TimePos => "time-pos"@,
            MpvProperty::Duration => "duration"@,
            MpvProperty::SampleRate => "audio-params/samplerate"@,
            MpvProperty::Format => "audio-params/format"@,
            MpvProperty::ChannelCount => "audio-params/channel-count"@,
            MpvProperty::IdleActive => "idle-active"@,
            MpvProperty::Version => "mpv-version"@,
        }
    }

    /// The command that reads the property.
    #[must_use]
    pub fn query(self) -> (r: MpvCommand)
        ensures
            r@ == get_property(self.name_text()),
    {
        match self {
            MpvProperty::PlaylistPos => get_property_command("playlist-pos"),
            MpvProperty::PlaylistCount => get_property_command("playlist-count"),
            MpvProperty::Pause => get_property_command("pause"),
            MpvProperty::TimePos => get_property_command("time-pos"),
            MpvProperty::Duration => get_property_command("duration"),
            MpvProperty::SampleRate => get_property_command("audio-params/samplerate"),
            MpvProperty::Format => get_property_command("audio-params/format"),
            MpvProperty::ChannelCount => get_property_command("audio-params/channel-count"),
            MpvProperty::IdleActive => get_property_command("idle-active"),
            MpvProperty::Version => get_property_command("mpv-version"),
        }
    }
}

/// The value of a property, as far as the daemon reads values.
#[derive(Debug, PartialEq, Eq)]
pub enum MpvValue {
    Flag(bool),
    Text(String),
    /// A number: as an unsigned integer and as a signed one where it is one
    /// and fits, and as a double.
    Number { unsigned: Option<u64>, signed: Option<i64>, double: Option<Binary64> },
    /// A list or an object.
    Compound,
}

/// The unsigned integer in a value.
pub open spec fn unsigned_in(data: Option<MpvValue>) -> Option<u64> {
    match data {
        Some(MpvValue::Number { unsigned, .. }) => unsigned,
        _ => None,
    }
}

/// The flag in a value.
pub open spec fn flag_in(data: Option<MpvValue>) -> Option<bool> {
    match data {
        Some(MpvValue::Flag(b)) => Some(b),
        _ => None,
    }
}

/// The text in a value.
pub open spec fn text_in(data: Option<MpvValue>) -> Option<Seq<char>> {
    match data {
        Some(MpvValue::Text(s)) => Some(s@),
        _ => None,
    }
}

/// The unsigned integer in a value.
pub fn as_unsigned(data: &Option<MpvValue>) -> (r: Option<u64>)
    ensures
        r == unsigned_in(*data),
{
    match data {
        Some(MpvValue::Number { unsigned, .. }) => *unsigned,
        _ => None,
    }
}

/// The flag in a value.
pub fn as_flag(data: &Option<MpvValue>) -> (r: Option<bool>)
    ensures
        r == flag_in(*data),
{
    match data {
        Some(MpvValue::Flag(b)) => Some(*b),
        _ => None,
    }
}

/// `n`, or the greatest `u32` where it does not fit.
pub open spec fn saturated_u32(n: u64) -> u32 {
    if n <= u32::MAX {
        n as u32
    } else {
        u32::MAX
    }
}

/// `n`, or the greatest `u32` where it does not fit.
pub fn u32_sat(n: u64) -> (r: u32)
    ensures
        r == saturated_u32(n),
{
    if n <= u32::MAX as u64 {
        n as u32
    } else {
        u32::MAX
    }
}

/// `n`, or the greatest `usize` where it does not fit.
pub open spec fn saturated_usize(n: u64) -> int {
    if n <= usize::MAX {
        n as int
    } else {
        usize::MAX as int
    }
}

/// `n`, or the greatest `usize` where it does not fit.
pub fn usize_sat(n: u64) -> (r: usize)
    ensures
        r == saturated_usize(n),
{
    if n <= usize::MAX as u64 {
        n as usize
    } else {
        usize::MAX
    }
}

/// The bit depth that mpv's name of a sample format tells.
pub open spec fn bit_depth_of(format: Seq<char>) -> Option<u32> {
    if occurs(format, "32"@) || occurs(format, "float"@) {
        Some(32)
    } else if occurs(format, "24"@) {
        Some(24)
    } else if occurs(format, "16"@) {
        Some(16)
    } else if occurs(format, "8"@) {
        Some(8)
    } else {
        None
    }
}

/// The bit depth that mpv's name of a sample format tells.
pub fn bit_depth(format: &str) -> (r: Option<u32>)
    ensures
        r == bit_depth_of(format@),
{
    if contains_text(format, "32") || contains_text(format, "float") {
        Some(32)
    } else if contains_text(format, "24") {
        Some(24)
    } else if contains_text(format, "16") {
        Some(16)
    } else if contains_text(format, "8") {
        Some(8)
    } else {
        None
    }
}

/// The label of a channel count.
pub open spec fn channels_label(count: u32) -> Seq<char> {
    if count == 1 {
        "Mono"@
    } else if count == 2 {
        "Stereo"@
    } else {
        decimal(count as nat) + "ch"@
    }
}

/// The label of a channel count.
pub fn channels_text(count: u32) -> (r: String)
    ensures
        r@ == channels_label(count),
{
    if count == 1 {
        "Mono".to_owned()
    } else if count == 2 {
        "Stereo".to_owned()
    } else {
        joined(decimal_text(count as u64).as_str(), "ch")
    }
}

// ---------------------------------------------------------------------------
// Events.
// ---------------------------------------------------------------------------

/// An event as mpv sends it.
#[derive(Debug, PartialEq, Eq)]
pub struct MpvEvent {
    pub event: String,
    pub reason: Option<String>,
}

/// Typed mpv event surface for daemon consumers.
#[derive(Debug, PartialEq, Eq)]
pub enum MpvEventKind {
    /// Playback of the current file ended.
    EndFile {
        /// mpv's end reason, e.g. `"eof"` or `"stop"`.
        reason: String,
    },
    /// mpv started loading a new file.
    StartFile,
    /// The new file finished loading and playback begins.
    FileLoaded,
    /// Any other mpv event, carrying its raw name.
    Other(String),
}

/// `kind` is what the event of that name and reason is.
pub open spec fn event_is(event: Seq<char>, reason: Option<String>, kind: MpvEventKind) -> bool {
    if event == "end-file"@ {
        kind matches MpvEventKind::EndFile { reason: r } && r@ == (match reason {
            Some(s) => s@,
            None => "unknown"@,
        })
    } else if event == "start-file"@ {
        kind == MpvEventKind::StartFile
    } else if event == "file-loaded"@ {
        kind == MpvEventKind::FileLoaded
    } else {
        kind matches MpvEventKind::Other(name) && name@ == event
    }
}

/// Sorts an event by its name.
pub fn classify_event(ev: &MpvEvent) -> (r: MpvEventKind)
    ensures
        event_is(ev.event@, ev.reason, r),
{
    let name = ev.event.as_str();
    if same_text(name, "end-file") {
        MpvEventKind::EndFile {
            reason: match &ev.reason {
                Some(s) => s.clone(),
                None => "unknown".to_owned(),
            },
        }
    } else if same_text(name, "start-file") {
        MpvEventKind::StartFile
    } else if same_text(name, "file-loaded") {
        MpvEventKind::FileLoaded
    } else {
        MpvEventKind::Other(name.to_owned())
    }
}

// ---------------------------------------------------------------------------
// Versions.
// ---------------------------------------------------------------------------

/// mpv's `--replaygain-clip` / `replaygain-clip` means "allow clip". Our
/// setting means "prevent clipping". Converted at the mpv boundary so this
/// doesn't get re-inverted (or un-inverted) by accident at a call site.
#[must_use]
pub fn mpv_allow_clip(prevent_clipping: bool) -> (r: bool)
    ensures
        r == !prevent_clipping,
{
    !prevent_clipping
}

/// The text from the first digit on.
pub open spec fn from_first_digit(s: Seq<char>) -> Seq<char>
    decreases s.len(),
{
    if s.len() == 0 || is_digit(s[0]) {
        s
    } else {
        from_first_digit(s.skip(1))
    }
}

/// How many characters `s` has before the first that is neither a digit nor a dot.
pub open spec fn version_len(s: Seq<char>) -> nat
    decreases s.len(),
{
    if s.len() > 0 && (is_digit(s[0]) || s[0] == '.') {
        1 + version_len(s.skip(1))
    } else {
        0
    }
}

/// How many characters `s` has before its first dot.
pub open spec fn part_len(s: Seq<char>) -> nat
    decreases s.len(),
{
    if s.len() == 0 || s[0] == '.' {
        0
    } else {
        1 + part_len(s.skip(1))
    }
}

/// The first two numbers of the dotted run that starts at the first digit.
pub open spec fn version_of(raw: Seq<char>) -> Option<(nat, nat)> {
    let tail = from_first_digit(raw);
    let run = tail.take(version_len(tail) as int);
    let first = part_len(run);
    if first >= run.len() {
        None
    } else {
        let rest = run.skip(first as int + 1);
        match (
            parsed_number(run.take(first as int), u16::MAX as nat),
            parsed_number(rest.take(part_len(rest) as int), u16::MAX as nat),
        ) {
            (Some(major), Some(minor)) => Some((major, minor)),
            _ => None,
        }
    }
}

/// A pair of versions, as mathematical values.
pub open spec fn version_view(v: Option<(u16, u16)>) -> Option<(nat, nat)> {
    match v {
        Some((major, minor)) => Some((major as nat, minor as nat)),
        None => None,
    }
}

proof fn lemma_from_first_digit(s: Seq<char>, n: nat)
    requires
        n <= s.len(),
        forall|k: int| 0 <= k < n ==> !is_digit(s[k]),
        n == s.len() || is_digit(s[n as int]),
    ensures
        from_first_digit(s) == s.skip(n as int),
    decreases n,
{
    if n > 0 {
        let t = s.skip(1);
        assert forall|k: int| 0 <= k < n - 1 implies !is_digit(t[k]) by {
            assert(t[k] == s[k + 1]);
        }
        lemma_from_first_digit(t, (n - 1) as nat);
        assert(t.skip(n - 1) =~= s.skip(n as int));
    } else {
        assert(s.skip(0) =~= s);
    }
}

proof fn lemma_version_len(s: Seq<char>, n: nat)
    requires
        n <= s.len(),
        forall|k: int| 0 <= k < n ==> is_digit(s[k]) || s[k] == '.',
        n == s.len() || !(is_digit(s[n as int]) || s[n as int] == '.'),
    ensures
        version_len(s) == n,
    decreases n,
{
    if n > 0 {
        let t = s.skip(1);
        assert forall|k: int| 0 <= k < n - 1 implies is_digit(t[k]) || t[k] == '.' by {
            assert(t[k] == s[k + 1]);
        }
        lemma_version_len(t, (n - 1) as nat);
    }
}

proof fn lemma_part_len(s: Seq<char>, n: nat)
    requires
        n <= s.len(),
        forall|k: int| 0 <= k < n ==> s[k] != '.',
        n == s.len() || s[n as int] == '.',
    ensures
        part_len(s) == n,
    decreases n,
{
    if n > 0 {
        let t = s.skip(1);
        assert forall|k: int| 0 <= k < n - 1 implies t[k] != '.' by {
            assert(t[k] == s[k + 1]);
        }
        lemma_part_len(t, (n - 1) as nat);
    }
}

fn digit_char_at(chars: &Vec<char>, i: usize) -> (r: bool)
    requires
        i < chars@.len(),
    ensures
        r == is_digit(chars@[i as int]),
{
    '0' <= chars[i] && chars[i] <= '9'
}

/// The end of the run of characters other than a dot that starts at `from`, or `to`.
fn part_end(chars: &Vec<char>, from: usize, to: usize) -> (r: usize)
    requires
        from <= to <= chars@.len(),
    ensures
        from <= r <= to,
        r - from == part_len(chars@.subrange(from as int, to as int)),
{
    let end: usize = match find_char(chars, '.', from) {
        Some(at) => if at < to {
            at
        } else {
            to
        },
        None => to,
    };
    proof {
        let s = chars@.subrange(from as int, to as int);
        assert forall|k: int| 0 <= k < s.len() implies s[k] == chars@[from + k] by {}
        lemma_part_len(s, (end - from) as nat);
    }
    end
}

/// Parse `(major, minor)` from an mpv version string such as `mpv 0.41.0`.
#[must_use]
pub fn parse_mpv_version(raw: &str) -> (r: Option<(u16, u16)>)
    ensures
        version_view(r) == version_of(raw@),
{
    let chars = chars_of(raw);
    let n: usize = chars.len();
    let mut start: usize = 0;
    while start < n && !digit_char_at(&chars, start)
        invariant
            start <= n == chars@.len(),
            forall|k: int| 0 <= k < start ==> !is_digit(chars@[k]),
        decreases n - start,
    {
        start = start + 1;
    }
    let mut end: usize = start;
    while end < n && (digit_char_at(&chars, end) || chars[end] == '.')
        invariant
            start <= end <= n == chars@.len(),
            forall|k: int| start <= k < end ==> is_digit(chars@[k]) || chars@[k] == '.',
        decreases n - end,
    {
        end = end + 1;
    }
    let ghost tail = chars@.skip(start as int);
    let ghost run = chars@.subrange(start as int, end as int);
    proof {
        lemma_from_first_digit(chars@, start as nat);
        assert forall|k: int| 0 <= k < tail.len() implies tail[k] == chars@[start + k] by {}
        lemma_version_len(tail, (end - start) as nat);
        assert(tail.take(end - start) =~= run);
    }
    let dot: usize = part_end(&chars, start, end);
    if dot >= end {
        return None;
    }
    let second: usize = part_end(&chars, dot + 1, end);
    proof {
        assert(run.take(dot - start) =~= chars@.subrange(start as int, dot as int));
        let rest = run.skip(dot - start + 1);
        assert(rest =~= chars@.subrange(dot + 1, end as int));
        assert(rest.take(second - dot - 1) =~= chars@.subrange(dot + 1, second as int));
    }
    let major = parse_number(&chars, start, dot, u16::MAX as u32);
    let minor = parse_number(&chars, dot + 1, second, u16::MAX as u32);
    match (major, minor) {
        (Some(a), Some(b)) => Some((a as u16, b as u16)),
        _ => None,
    }
}

proof fn lemma_version_run(s: Seq<char>, j: nat)
    requires
        j <= s.len(),
        forall|k: int| 0 <= k < j ==> is_digit(s[k]) || s[k] == '.',
    ensures
        j <= version_len(s) <= s.len(),
        forall|k: int| 0 <= k < version_len(s) ==> is_digit(s[k]) || s[k] == '.',
    decreases s.len(),
{
    if s.len() > 0 && (is_digit(s[0]) || s[0] == '.') {
        let t = s.skip(1);
        let left: nat = if j > 0 {
            (j - 1) as nat
        } else {
            0
        };
        assert forall|k: int| 0 <= k < left implies is_digit(t[k]) || t[k] == '.' by {
            assert(t[k] == s[k + 1]);
        }
        lemma_version_run(t, left);
        assert forall|k: int| 0 <= k < version_len(s) implies is_digit(s[k]) || s[k] == '.' by {
            if k > 0 {
                assert(s[k] == t[k - 1]);
            }
        }
    }
}

/// A version is read from the first digit of a text: two numbers with a dot
/// between them, whatever stands before them and whatever follows.
pub proof fn law_version_is_read(
    raw: &str,
    before: Seq<char>,
    major: u16,
    minor: u16,
    after: Seq<char>,
    r: Option<(u16, u16)>,
)
    requires
        call_ensures(parse_mpv_version, (raw,), r),
        raw@ == before + decimal(major as nat) + seq!['.'] + decimal(minor as nat) + after,
        forall|k: int| 0 <= k < before.len() ==> !is_digit(#[trigger] before[k]),
        after.len() == 0 || !is_digit(after[0]),
    ensures
        r == Some((major, minor)),
{
    let first = decimal(major as nat);
    let second = decimal(minor as nat);
    let b = before.len();
    let m = first.len();
    let n = second.len();
    crate::strings::lemma_decimal_reads_back(major as nat);
    crate::strings::lemma_decimal_reads_back(minor as nat);
    crate::strings::lemma_parse_decimal(major as nat, u16::MAX as nat);
    crate::strings::lemma_parse_decimal(minor as nat, u16::MAX as nat);
    assert forall|k: int| 0 <= k < b implies !is_digit(raw@[k]) by {
        assert(raw@[k] == before[k]);
    }
    assert(raw@[b as int] == first[0]);
    lemma_from_first_digit(raw@, b);
    let tail = raw@.skip(b as int);
    assert forall|k: int| 0 <= k < m implies tail[k] == first[k] by {}
    assert(tail[m as int] == '.');
    assert forall|k: int| 0 <= k < n implies tail[m + 1 + k] == second[k] by {}
    assert forall|k: int| 0 <= k < m + 1 + n implies is_digit(tail[k]) || tail[k] == '.' by {
        if k < m {
            assert(is_digit(first[k]));
        } else if k > m {
            assert(tail[m + 1 + (k - m - 1)] == second[k - m - 1]);
            assert(is_digit(second[k - m - 1]));
        }
    }
    lemma_version_run(tail, m + 1 + n);
    let run = tail.take(version_len(tail) as int);
    assert forall|k: int| 0 <= k < m implies run[k] != '.' by {
        assert(is_digit(first[k]));
    }
    lemma_part_len(run, m);
    assert(run.take(m as int) =~= first);
    let rest = run.skip(m as int + 1);
    assert forall|k: int| 0 <= k < n implies rest[k] == second[k] && rest[k] != '.' by {
        assert(rest[k] == tail[m + 1 + k]);
        assert(is_digit(second[k]));
    }
    if n < rest.len() {
        assert(rest[n as int] == tail[(m + 1 + n) as int]);
        assert(tail[(m + 1 + n) as int] == after[0]);
    }
    lemma_part_len(rest, n);
    assert(rest.take(n as int) =~= second);
    assert(version_of(raw@) == Some((major as nat, minor as nat)));
}

/// A text without a digit, or without a dot, tells no version.
pub proof fn law_no_version(raw: &str, r: Option<(u16, u16)>)
    requires
        call_ensures(parse_mpv_version, (raw,), r),
        (forall|k: int| 0 <= k < raw@.len() ==> !is_digit(#[trigger] raw@[k])) || !raw@.contains(
            '.',
        ),
    ensures
        r is None,
{
    lemma_first_digit_is_part(raw@);
    let tail = from_first_digit(raw@);
    lemma_version_run(tail, 0);
    let run = tail.take(version_len(tail) as int);
    if !raw@.contains('.') {
        assert forall|k: int| 0 <= k < run.len() implies run[k] != '.' by {
            assert(raw@.contains(tail[k]));
        }
        lemma_part_len(run, run.len());
    } else {
        lemma_from_first_digit(raw@, raw@.len());
        assert(tail.len() == 0);
    }
}

proof fn lemma_first_digit_is_part(s: Seq<char>)
    ensures
        forall|k: int|
            0 <= k < from_first_digit(s).len() ==> s.contains(#[trigger] from_first_digit(s)[k]),
    decreases s.len(),
{
    if s.len() > 0 && !is_digit(s[0]) {
        let t = s.skip(1);
        lemma_first_digit_is_part(t);
        assert forall|k: int| 0 <= k < from_first_digit(s).len() implies s.contains(
            #[trigger] from_first_digit(s)[k],
        ) by {
            assert(t.contains(from_first_digit(t)[k]));
            let j = choose|j: int| 0 <= j < t.len() && t[j] == from_first_digit(t)[k];
            assert(s[j + 1] == t[j]);
        }
    } else {
        assert forall|k: int| 0 <= k < s.len() implies s.contains(#[trigger] s[k]) by {}
    }
}

} // verus!

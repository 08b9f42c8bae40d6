//! Desktop notifications on track change.
//!
//! Linux uses the freedesktop.org D-Bus interface. macOS has none, so it runs
//! `terminal-notifier` where installed and `osascript` otherwise. The driver
//! sends what is built here.

use crate::command::{push_arg, CommandLine, CommandLineView};
use crate::daemon::state::Child;
use crate::strings::{joined, lossy, lossy_text, same_text, text_of, texts, trim_text, trimmed};
use vstd::prelude::*;

verus! {

/// The body of a notification: artist on the first line, album on the second.
pub open spec fn body_text(artist: Option<Seq<char>>, album: Option<Seq<char>>) -> Seq<char> {
    let first = match artist {
        Some(a) => a,
        None => "Unknown Artist"@,
    };
    match album {
        Some(b) => if b.len() > 0 {
            first + "\n"@ + b
        } else {
            first
        },
        None => first,
    }
}

/// Notification body: artist on the first line, album on the second.
#[must_use]
pub fn track_body(song: &Child) -> (r: String)
    ensures
        r@ == body_text(text_of(song.artist), text_of(song.album)),
{
    let artist = match &song.artist {
        Some(a) => a.as_str(),
        None => "Unknown Artist",
    };
    match &song.album {
        Some(album) if !album.as_str().is_empty() => {
            let first = joined(artist, "\n");
            joined(first.as_str(), album.as_str())
        },
        _ => artist.to_owned(),
    }
}

/// Build the `osascript` invocation that displays `body` under `title`.
///
/// The text is passed as `argv` and read back inside `on run argv`, so no
/// escaping is needed and a title or body cannot alter the script.
#[must_use]
pub fn osascript_notification_command(title: &str, body: &str) -> (r: CommandLine)
    ensures
        r@ == osascript_line(title@, body@),
{
    let mut args: Vec<String> = Vec::new();
    push_arg(&mut args, "-e");
    push_arg(
        &mut args,
        "on run argv\n\tdisplay notification (item 2 of argv) with title (item 1 of argv)\n\tend run",
    );
    push_arg(&mut args, "--");
    push_arg(&mut args, title);
    push_arg(&mut args, body);
    proof {
        assert(texts(args@) =~= osascript_line(title@, body@).args);
    }
    CommandLine { program: "osascript".to_owned(), args }
}

/// The `osascript` invocation: a fixed script, then title and body as its
/// arguments.
pub open spec fn osascript_line(title: Seq<char>, body: Seq<char>) -> CommandLineView {
    CommandLineView {
        program: "osascript"@,
        args: seq![
            "-e"@,
            "on run argv\n\tdisplay notification (item 2 of argv) with title (item 1 of argv)\n\tend run"@,
            "--"@,
            title,
            body,
        ],
    }
}

/// The `terminal-notifier` invocation. One group id makes each track replace
/// the previous banner.
pub open spec fn terminal_notifier_line(
    binary: Seq<char>,
    title: Seq<char>,
    body: Seq<char>,
    cover_path: Option<Seq<char>>,
) -> CommandLineView {
    CommandLineView {
        program: binary,
        args: seq!["-title"@, title, "-message"@, body, "-group"@, "ferrosonic"@] + (
        match cover_path {
            Some(path) => seq!["-contentImage"@, path],
            None => Seq::empty(),
        }),
    }
}

/// Build the `terminal-notifier` invocation for `title`/`body`, optionally
/// attaching `cover_path` as the notification image.
#[must_use]
pub fn terminal_notifier_command(
    binary: &str,
    title: &str,
    body: &str,
    cover_path: Option<&str>,
) -> (r: CommandLine)
    ensures
        r@ == terminal_notifier_line(
            binary@,
            title@,
            body@,
            crate::config::password::str_of(cover_path),
        ),
{
    let mut args: Vec<String> = Vec::new();
    push_arg(&mut args, "-title");
    push_arg(&mut args, title);
    push_arg(&mut args, "-message");
    push_arg(&mut args, body);
    push_arg(&mut args, "-group");
    push_arg(&mut args, "ferrosonic");
    if let Some(path) = cover_path {
        push_arg(&mut args, "-contentImage");
        push_arg(&mut args, path);
    }
    proof {
        assert(texts(args@) =~= terminal_notifier_line(
            binary@,
            title@,
            body@,
            crate::config::password::str_of(cover_path),
        ).args);
    }
    CommandLine { program: binary.to_owned(), args }
}

/// The path that a successful `which terminal-notifier` printed, if any.
#[must_use]
pub fn find_terminal_notifier(success: bool, stdout: &[u8]) -> (r: Option<String>)
    ensures
        text_of(r) == (if success && trimmed(lossy_text(stdout@)).len() > 0 {
            Some(trimmed(lossy_text(stdout@)))
        } else {
            None
        }),
{
    if !success {
        return None;
    }
    let text = lossy(stdout);
    let path = trim_text(text.as_str());
    if path.as_str().is_empty() {
        None
    } else {
        Some(path)
    }
}

/// How long a notification stays, in milliseconds.
pub const EXPIRE_TIMEOUT_MS: i32 = 5000;

/// A request to the freedesktop.org notification service.
#[derive(Debug, PartialEq, Eq)]
pub struct NotifyRequest {
    pub app_name: &'static str,
    /// The notification that this one takes the place of; 0 for none.
    pub replaces_id: u32,
    pub summary: String,
    pub body: String,
    /// The `image-path` hint.
    pub image_path: Option<String>,
    pub expire_timeout: i32,
}

/// Remembers what was notified last.
pub struct Notifier {
    last_notif_id: u32,
    last_song: Option<String>,
}

/// A notifier as mathematical values.
pub struct NotifierView {
    /// The notification shown last; 0 for none.
    pub last_id: u32,
    /// The track notified last.
    pub last_song: Option<Seq<char>>,
}

impl View for Notifier {
    type V = NotifierView;

    closed spec fn view(&self) -> NotifierView {
        NotifierView { last_id: self.last_notif_id, last_song: text_of(self.last_song) }
    }
}

/// Marking a track: whether it differs from the last one, and the notifier
/// after that.
pub open spec fn marked(before: NotifierView, song_id: Seq<char>) -> (bool, NotifierView) {
    (
        before.last_song != Some(song_id),
        NotifierView { last_song: Some(song_id), ..before },
    )
}

impl Notifier {
    /// Construct an idle notifier.
    #[must_use]
    pub fn new() -> (r: Self)
        ensures
            r@ == (NotifierView { last_id: 0, last_song: None }),
    {
        Notifier { last_notif_id: 0, last_song: None }
    }

    /// True when `song_id` differs from the last notified track, recording it
    /// so the tick fires a notification once per track change.
    pub fn mark_if_changed(&mut self, song_id: &str) -> (r: bool)
        ensures
            (r, final(self)@) == marked(old(self)@, song_id@),
    {
        let same = match &self.last_song {
            Some(last) => same_text(last.as_str(), song_id),
            None => false,
        };
        if same {
            false
        } else {
            self.last_song = Some(song_id.to_owned());
            true
        }
    }

    /// The request that shows or replaces the track-change notification.
    pub fn show(&self, title: &str, body: &str, cover_path: Option<&str>) -> (r: NotifyRequest)
        ensures
            r.app_name@ == "Ferrosonic"@,
            r.replaces_id == self@.last_id,
            r.summary@ == title@,
            r.body@ == body@,
            text_of(r.image_path) == (match cover_path {
                Some(path) => Some("file://"@ + path@),
                None => None,
            }),
            r.expire_timeout == EXPIRE_TIMEOUT_MS,
    {
        NotifyRequest {
            app_name: "Ferrosonic",
            replaces_id: self.last_notif_id,
            summary: title.to_owned(),
            body: body.to_owned(),
            image_path: match cover_path {
                Some(path) => Some(joined("file://", path)),
                None => None,
            },
            expire_timeout: EXPIRE_TIMEOUT_MS,
        }
    }

    /// Takes over the id that the service gave; nothing where it failed.
    pub fn shown(&mut self, reply: Option<u32>)
        ensures
            final(self)@ == (NotifierView {
                last_id: match reply {
                    Some(id) => id,
                    None => old(self)@.last_id,
                },
                ..old(self)@
            }),
    {
        if let Some(id) = reply {
            self.last_notif_id = id;
        }
    }
}

/// What the macOS driver does to show a notification.
#[derive(Debug, PartialEq, Eq)]
pub enum MacNotify {
    /// Run this; if it fails, run the fallback.
    TerminalNotifier(CommandLine),
    /// Run this.
    Osascript(CommandLine),
    /// Nothing.
    Done,
}

/// The first attempt on macOS: `terminal-notifier` where it was found.
#[must_use]
pub fn mac_notify(
    terminal_notifier: Option<&str>,
    title: &str,
    body: &str,
    cover_path: Option<&str>,
) -> (r: MacNotify)
    ensures
        match terminal_notifier {
            Some(binary) => r matches MacNotify::TerminalNotifier(c) && c@ == terminal_notifier_line(
                binary@,
                title@,
                body@,
                crate::config::password::str_of(cover_path),
            ),
            None => r matches MacNotify::Osascript(c) && c@ == osascript_line(title@, body@),
        },
{
    match terminal_notifier {
        Some(binary) => MacNotify::TerminalNotifier(
            terminal_notifier_command(binary, title, body, cover_path),
        ),
        None => MacNotify::Osascript(osascript_notification_command(title, body)),
    }
}

/// What follows a run of `terminal-notifier`: the fallback where it failed.
#[must_use]
pub fn mac_notify_after(success: bool, title: &str, body: &str) -> (r: MacNotify)
    ensures
        if success {
            r is Done
        } else {
            r matches MacNotify::Osascript(c) && c@ == osascript_line(title@, body@)
        },
{
    if success {
        MacNotify::Done
    } else {
        MacNotify::Osascript(osascript_notification_command(title, body))
    }
}

/// A track is notified once: marking it again changes nothing, and only
/// another track makes it count as changed again.
pub proof fn law_each_change_is_notified_once(
    before: NotifierView,
    song_id: Seq<char>,
    other: Seq<char>,
)
    ensures
        !marked(marked(before, song_id).1, song_id).0,
        marked(marked(before, song_id).1, song_id).1 == marked(before, song_id).1,
        other != song_id ==> marked(marked(before, song_id).1, other).0,
{
}

/// Neither title nor body is ever part of the script.
pub proof fn law_script_is_fixed(
    title: Seq<char>,
    body: Seq<char>,
    other_title: Seq<char>,
    other_body: Seq<char>,
)
    ensures
        osascript_line(title, body).args.take(3) == osascript_line(
            other_title,
            other_body,
        ).args.take(3),
        osascript_line(title, body).args.skip(3) == seq![title, body],
{
    assert(osascript_line(title, body).args.take(3) =~= osascript_line(
        other_title,
        other_body,
    ).args.take(3));
    assert(osascript_line(title, body).args.skip(3) =~= seq![title, body]);
}

/// The body names the artist, or says that it is unknown, and the album on a
/// line of its own where there is one with a name.
pub proof fn law_body(song: Child, r: String)
    requires
        call_ensures(track_body, (&song,), r),
    ensures
        ({
            let artist = if song.artist is Some {
                song.artist->0@
            } else {
                "Unknown Artist"@
            };
            let named = song.album is Some && song.album->0@.len() > 0;
            &&& !named ==> r@ == artist
            &&& named ==> r@ == artist + "\n"@ + song.album->0@
        }),
{
}

/// What is shown on macOS: `terminal-notifier` where it was found, with a cover
/// where there is one, and `osascript` where it was not or failed. Title and
/// body are words of their own in both.
pub proof fn law_mac_notification(
    binary: Option<&str>,
    title: &str,
    body: &str,
    cover: Option<&str>,
    success: bool,
    first: MacNotify,
    then: MacNotify,
)
    requires
        call_ensures(mac_notify, (binary, title, body, cover), first),
        call_ensures(mac_notify_after, (success, title, body), then),
    ensures
        first is TerminalNotifier <==> binary is Some,
        first is Osascript <==> binary is None,
        first matches MacNotify::TerminalNotifier(c) ==> {
            let args = texts(c.args@);
            &&& c.program@ == binary->0@
            &&& args.len() == if cover is Some {
                8nat
            } else {
                6nat
            }
            &&& args[0] == "-title"@ && args[1] == title@
            &&& args[2] == "-message"@ && args[3] == body@
            &&& args[4] == "-group"@ && args[5] == "ferrosonic"@
            &&& cover is Some ==> args[6] == "-contentImage"@ && args[7] == cover->0@
        },
        first matches MacNotify::Osascript(c) ==> c.program@ == "osascript"@ && texts(
            c.args@,
        ).len() == 5 && texts(c.args@)[3] == title@ && texts(c.args@)[4] == body@ && texts(
            c.args@,
        )[0] == "-e"@ && texts(c.args@)[2] == "--"@,
        then is Done <==> success,
        then is Osascript <==> !success,
        then matches MacNotify::Osascript(c) ==> c.program@ == "osascript"@ && texts(c.args@)[3]
            == title@ && texts(c.args@)[4] == body@,
{
}

/// A program is found only by a search that succeeded and printed its path; the
/// white space around the path is not part of it.
pub proof fn law_notifier_is_found(
    success: bool,
    stdout: &[u8],
    text: &str,
    path: String,
    r: Option<String>,
)
    requires
        call_ensures(find_terminal_notifier, (success, stdout), r),
        call_ensures(trim_text, (text,), path),
        lossy_text(stdout@) == text@,
    ensures
        r is Some <==> success && path@.len() > 0,
        r matches Some(p) ==> p@ == path@,
{
}

/// A track is told once: marking it says whether it differs from the one marked
/// last, and from then on it is the one marked last.
pub proof fn law_marking(notifier: &mut Notifier, song_id: &str, r: bool)
    requires
        call_ensures(Notifier::mark_if_changed, (notifier, song_id), r),
    ensures
        r <==> old(notifier)@.last_song != Some(song_id@),
        final(notifier)@.last_song == Some(song_id@),
        final(notifier)@.last_id == old(notifier)@.last_id,
{
}

/// A new notifier has told nothing, and the first track is always told.
pub proof fn law_new_notifier(r: Notifier)
    requires
        call_ensures(Notifier::new, (), r),
    ensures
        r@.last_id == 0,
        r@.last_song is None,
{
}

/// A notification says what it is given and takes the place of the last one
/// that the service showed; a reply that did not come changes nothing.
pub proof fn law_notification(
    notifier: &mut Notifier,
    title: &str,
    body: &str,
    cover: Option<&str>,
    reply: Option<u32>,
    r: NotifyRequest,
)
    requires
        call_ensures(Notifier::show, (&*old(notifier), title, body, cover), r),
        call_ensures(Notifier::shown, (notifier, reply), ()),
    ensures
        r.app_name@ == "Ferrosonic"@,
        r.summary@ == title@,
        r.body@ == body@,
        r.replaces_id == old(notifier)@.last_id,
        r.expire_timeout == 5000,
        r.image_path is Some <==> cover is Some,
        r.image_path matches Some(uri) ==> uri@ == "file://"@ + cover->0@,
        reply matches Some(id) ==> final(notifier)@.last_id == id,
        reply is None ==> final(notifier)@.last_id == old(notifier)@.last_id,
        final(notifier)@.last_song == old(notifier)@.last_song,
{
}

} // verus!

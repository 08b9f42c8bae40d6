//! Desktop notifications.

use ferrosonic::daemon::notify::{
    find_terminal_notifier, mac_notify, mac_notify_after, osascript_notification_command,
    terminal_notifier_command, track_body, MacNotify, Notifier,
};
use ferrosonic::daemon::state::Child;

fn song(artist: Option<&str>, album: Option<&str>) -> Child {
    Child {
        id: "x".into(),
        title: "Title".into(),
        artist: artist.map(str::to_string),
        album: album.map(str::to_string),
        ..Child::default()
    }
}

#[test]
fn body_is_artist_then_album_on_two_lines() {
    assert_eq!(
        track_body(&song(Some("Boards"), Some("Geogaddi"))),
        "Boards\nGeogaddi"
    );
}

#[test]
fn body_drops_the_album_line_when_absent_or_empty() {
    assert_eq!(track_body(&song(Some("Boards"), None)), "Boards");
    assert_eq!(track_body(&song(Some("Boards"), Some(""))), "Boards");
}

#[test]
fn body_falls_back_when_artist_missing() {
    assert_eq!(
        track_body(&song(None, Some("Geogaddi"))),
        "Unknown Artist\nGeogaddi"
    );
}

#[test]
fn terminal_notifier_command_passes_text_and_cover_as_args() {
    let cmd = terminal_notifier_command(
        "/opt/homebrew/bin/terminal-notifier",
        "Title \"quoted\"",
        "Artist\nAlbum",
        Some("/tmp/ferrosonic-cover.img"),
    );
    assert_eq!(
        cmd.args,
        vec![
            "-title",
            "Title \"quoted\"",
            "-message",
            "Artist\nAlbum",
            "-group",
            "ferrosonic",
            "-contentImage",
            "/tmp/ferrosonic-cover.img",
        ]
    );
    assert_eq!(cmd.program, "/opt/homebrew/bin/terminal-notifier");
}

#[test]
fn terminal_notifier_command_omits_cover_when_absent() {
    let cmd = terminal_notifier_command("terminal-notifier", "T", "B", None);
    assert!(!cmd.args.iter().any(|a| a == "-contentImage"));
    assert_eq!(
        cmd.args,
        vec!["-title", "T", "-message", "B", "-group", "ferrosonic"]
    );
}

#[test]
fn osascript_command_passes_text_as_argv_not_in_script() {
    let cmd = osascript_notification_command("Title \"quoted\"", "Artist\nAlbum");
    let args = cmd.args;
    assert_eq!(args.len(), 5);
    assert_eq!(args[0], "-e");
    assert_eq!(args[2], "--");
    assert_eq!(args[3], "Title \"quoted\"");
    assert_eq!(args[4], "Artist\nAlbum");
    assert!(args[1].contains("on run argv"));
    assert!(
        !args[1].contains("quoted"),
        "title must not be embedded in the script"
    );
    assert_eq!(cmd.program, "osascript");
}

#[test]
fn each_change_is_notified_once() {
    let mut n = Notifier::new();
    assert!(n.mark_if_changed("a"));
    assert!(!n.mark_if_changed("a"));
    assert!(n.mark_if_changed("b"));
    assert!(n.mark_if_changed("a"));
}

#[test]
fn a_notification_replaces_the_one_before() {
    let mut n = Notifier::new();
    let r = n.show("T", "B", Some("/tmp/c.img"));
    assert_eq!(r.app_name, "Ferrosonic");
    assert_eq!(r.replaces_id, 0);
    assert_eq!((r.summary.as_str(), r.body.as_str()), ("T", "B"));
    assert_eq!(r.image_path.as_deref(), Some("file:///tmp/c.img"));
    assert_eq!(r.expire_timeout, 5000);
    n.shown(Some(17));
    n.shown(None);
    let r = n.show("T", "B", None);
    assert_eq!((r.replaces_id, r.image_path), (17, None));
}

#[test]
fn terminal_notifier_is_preferred_with_a_fallback() {
    assert_eq!(
        find_terminal_notifier(true, b"/usr/bin/terminal-notifier\n").as_deref(),
        Some("/usr/bin/terminal-notifier")
    );
    assert_eq!(find_terminal_notifier(true, b" \n"), None);
    assert_eq!(find_terminal_notifier(false, b"/x"), None);
    assert!(matches!(
        mac_notify(Some("/x"), "T", "B", None),
        MacNotify::TerminalNotifier(_)
    ));
    assert!(matches!(
        mac_notify(None, "T", "B", None),
        MacNotify::Osascript(_)
    ));
    assert_eq!(mac_notify_after(true, "T", "B"), MacNotify::Done);
    assert_eq!(
        mac_notify_after(false, "T", "B"),
        MacNotify::Osascript(osascript_notification_command("T", "B"))
    );
}

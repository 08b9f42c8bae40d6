# Ferrosonic

A music daemon for Subsonic servers and its terminal client, written in Rust and
verified with [Verus](https://github.com/verus-lang/verus).

* `src/` is the verified library: the rules of the configuration, of mpv's IPC,
  of the `PipeWire` rate control, of playback, and of the cover art. Its
  functions decide; they do no I/O. A function that has to be followed by
  outside work hands out what to do, and another takes over what came of it.
* `app/` is the shell around it: files, processes, sockets, the session bus and
  the terminal.
* `tests/` drive the library on recorded replies of the outside world.

| Module | What it holds |
| --- | --- |
| `config` | settings, their form on disk, where the password comes from |
| `audio` | the protocol and connection of mpv, `pw-metadata` |
| `daemon` | queue, playback, pre-buffering, rate settling, auto-continue, notifications |
| `ui` | cover art |
| `binary64`, `strings`, `counter`, `command`, `secret` | what the others are made of |

Doubles are kept by their bit pattern (`binary64`), since the rules that read
them only compare them with fixed bounds.

What is believed of other crates without proof stands in the items marked
`external_body` and `assume_specification`, each with a comment on what it
claims.

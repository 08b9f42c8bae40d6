//! What the audio side does, call by call: mpv's process, its requests and
//! commands, and the `PipeWire` clock.

use crate::audio::error::AudioError;
use crate::audio::mpv::{
    ChildLook, Gain, MpvController, MpvResponse, Received, RunningVerdict, SocketWait,
    StartDecision,
};
use crate::audio::mpv_protocol::{
    bit_depth, channels_text, classify_event, commands, frame_command, mpv_allow_clip,
    parse_mpv_version, ArgView, MpvCommand, MpvEvent, MpvEventKind, MpvProperty, MpvValue,
};
use crate::audio::pipewire::{
    args_of, line_rate, parse_force_rate_from_output, probe_arguments, PipeWireController,
    PwMetadataCommand, RunOutcome,
};
use crate::binary64::Binary64;
use crate::command::CommandLine;
use crate::config::modes::{MacosAudioMode, ReplayGainMode};
use crate::config::settings::ConfigError;
use crate::strings::{decimal, lossy_text, occurs, text_of, texts};
use vstd::prelude::*;

verus! {

// ---------------------------------------------------------------------------
// The mpv process.
// ---------------------------------------------------------------------------

/// A new controller knows its socket and nothing else: it is not connected, no
/// request waits, and mpv would start without any gain.
pub proof fn law_new_controller(path: String, r: MpvController)
    requires
        call_ensures(MpvController::with_socket_path, (path,), r),
    ensures
        r@.socket_path == path@,
        !r@.connected,
        !r@.reading,
        forall|id: u64| !r@.pending.contains(id),
        r@.version is None,
        r@.replaygain_mode == ReplayGainMode::Off,
        r@.replaygain_preamp.bits == 0,
        !r@.prevent_clipping,
        r@.macos_audio_mode == MacosAudioMode::Off,
{
}

/// A running mpv that can be reached is kept. Anything else is replaced, and
/// whatever is left of it, a process or a connection, is torn down first.
pub proof fn law_start(mpv: MpvController, child: Option<ChildLook>, r: StartDecision)
    requires
        call_ensures(MpvController::start, (&mpv, child), r),
    ensures
        r == StartDecision::AlreadyUp <==> child == Some(ChildLook::Running) && mpv@.connected,
        r matches StartDecision::Spawn { tear_down } ==> (tear_down <==> child is Some
            || mpv@.connected),
{
}

/// A fresh mpv listens on the controller's socket, plays no video, keeps
/// running without a file and starts with the gain of the settings. mpv's
/// word for clipping says what is allowed, ours what is prevented.
pub proof fn law_startup_command(mpv: MpvController, preamp: &str, r: CommandLine)
    requires
        call_ensures(MpvController::startup_command, (&mpv, preamp), r),
    ensures
        ({
            let args = texts(r.args@);
            &&& r.program@ == "mpv"@
            &&& args[0] == "--idle"@
            &&& args[1] == "--no-video"@
            &&& args[2] == "--no-terminal"@
            &&& args[3] == "--audio-client-name=ferrosonic"@
            &&& args[4] == "--gapless-audio=yes"@
            &&& args[5] == "--prefetch-playlist=yes"@
            &&& args[6] == "--cache=yes"@
            &&& args[7] == "--cache-secs=120"@
            &&& args[8] == "--demuxer-max-bytes=100MiB"@
            &&& args[9] == "--cache-pause-initial=no"@
            &&& args[10] == "--cache-pause=no"@
            &&& mpv@.replaygain_mode == ReplayGainMode::Off ==> args[11] == "--replaygain="@
                + "no"@
            &&& mpv@.replaygain_mode == ReplayGainMode::Track ==> args[11] == "--replaygain="@
                + "track"@
            &&& mpv@.replaygain_mode == ReplayGainMode::Album ==> args[11] == "--replaygain="@
                + "album"@
            &&& args[12] == "--replaygain-preamp="@ + preamp@
            &&& mpv@.prevent_clipping ==> args[13] == "--replaygain-clip="@ + "no"@
            &&& !mpv@.prevent_clipping ==> args[13] == "--replaygain-clip="@ + "yes"@
            &&& mpv@.macos_audio_mode == MacosAudioMode::Off ==> args.len() == 15
            &&& mpv@.macos_audio_mode == MacosAudioMode::PhysicalFormat ==> args.len() == 16
                && args[14] == "--coreaudio-change-physical-format=yes"@
            &&& mpv@.macos_audio_mode == MacosAudioMode::Exclusive ==> args.len() == 16 && args[14]
                == "--audio-exclusive=yes"@
            &&& args.last() == "--input-ipc-server="@ + mpv@.socket_path
        }),
{
}

/// The socket of a fresh mpv is looked for fifty times, a tenth of a second
/// apart; once it is there the connection follows after a short pause.
pub proof fn law_wait_for_socket(look: u32, exists: bool, r: SocketWait)
    requires
        call_ensures(MpvController::wait_for_socket, (look, exists), r),
    ensures
        r == SocketWait::GiveUp <==> look >= 50,
        look < 50 && exists ==> r == SocketWait::SettleMs(50),
        look < 50 && !exists ==> r == SocketWait::RetryMs(100),
{
}

/// Without its socket neither a fresh nor an old mpv can be connected to.
pub proof fn law_socket_is_needed(
    mpv: MpvController,
    exists: bool,
    fresh: Result<(), AudioError>,
    old_one: Result<(), AudioError>,
)
    requires
        call_ensures(MpvController::socket_ready, (exists,), fresh),
        call_ensures(MpvController::connect_to_existing, (&mpv, exists), old_one),
    ensures
        fresh is Ok <==> exists,
        old_one is Ok <==> exists,
        fresh matches Err(e) ==> e is MpvIpc && e->MpvIpc_0@ == "Socket not created"@,
        old_one matches Err(e) ==> e is MpvIpc && e->MpvIpc_0@ == "Socket "@ + mpv@.socket_path
            + " does not exist"@,
{
}

/// mpv is alive only with a connection, with a reader that has not ended and
/// with a process, where one is owned, that runs. Once any of them is gone the
/// connection is given up and the process reaped.
pub proof fn law_alive(
    mpv: &mut MpvController,
    reader_finished: bool,
    child: Option<ChildLook>,
    r: RunningVerdict,
)
    requires
        call_ensures(MpvController::is_running, (mpv, reader_finished, child), r),
    ensures
        !old(mpv)@.connected ==> !r.alive && !r.reap_child && !r.abort_reader && final(mpv)@
            == old(mpv)@,
        r.alive <==> old(mpv)@.connected && (!old(mpv)@.reading || !reader_finished) && (
        child matches Some(look) ==> look == ChildLook::Running),
        r.alive ==> final(mpv)@ == old(mpv)@ && !r.reap_child && !r.abort_reader,
        old(mpv)@.connected && !r.alive ==> r.reap_child && !final(mpv)@.connected && !final(
            mpv)@.reading,
        r.abort_reader <==> r.reap_child && old(mpv)@.reading && !reader_finished,
        final(mpv)@.pending == old(mpv)@.pending,
        final(mpv)@.socket_path == old(mpv)@.socket_path,
{
}

/// Only a process that has exited need not be killed.
pub proof fn law_reap(child: ChildLook, kill: bool)
    requires
        call_ensures(MpvController::reap_child, (child,), kill),
    ensures
        kill <==> child == ChildLook::Running || child == ChildLook::Unknown,
{
}

/// Dropping the connection hands out every waiting request, each once, and
/// leaves none behind; nothing is connected afterwards.
pub proof fn law_reset(mpv: &mut MpvController, r: Vec<u64>)
    requires
        call_ensures(MpvController::reset_ipc, (mpv,), r),
    ensures
        forall|id: u64| r@.contains(id) <==> #[trigger] old(mpv)@.pending.contains(id),
        forall|i: int, j: int| 0 <= i < j < r@.len() ==> r@[i] != r@[j],
        forall|id: u64| !final(mpv)@.pending.contains(id),
        !final(mpv)@.connected,
        !final(mpv)@.reading,
        final(mpv)@.next_request == old(mpv)@.next_request,
        final(mpv)@.version == old(mpv)@.version,
{
    assert forall|id: u64| r@.contains(id) <==> #[trigger] old(mpv)@.pending.contains(id) by {
        assert(r@.to_set().contains(id) <==> r@.contains(id));
    }
}

/// A connection that came up can be written to and is read; a shutdown ends
/// both. Neither touches the waiting requests.
pub proof fn law_connection_comes_and_goes(up: &mut MpvController, down: &mut MpvController)
    requires
        call_ensures(MpvController::connected, (up,), ()),
        call_ensures(MpvController::shutdown_sync, (down,), ()),
    ensures
        final(up)@.connected && final(up)@.reading,
        final(up)@.pending == old(up)@.pending,
        final(up)@.version == old(up)@.version,
        !final(down)@.connected && !final(down)@.reading,
        final(down)@.pending == old(down)@.pending,
        final(down)@.socket_path == old(down)@.socket_path,
{
}

// ---------------------------------------------------------------------------
// Requests and their answers.
// ---------------------------------------------------------------------------

/// A request over a connection gets the next number and waits under it; without
/// a connection it fails and does not wait. Either way the number is used up.
pub proof fn law_request(mpv: &mut MpvController, r: Result<u64, AudioError>)
    requires
        call_ensures(MpvController::send_command, (mpv,), r),
    ensures
        r is Ok <==> old(mpv)@.connected,
        r matches Ok(id) ==> id == old(mpv)@.next_request && final(mpv)@.pending.contains(id),
        r matches Err(e) ==> e is MpvNotRunning && final(mpv)@.pending == old(mpv)@.pending,
        old(mpv)@.next_request < u64::MAX ==> final(mpv)@.next_request == old(mpv)@.next_request
            + 1,
        forall|id: u64|
            id != old(mpv)@.next_request ==> (#[trigger] final(mpv)@.pending.contains(id)
                <==> old(mpv)@.pending.contains(id)),
        final(mpv)@.connected == old(mpv)@.connected,
{
}

/// A reply goes to the request that waits under its number, which then waits no
/// more: its data where mpv says `success`, mpv's words as an error otherwise.
/// Any other line goes to nobody that waits; as an event it goes to the
/// subscribers.
pub proof fn law_receive(
    mpv: &mut MpvController,
    resp: Option<MpvResponse>,
    event: Option<MpvEvent>,
    r: Received,
)
    requires
        call_ensures(MpvController::receive, (mpv, resp, event), r),
    ensures
        r is Answer <==> resp is Some && resp->0.request_id is Some && old(mpv)@.pending.contains(
            resp->0.request_id->0,
        ),
        r matches Received::Answer { id, result } ==> {
            &&& resp->0.request_id == Some(id)
            &&& forall|x: u64| #[trigger]
                final(mpv)@.pending.contains(x) <==> old(mpv)@.pending.contains(x) && x != id
            &&& resp->0.error@ == "success"@ ==> result == Ok::<Option<MpvValue>, AudioError>(
                resp->0.data,
            )
            &&& resp->0.error@ != "success"@ ==> result is Err && result->Err_0 is MpvIpc
                && result->Err_0->MpvIpc_0@ == resp->0.error@
        },
        r !is Answer ==> final(mpv)@ == old(mpv)@,
        r is Event <==> r !is Answer && event is Some,
        final(mpv)@.connected == old(mpv)@.connected,
        final(mpv)@.next_request == old(mpv)@.next_request,
{
}

/// A request that could not be written, or was not answered in time, waits no
/// more, and no other request is affected.
pub proof fn law_given_up_requests(
    written: &mut MpvController,
    waited: &mut MpvController,
    id: u64,
    reason: String,
    unwritten: AudioError,
    late: AudioError,
)
    requires
        call_ensures(MpvController::write_failed, (written, id, reason), unwritten),
        call_ensures(MpvController::timed_out, (waited, id), late),
    ensures
        unwritten is MpvIpc && unwritten->MpvIpc_0@ == reason@,
        late is MpvIpc && late->MpvIpc_0@ == "mpv command timeout after 5s (req "@ + decimal(
            id as nat,
        ) + ")"@,
        forall|x: u64| #[trigger]
            final(written)@.pending.contains(x) <==> old(written)@.pending.contains(x) && x != id,
        forall|x: u64| #[trigger]
            final(waited)@.pending.contains(x) <==> old(waited)@.pending.contains(x) && x != id,
        final(written)@.connected == old(written)@.connected,
        final(waited)@.connected == old(waited)@.connected,
{
}

/// How requests fail when the connection or the reader is gone.
pub proof fn law_lost_requests(reset: AudioError, ended: AudioError)
    requires
        call_ensures(MpvController::connection_reset, (), reset),
        call_ensures(MpvController::reader_ended, (), ended),
    ensures
        reset is MpvIpc && reset->MpvIpc_0@ == "connection reset"@,
        ended is MpvIpc && ended->MpvIpc_0@ == "reader task ended"@,
{
}

/// Every command is one line.
pub proof fn law_frame(json: Vec<u8>, r: Vec<u8>)
    requires
        call_ensures(frame_command, (json,), r),
    ensures
        r@.len() == json@.len() + 1,
        forall|i: int| 0 <= i < json@.len() ==> #[trigger] r@[i] == json@[i],
        r@.last() == 10,
{
}

// ---------------------------------------------------------------------------
// Commands.
// ---------------------------------------------------------------------------

/// The words of a load that takes the place of all that mpv holds, of one that
/// goes behind it, and of one from an offset.
pub proof fn law_load_commands(
    path: &str,
    start: Binary64,
    running: Vec<MpvCommand>,
    paused: Vec<MpvCommand>,
    at: MpvCommand,
    at_paused: Vec<MpvCommand>,
    behind: MpvCommand,
)
    requires
        call_ensures(MpvController::loadfile, (path,), running),
        call_ensures(MpvController::loadfile_paused, (path,), paused),
        call_ensures(MpvController::loadfile_at, (path, start), at),
        call_ensures(MpvController::loadfile_at_paused, (path, start), at_paused),
        call_ensures(MpvController::loadfile_append, (path,), behind),
    ensures
        ({
            let pause = |on: bool|
                seq![ArgView::Text("set_property"@), ArgView::Text("pause"@), ArgView::Flag(on)];
            let replace = seq![
                ArgView::Text("loadfile"@),
                ArgView::Text(path@),
                ArgView::Text("replace"@),
            ];
            let from = replace + seq![ArgView::Int(-1), ArgView::StartAt(start)];
            &&& commands(running@) == seq![pause(false), replace]
            &&& commands(paused@) == seq![pause(true), replace]
            &&& at@ == from
            &&& commands(at_paused@) == seq![pause(true), from]
            &&& behind@ == seq![
                ArgView::Text("loadfile"@),
                ArgView::Text(path@),
                ArgView::Text("append"@),
            ]
        }),
{
    let replace = seq![
        ArgView::Text("loadfile"@),
        ArgView::Text(path@),
        ArgView::Text("replace"@),
    ];
    let from = replace + seq![ArgView::Int(-1), ArgView::StartAt(start)];
    assert(at@ =~= from);
    assert(crate::audio::mpv_protocol::load_from(path@, start) =~= from);
}

/// The words of the commands that steer playback.
pub proof fn law_steering_commands(
    index: usize,
    was_paused: bool,
    pause: MpvCommand,
    resume: MpvCommand,
    toggle: (MpvCommand, bool),
    stop: MpvCommand,
    remove: MpvCommand,
    next: MpvCommand,
)
    requires
        call_ensures(MpvController::pause, (), pause),
        call_ensures(MpvController::resume, (), resume),
        call_ensures(MpvController::toggle_pause, (was_paused,), toggle),
        call_ensures(MpvController::stop, (), stop),
        call_ensures(MpvController::playlist_remove, (index,), remove),
        call_ensures(MpvController::playlist_next, (), next),
    ensures
        pause@ == seq![
            ArgView::Text("set_property"@),
            ArgView::Text("pause"@),
            ArgView::Flag(true),
        ],
        resume@ == seq![
            ArgView::Text("set_property"@),
            ArgView::Text("pause"@),
            ArgView::Flag(false),
        ],
        was_paused ==> toggle.0@ == resume@ && !toggle.1,
        !was_paused ==> toggle.0@ == pause@ && toggle.1,
        stop@ == seq![ArgView::Text("stop"@)],
        remove@ == seq![ArgView::Text("playlist-remove"@), ArgView::Int(index as int)],
        next@ == seq![ArgView::Text("playlist-next"@), ArgView::Text("force"@)],
{
}

/// mpv is asked to quit only where it can be reached.
pub proof fn law_quit(mpv: MpvController, r: Option<MpvCommand>)
    requires
        call_ensures(MpvController::quit, (&mpv,), r),
    ensures
        r is Some <==> mpv@.connected,
        r matches Some(c) ==> c@ == seq![ArgView::Text("quit"@)],
{
}

/// The volume that mpv is told lies between none and full, and is the one asked
/// for where that lies there.
pub proof fn law_volume_command(volume: i32, told: int, r: MpvCommand)
    requires
        call_ensures(MpvController::set_volume, (volume,), r),
        told == if volume < 0 {
            0
        } else if volume > 100 {
            100
        } else {
            volume as int
        },
    ensures
        r@ == seq![
            ArgView::Text("set_property"@),
            ArgView::Text("volume"@),
            ArgView::Int(told),
        ],
{
}

/// A live change of mode or clipping reaches mpv in its own words and is kept
/// for the next start.
pub proof fn law_live_gain_settings(
    by_mode: &mut MpvController,
    by_clip: &mut MpvController,
    mode: ReplayGainMode,
    prevent: bool,
    mode_command: MpvCommand,
    clip_command: MpvCommand,
)
    requires
        call_ensures(MpvController::set_replaygain_mode, (by_mode, mode), mode_command),
        call_ensures(MpvController::set_replaygain_clip, (by_clip, prevent), clip_command),
    ensures
        final(by_mode)@.replaygain_mode == mode,
        final(by_mode)@.replaygain_preamp == old(by_mode)@.replaygain_preamp,
        final(by_mode)@.prevent_clipping == old(by_mode)@.prevent_clipping,
        final(by_mode)@.connected == old(by_mode)@.connected,
        mode_command@ == seq![
            ArgView::Text("set_property"@),
            ArgView::Text("replaygain"@),
            ArgView::Text(
                match mode {
                    ReplayGainMode::Off => "no"@,
                    ReplayGainMode::Track => "track"@,
                    ReplayGainMode::Album => "album"@,
                },
            ),
        ],
        final(by_clip)@.prevent_clipping == prevent,
        final(by_clip)@.replaygain_mode == old(by_clip)@.replaygain_mode,
        final(by_clip)@.replaygain_preamp == old(by_clip)@.replaygain_preamp,
        clip_command@ == seq![
            ArgView::Text("set_property"@),
            ArgView::Text("replaygain-clip"@),
            ArgView::Flag(!prevent),
        ],
{
}

/// A gain within fifteen decibels either way is taken as it is, a greater one
/// as the nearer end of that range; one that is no number, or infinite, is
/// refused and changes nothing. mpv is told what is kept.
pub proof fn law_live_gain(
    mpv: &mut MpvController,
    preamp: Binary64,
    r: Result<MpvCommand, ConfigError>,
)
    requires
        call_ensures(MpvController::set_replaygain_preamp, (mpv, preamp), r),
    ensures
        r is Ok <==> preamp.finite(),
        r is Err ==> final(mpv)@ == old(mpv)@,
        r matches Ok(c) ==> {
            let kept = final(mpv)@.replaygain_preamp;
            &&& c@ == seq![
                ArgView::Text("set_property"@),
                ArgView::Text("replaygain-preamp"@),
                ArgView::Double(kept),
            ]
            &&& preamp.below(-15) ==> kept.bits == 0xc02e_0000_0000_0000
            &&& preamp.above(15) ==> kept.bits == 0x402e_0000_0000_0000
            &&& !preamp.below(-15) && !preamp.above(15) ==> kept == preamp
            &&& final(mpv)@.replaygain_mode == old(mpv)@.replaygain_mode
            &&& final(mpv)@.prevent_clipping == old(mpv)@.prevent_clipping
            &&& final(mpv)@.connected == old(mpv)@.connected
        },
{
}

/// The settings for the next start are taken over without touching the
/// connection; a gain that is not finite leaves the last valid one.
pub proof fn law_gain_for_the_next_start(
    mpv: &mut MpvController,
    mode: ReplayGainMode,
    preamp: Binary64,
    clip: bool,
)
    requires
        call_ensures(MpvController::set_replaygain_startup, (mpv, mode, preamp, clip), ()),
    ensures
        final(mpv)@.replaygain_mode == mode,
        final(mpv)@.prevent_clipping == clip,
        !preamp.finite() ==> final(mpv)@.replaygain_preamp == old(mpv)@.replaygain_preamp,
        preamp.finite() && !preamp.below(-15) && !preamp.above(15) ==> final(
            mpv)@.replaygain_preamp == preamp,
        preamp.finite() && preamp.below(-15) ==> final(mpv)@.replaygain_preamp.bits
            == 0xc02e_0000_0000_0000,
        preamp.finite() && preamp.above(15) ==> final(mpv)@.replaygain_preamp.bits
            == 0x402e_0000_0000_0000,
        final(mpv)@.connected == old(mpv)@.connected,
        final(mpv)@.pending == old(mpv)@.pending,
        final(mpv)@.macos_audio_mode == old(mpv)@.macos_audio_mode,
{
}

// ---------------------------------------------------------------------------
// What mpv tells.
// ---------------------------------------------------------------------------

/// The insertion index of `loadfile` came with mpv 0.38; an mpv that does not
/// tell its version is taken to be recent.
pub proof fn law_loadfile_index(mpv: MpvController, r: bool)
    requires
        call_ensures(MpvController::supports_loadfile_index, (&mpv,), r),
    ensures
        mpv@.version is None ==> r,
        mpv@.version matches Some(v) ==> (!r <==> v.0 == 0 && v.1 < 38),
{
}

/// mpv's version is what the text of its answer says; anything else leaves it
/// unknown.
pub proof fn law_version_probe(
    mpv: &mut MpvController,
    answer: Result<Option<MpvValue>, AudioError>,
    text: &str,
    said: Option<(u16, u16)>,
)
    requires
        call_ensures(MpvController::version_probed, (mpv, answer), ()),
        call_ensures(parse_mpv_version, (text,), said),
    ensures
        answer is Err ==> final(mpv)@.version is None,
        answer matches Ok(data) ==> {
            &&& data is None ==> final(mpv)@.version is None
            &&& data is Some && data->0 !is Text ==> final(mpv)@.version is None
            &&& data is Some && data->0 is Text && data->0->Text_0@ == text@ ==> final(
                mpv)@.version == said
        },
        final(mpv)@.connected == old(mpv)@.connected,
        final(mpv)@.pending == old(mpv)@.pending,
        final(mpv)@.replaygain_preamp == old(mpv)@.replaygain_preamp,
{
}

/// An event is known by its name; the end of a file keeps its reason.
pub proof fn law_events_by_name(ev: MpvEvent, r: MpvEventKind)
    requires
        call_ensures(classify_event, (&ev,), r),
    ensures
        r is EndFile <==> ev.event@ == "end-file"@,
        r is EndFile && ev.reason is Some ==> r->reason@ == ev.reason->0@,
        r is EndFile && ev.reason is None ==> r->reason@ == "unknown"@,
        r is StartFile <==> ev.event@ == "start-file"@,
        r is FileLoaded <==> ev.event@ == "file-loaded"@,
        r matches MpvEventKind::Other(name) ==> name@ == ev.event@,
{
    reveal_strlit("end-file");
    reveal_strlit("start-file");
    reveal_strlit("file-loaded");
    assert("end-file"@.len() != "start-file"@.len());
    assert("end-file"@.len() != "file-loaded"@.len());
    assert("start-file"@.len() != "file-loaded"@.len());
}

/// A flag says what it says; without one mpv counts as idle and as not paused.
pub proof fn law_flags(data: Option<MpvValue>, paused: bool, idle: bool)
    requires
        call_ensures(MpvController::is_paused, (data,), paused),
        call_ensures(MpvController::is_idle, (data,), idle),
    ensures
        data matches Some(MpvValue::Flag(b)) ==> paused == b && idle == b,
        !(data is Some && data->0 is Flag) ==> !paused && idle,
{
}

/// A number is read as it is, one that is too large as the greatest; what is no
/// number counts as nothing loaded, no rate and the front of the track.
pub proof fn law_numbers(
    data: Option<MpvValue>,
    pos: Option<i64>,
    count: usize,
    rate: Option<u32>,
    time: Binary64,
    duration: Binary64,
)
    requires
        call_ensures(MpvController::get_playlist_pos, (data,), pos),
        call_ensures(MpvController::get_playlist_count, (data,), count),
        call_ensures(MpvController::get_sample_rate, (data,), rate),
        call_ensures(MpvController::get_time_pos, (data,), time),
        call_ensures(MpvController::get_duration, (data,), duration),
    ensures
        time == duration,
        !(data is Some && data->0 is Number) ==> pos is None && count == 0 && rate is None
            && time.bits == 0,
        data matches Some(MpvValue::Number { unsigned, signed, double }) ==> {
            &&& pos == signed
            &&& unsigned is None ==> count == 0 && rate is None
            &&& unsigned matches Some(n) ==> {
                &&& n <= usize::MAX ==> count == n
                &&& n > usize::MAX ==> count == usize::MAX
                &&& n <= u32::MAX ==> rate == Some(n as u32)
                &&& n > u32::MAX ==> rate == Some(u32::MAX)
            }
            &&& double matches Some(d) ==> time == d
            &&& double is None ==> time.bits == 0
        },
{
}

/// The sample format is mpv's own word, and its bit depth is read from it: the
/// widest of the depths that the word names, where `float` names 32.
pub proof fn law_sample_format(
    data: Option<MpvValue>,
    format: Option<String>,
    depth: Option<u32>,
    word: &str,
    word_depth: Option<u32>,
)
    requires
        call_ensures(MpvController::get_audio_format, (data,), format),
        call_ensures(MpvController::get_bit_depth, (&data,), depth),
        call_ensures(bit_depth, (word,), word_depth),
    ensures
        data matches Some(MpvValue::Text(s)) ==> text_of(format) == Some(s@),
        !(data is Some && data->0 is Text) ==> format is None && depth is None,
        data matches Some(MpvValue::Text(s)) ==> (s@ == word@ ==> depth == word_depth),
        word_depth == Some(32u32) <==> occurs(word@, "32"@) || occurs(word@, "float"@),
        word_depth == Some(24u32) <==> occurs(word@, "24"@) && word_depth != Some(32u32),
        word_depth == Some(16u32) <==> occurs(word@, "16"@) && word_depth != Some(32u32)
            && word_depth != Some(24u32),
        word_depth == Some(8u32) <==> occurs(word@, "8"@) && word_depth != Some(32u32)
            && word_depth != Some(24u32) && word_depth != Some(16u32),
        word_depth matches Some(n) ==> n == 32 || n == 24 || n == 16 || n == 8,
{
}

/// One channel is mono, two are stereo, and any other count is written out.
pub proof fn law_channels(data: Option<MpvValue>, r: Option<String>, count: u32, label: String)
    requires
        call_ensures(MpvController::get_channels, (data,), r),
        call_ensures(channels_text, (count,), label),
    ensures
        count == 1 ==> label@ == "Mono"@,
        count == 2 ==> label@ == "Stereo"@,
        count != 1 && count != 2 ==> label@ == decimal(count as nat) + "ch"@,
        r is Some <==> data is Some && data->0 is Number && data->0->unsigned is Some,
        r is Some && data->0->unsigned == Some(count as u64) ==> r->0@ == label@,
{
}

/// Each property is asked for by mpv's name of it.
pub proof fn law_queries(property: MpvProperty, r: MpvCommand)
    requires
        call_ensures(MpvProperty::query, (property,), r),
    ensures
        r@ == seq![
            ArgView::Text("get_property"@),
            ArgView::Text(
                match property {
                    MpvProperty::PlaylistPos => "playlist-pos"@,
                    MpvProperty::PlaylistCount => "playlist-count"@,
                    MpvProperty::Pause => "pause"@,
                    MpvProperty::TimePos => "time-pos"@,
                    MpvProperty::Duration => "duration"@,
                    MpvProperty::SampleRate => "audio-params/samplerate"@,
                    MpvProperty::Format => "audio-params/format"@,
                    MpvProperty::ChannelCount => "audio-params/channel-count"@,
                    MpvProperty::IdleActive => "idle-active"@,
                    MpvProperty::Version => "mpv-version"@,
                },
            ),
        ],
{
}

/// What we prevent mpv does not allow.
pub proof fn law_clipping(prevent: bool, allow: bool)
    requires
        call_ensures(mpv_allow_clip, (prevent,), allow),
    ensures
        allow != prevent,
{
}

// ---------------------------------------------------------------------------
// The `PipeWire` clock.
// ---------------------------------------------------------------------------

/// The controller keeps the rate that it found, is available only where
/// `pw-metadata` could be run, and has pinned nothing yet.
pub proof fn law_probe(probed: Option<&[u8]>, text: &str, found: u32, r: PipeWireController)
    requires
        call_ensures(PipeWireController::with_runner, (probed,), r),
        call_ensures(parse_force_rate_from_output, (text,), found),
    ensures
        r@.available <==> probed is Some,
        r@.original is Some <==> probed is Some,
        r@.current is None,
        probed matches Some(bytes) ==> (lossy_text(bytes@) == text@ ==> r@.original == Some(
            found,
        )),
{
}

/// Pinning a rate, releasing it and putting the first one back run the same
/// program with the same words, and only the rate differs: the one asked for,
/// zero, or the one that was found. Only the putting back happens without the
/// program being known to run.
pub proof fn law_clock_commands(
    pw: PipeWireController,
    rate: u32,
    set: Option<Vec<String>>,
    clear: Option<Vec<String>>,
    restore: Option<Vec<String>>,
    probe: Vec<String>,
    line: CommandLine,
)
    requires
        call_ensures(PipeWireController::set_rate, (&pw, rate), set),
        call_ensures(PipeWireController::clear_forced_rate, (&pw,), clear),
        call_ensures(PipeWireController::restore_original, (&pw,), restore),
        call_ensures(probe_arguments, (), probe),
        call_ensures(PwMetadataCommand::command, (&PwMetadataCommand, probe), line),
    ensures
        ({
            let words = seq!["-n"@, "settings"@, "0"@, "clock.force-rate"@];
            &&& texts(probe@) == words
            &&& line.program@ == "pw-metadata"@
            &&& texts(line.args@) == words
            &&& set is Some <==> pw@.available
            &&& clear is Some <==> pw@.available
            &&& restore is Some <==> pw@.original is Some
            &&& set is Some ==> texts(set->0@) == words.push(decimal(rate as nat))
            &&& clear is Some ==> texts(clear->0@) == words.push(decimal(0))
            &&& restore is Some ==> texts(restore->0@) == words.push(
                decimal(pw@.original->0 as nat),
            )
        }),
{
    assert(args_of(set) is Some <==> set is Some);
    assert(args_of(clear) is Some <==> clear is Some);
    assert(args_of(restore) is Some <==> restore is Some);
}

/// A rate counts as pinned once the run that pins it succeeded, and as released
/// once the run that releases it did; a run that failed changes nothing and is
/// told. The rate that was found is never touched.
pub proof fn law_clock_follows_the_run(
    by_set: &mut PipeWireController,
    by_clear: &mut PipeWireController,
    rate: u32,
    outcome: RunOutcome,
    set: Result<(), AudioError>,
    clear: Result<(), AudioError>,
)
    requires
        call_ensures(PipeWireController::finish_set_rate, (by_set, rate, outcome), set),
        call_ensures(PipeWireController::finish_clear_forced_rate, (by_clear, outcome), clear),
    ensures
        ({
            let ok = outcome is Exited && outcome->success;
            &&& set is Ok <==> ok
            &&& clear is Ok <==> ok
            &&& ok ==> final(by_set)@.current == Some(rate) && final(by_clear)@.current is None
            &&& !ok ==> final(by_set)@.current == old(by_set)@.current && final(by_clear)@.current
                == old(by_clear)@.current
            &&& final(by_set)@.original == old(by_set)@.original
            &&& final(by_clear)@.original == old(by_clear)@.original
            &&& final(by_set)@.available == old(by_set)@.available
            &&& final(by_clear)@.available == old(by_clear)@.available
            &&& outcome matches RunOutcome::Failed(e) ==> set == Err::<(), AudioError>(e)
            &&& outcome matches RunOutcome::Exited { success: false, stderr } ==> set is Err
                && set->Err_0 is PipeWire && set->Err_0->PipeWire_0@ == "pw-metadata failed: "@
                + lossy_text(stderr@)
        }),
{
}

/// A line gives no rate unless it names the setting and quotes a value; without
/// any line that does, the rate is zero.
pub proof fn law_what_gives_a_rate(line: Seq<char>, text: &str, r: u32)
    requires
        call_ensures(parse_force_rate_from_output, (text,), r),
    ensures
        !occurs(line, "clock.force-rate"@) ==> line_rate(line) is None,
        !occurs(line, "value:"@) ==> line_rate(line) is None,
        text@.len() == 0 ==> r == 0,
        text@ == line && !line.contains('\n') && line_rate(line) is None ==> r == 0,
        text@ == line && !line.contains('\n') && line_rate(line) is Some ==> r
            == line_rate(line)->0,
{
    if text@ == line && !line.contains('\n') {
        assert forall|k: int| 0 <= k < line.len() implies line[k] != '\n' by {
            assert(line.contains(line[k]));
        }
        crate::strings::lemma_line_len(line, line.len());
        assert(line.take(line.len() as int) =~= line);
    }
    if text@.len() == 0 {
        let none = text@;
        reveal_strlit("clock.force-rate");
        assert(none.take(0) =~= none);
        assert(!occurs(none, "clock.force-rate"@));
    }
}

/// What the controller says of itself.
pub proof fn law_clock_state(
    pw: PipeWireController,
    available: bool,
    current: Option<u32>,
    original: Option<u32>,
)
    requires
        call_ensures(PipeWireController::is_available, (&pw,), available),
        call_ensures(PipeWireController::get_current_rate, (&pw,), current),
        call_ensures(PipeWireController::get_original_rate, (&pw,), original),
    ensures
        available == pw@.available,
        current == pw@.current,
        original == pw@.original,
{
}

/// A gain is always one that mpv accepts.
pub proof fn law_gain(decibels: Binary64, clamped: Gain, read: Binary64)
    requires
        call_ensures(Gain::clamped, (decibels,), clamped),
        call_ensures(Gain::get, (clamped,), read),
    ensures
        read.finite(),
        !read.below(-15),
        !read.above(15),
        !decibels.below(-15) && !decibels.above(15) ==> read == decibels,
{
}

} // verus!

//! What the tasks around playback do, call by call: settling the rate,
//! downloads, the cache, the listener and the daemon's own lifetime.

use crate::audio::mpv::MpvController;
use crate::audio::mpv_protocol::{commands, ArgView, MpvCommand, MpvEventKind};
use crate::audio::pipewire::{args_of, PipeWireController};
use crate::binary64::Binary64;
use crate::config::settings::Config;
use crate::daemon::dispatch::{
    AfterLoad, CacheEvent, CachePopulation, CacheStep, Committed, DirectLoad, Dispatch,
    PlayRequest,
};
use crate::daemon::engine::{
    scrub_config_for_wire, server_login, ClientGuard, DaemonCore, PlayMode, ServerLogin,
};
use crate::daemon::guards::{CancelSlotCleaner, LoadingFlag, LoadingFlagOwner, PrebufferGate};
use crate::daemon::listener::{Heard, ListenerStep};
use crate::daemon::prebuffer::{PrebufferStep, Progress};
use crate::daemon::settle::{Reclock, Settle, SettleStep};
use crate::daemon::state::{AudioProps, Child, DaemonState, PlaybackState};
use crate::strings::decimal;
use vstd::prelude::*;

verus! {

// ---------------------------------------------------------------------------
// Settling the rate.
// ---------------------------------------------------------------------------

/// The words that pin the graph to a rate.
pub open spec fn pin_words(rate: nat) -> Seq<Seq<char>> {
    seq!["-n"@, "settings"@, "0"@, "clock.force-rate"@, decimal(rate)]
}

proof fn lemma_pin_words(rate: nat)
    ensures
        crate::audio::pipewire::force_args(rate) == pin_words(rate),
{
    assert(crate::audio::pipewire::force_args(rate) =~= pin_words(rate));
}

/// A track at another rate than the pinned one counts as a change of rate, and
/// so does any track while nothing is pinned; a track at the pinned rate does
/// not, and without a device that can be switched none does. The rate is
/// written to the device whether it changes or not. A superseded settle does
/// neither.
pub proof fn law_reclock(core: DaemonCore, settle: Settle, rate: u32, r: Option<Reclock>)
    requires
        call_ensures(DaemonCore::settle_reclock, (&core, settle, rate), r),
    ensures
        r is None <==> core.tasks.shutdown || core.tasks.loadfile_gen != settle.gen,
        r matches Some(c) ==> {
            &&& !core.pipewire@.available ==> !c.changed && c.args is None
            &&& core.pipewire@.available ==> args_of(c.args) == Some(pin_words(rate as nat))
            &&& core.pipewire@.available ==> match core.pipewire@.current {
                Some(pinned) => c.changed <==> pinned != rate,
                None => c.changed,
            }
        },
{
    lemma_pin_words(rate as nat);
}

/// Only a change of rate is waited for, and as long as the settings say. What
/// the decoder told is noted, and nothing else changes.
pub proof fn law_only_a_change_is_waited_for(
    core: &mut DaemonCore,
    props: AudioProps,
    changed: bool,
    r: Option<u64>,
)
    requires
        call_ensures(DaemonCore::settle_reclocked, (core, props, changed), r),
    ensures
        changed ==> r == Some(old(core).state.config.rate_switch_delay_ms as u64),
        !changed ==> r is None,
        final(core).state.now_playing.sample_rate == props.sample_rate,
        final(core).state.now_playing.bit_depth == props.bit_depth,
        final(core).state.now_playing.format == props.format,
        final(core).state.now_playing.channels == props.channels,
        final(core).state.now_playing.song == old(core).state.now_playing.song,
        final(core).state.now_playing.state == old(core).state.now_playing.state,
        final(core).state.now_playing.position == old(core).state.now_playing.position,
        final(core).state.now_playing.volume == old(core).state.now_playing.volume,
        final(core).state.queue == old(core).state.queue,
        final(core).state.config == old(core).state.config,
        final(core).tasks == old(core).tasks,
{
}

/// A switch between two rates is waited for: pinned at one rate, a track at
/// another is held for the whole delay of the settings.
pub proof fn law_switch_is_waited_for(
    core: &mut DaemonCore,
    settle: Settle,
    rate: u32,
    props: AudioProps,
    reclock: Option<Reclock>,
    wait: Option<u64>,
)
    requires
        call_ensures(DaemonCore::settle_reclock, (&*old(core), settle, rate), reclock),
        reclock is Some,
        call_ensures(DaemonCore::settle_reclocked, (core, props, reclock->0.changed), wait),
        old(core).pipewire@.available,
    ensures
        wait is Some <==> old(core).pipewire@.current != Some(rate),
        wait matches Some(ms) ==> ms == old(core).state.config.rate_switch_delay_ms,
{
}

/// A settle goes on only for the newest load and while the daemon stays. It
/// begins with the first question, puts no more than fifty, and lets the track
/// run, from its offset, once they are used up.
pub proof fn law_settle_asks_and_gives_up(
    core: DaemonCore,
    settle: Settle,
    look: u32,
    first: SettleStep,
    next: SettleStep,
    last: SettleStep,
    over: bool,
)
    requires
        call_ensures(DaemonCore::settle_superseded, (&core, settle.gen), over),
        call_ensures(DaemonCore::settle_rate_then_unpause, (&core, settle), first),
        call_ensures(DaemonCore::probe_audio_params, (&core, settle, look), next),
        call_ensures(DaemonCore::settle_over, (&core, settle), last),
    ensures
        over <==> core.tasks.shutdown || core.tasks.loadfile_gen != settle.gen,
        over ==> first == SettleStep::Stop && next == SettleStep::Stop && last == SettleStep::Stop,
        !over ==> first == (SettleStep::Probe { look: 0 }),
        !over && look < 50 ==> next == (SettleStep::Probe { look }),
        !over && look >= 50 ==> next == (SettleStep::Unpause { seek: settle.seek_after }),
        !over ==> last == (SettleStep::Unpause { seek: settle.seek_after }),
{
}

/// An answer with a rate leads to the re-clock for it; one without leads to the
/// next question after a pause of 30 milliseconds, and after the fiftieth the
/// track runs. A superseded settle neither re-clocks nor lets anything run.
pub proof fn law_settle_takes_the_answer(
    core: DaemonCore,
    settle: Settle,
    look: u32,
    props: AudioProps,
    r: SettleStep,
)
    requires
        call_ensures(DaemonCore::audio_params_probed, (&core, settle, look, props), r),
        look < 50,
    ensures
        ({
            let over = core.tasks.shutdown || core.tasks.loadfile_gen != settle.gen;
            &&& props.sample_rate is Some && !over ==> r == SettleStep::Reclock(props)
            &&& props.sample_rate is Some && over ==> r == SettleStep::Stop
            &&& props.sample_rate is None && look < 49 ==> r == (SettleStep::SleepThenProbe {
                ms: 30,
                look: (look + 1) as u32,
            })
            &&& props.sample_rate is None && look == 49 && !over ==> r == (SettleStep::Unpause {
                seek: settle.seek_after,
            })
            &&& props.sample_rate is None && look == 49 && over ==> r == SettleStep::Stop
        }),
{
}

/// A track is let run by unpausing it, and an offset is sought before that,
/// while nothing can be heard yet.
pub proof fn law_offset_is_sought_in_silence(seek: Option<Binary64>, r: Vec<MpvCommand>)
    requires
        call_ensures(DaemonCore::unpause_commands, (seek,), r),
    ensures
        ({
            let unpause = seq![
                ArgView::Text("set_property"@),
                ArgView::Text("pause"@),
                ArgView::Flag(false),
            ];
            let sent = commands(r@);
            match seek {
                None => sent == seq![unpause],
                Some(at) => sent == seq![
                    seq![
                        ArgView::Text("seek"@),
                        ArgView::Double(at),
                        ArgView::Text("absolute"@),
                    ],
                    unpause,
                ],
            }
        }),
{
}

/// Outside a settle a known rate is pinned, an unknown one is not, and leaving
/// playback gives the device free again; without `pw-metadata` nothing is run.
pub proof fn law_pin_and_release(
    core: DaemonCore,
    sample_rate: Option<u32>,
    pin: Option<Option<Vec<String>>>,
    release: Option<Vec<String>>,
)
    requires
        call_ensures(DaemonCore::fetch_audio_properties, (&core, sample_rate), pin),
        call_ensures(DaemonCore::release_pipewire_rate, (&core,), release),
    ensures
        pin is Some <==> sample_rate is Some,
        pin is Some && core.pipewire@.available ==> args_of(pin->0) == Some(
            pin_words(sample_rate->0 as nat),
        ),
        pin is Some && !core.pipewire@.available ==> pin->0 is None,
        core.pipewire@.available ==> args_of(release) == Some(pin_words(0)),
        !core.pipewire@.available ==> release is None,
{
    if sample_rate is Some {
        lemma_pin_words(sample_rate->0 as nat);
    }
    lemma_pin_words(0);
}

// ---------------------------------------------------------------------------
// Downloads.
// ---------------------------------------------------------------------------

/// A download goes step by step from the open file to the track that runs. It
/// is abandoned where it looks and finds that it is no longer the current one,
/// it ends its reading when the daemon shuts down, and whatever breaks it leads
/// to the fallback.
pub proof fn law_download_goes_step_by_step(
    core: DaemonCore,
    task: u64,
    progress: Progress,
    r: PrebufferStep,
)
    requires
        call_ensures(DaemonCore::prebuffer_next, (&core, task, progress), r),
    ensures
        ({
            let current = core.tasks.prebuffer_cancel == Some(task);
            let reading = progress == Progress::Opened || progress == Progress::ChunkWritten;
            &&& r == PrebufferStep::FallBack <==> progress == Progress::FetchFailed || progress
                == Progress::OpenFailed || progress == Progress::StreamTimedOut || progress
                == Progress::StreamFailed || progress == Progress::WriteFailed
            &&& r == PrebufferStep::Abandon <==> !current && (reading || progress
                == Progress::StreamEnded || progress == Progress::Loaded)
            &&& r == PrebufferStep::ReadChunk <==> reading && current && !core.tasks.shutdown
            &&& reading && current && core.tasks.shutdown ==> r == PrebufferStep::End
            &&& r == PrebufferStep::OpenFile <==> progress == Progress::Fetched
            &&& r == PrebufferStep::WriteChunk <==> progress == Progress::ChunkRead
            &&& r == PrebufferStep::LoadPaused <==> progress == Progress::StreamEnded && current
            &&& r == PrebufferStep::Settle <==> progress == Progress::Loaded && current
            &&& r == PrebufferStep::Preload <==> progress == Progress::Settled
            &&& progress == Progress::LoadFailed || progress == Progress::Preloaded ==> r
                == PrebufferStep::End
        }),
{
}

/// A fallback unpauses and loads the stream in place of all else, but only for
/// the download that is still current and while the daemon stays.
pub proof fn law_fallback(core: DaemonCore, task: u64, url: &str, r: Option<Vec<MpvCommand>>)
    requires
        call_ensures(DaemonCore::fallback_direct_if_current, (&core, task, url), r),
    ensures
        r is Some <==> core.tasks.prebuffer_cancel == Some(task) && !core.tasks.shutdown,
        r matches Some(c) ==> commands(c@) == seq![
            seq![
                ArgView::Text("set_property"@),
                ArgView::Text("pause"@),
                ArgView::Flag(false),
            ],
            seq![ArgView::Text("loadfile"@), ArgView::Text(url@), ArgView::Text("replace"@)],
        ],
{
}

/// A load that mpv took on behalf of a download counts as a new load, which
/// makes every older settle void; one that it refused counts as none.
pub proof fn law_taken_load_counts(core: &mut DaemonCore, taken: bool, r: Option<u64>)
    requires
        call_ensures(DaemonCore::prebuffer_loaded, (core, taken), r),
    ensures
        r is Some <==> taken,
        taken ==> r == Some(final(core).tasks.loadfile_gen),
        final(core).tasks.loadfile_gen != old(core).tasks.loadfile_gen <==> taken,
        final(core).state == old(core).state,
        final(core).tasks.play_instance == old(core).tasks.play_instance,
        final(core).tasks.prebuffer_cancel == old(core).tasks.prebuffer_cancel,
{
}

/// The end of a download clears its own loading flag and its own slot. One that
/// was abandoned touches neither, and none ever touches those of another.
pub proof fn law_download_ends(core: &mut DaemonCore, task: u64, abandoned: bool)
    requires
        call_ensures(DaemonCore::prebuffer_ended, (core, task, abandoned), ()),
    ensures
        abandoned ==> *final(core) == *old(core),
        !abandoned && old(core).tasks.prebuffer_cancel == Some(task) ==> final(
            core).tasks.prebuffer_cancel is None,
        old(core).tasks.prebuffer_cancel != Some(task) ==> final(core).tasks.prebuffer_cancel
            == old(core).tasks.prebuffer_cancel,
        !abandoned ==> (final(core).tasks.prebuffer_loading matches Some(flag) ==> (flag.task
            == task ==> !flag.loading)),
        old(core).tasks.prebuffer_loading matches Some(flag) && flag.task != task ==> final(
            core).tasks.prebuffer_loading == old(core).tasks.prebuffer_loading,
        old(core).tasks.prebuffer_loading is None <==> final(core).tasks.prebuffer_loading is None,
        final(core).state == old(core).state,
        final(core).tasks.loadfile_gen == old(core).tasks.loadfile_gen,
{
}

/// A download that never came to run clears its loading flag and leaves the
/// slot; the flag of another stays.
pub proof fn law_download_that_never_ran(core: &mut DaemonCore, task: u64)
    requires
        call_ensures(DaemonCore::prebuffer_never_ran, (core, task), ()),
    ensures
        final(core).tasks.prebuffer_loading matches Some(flag) ==> (flag.task == task
            ==> !flag.loading),
        old(core).tasks.prebuffer_loading matches Some(flag) && flag.task != task ==> final(
            core).tasks.prebuffer_loading == old(core).tasks.prebuffer_loading,
        old(core).tasks.prebuffer_loading is None <==> final(core).tasks.prebuffer_loading is None,
        final(core).tasks.prebuffer_cancel == old(core).tasks.prebuffer_cancel,
        final(core).state == old(core).state,
{
}

/// A fresh file is always kept, with the one that came before it; every older
/// one is given up, and none twice.
pub proof fn law_two_files_are_kept(core: &mut DaemonCore, file: u64, r: Vec<u64>)
    requires
        call_ensures(DaemonCore::keep_prebuffer_file, (core, file), r),
    ensures
        ({
            let before = old(core).tasks.prebuffer_files@;
            let after = final(core).tasks.prebuffer_files@;
            &&& r@ + after == before.push(file)
            &&& after.last() == file
            &&& before.len() == 0 ==> after.len() == 1
            &&& before.len() > 0 ==> after.len() == 2 && after[0] == before.last()
            &&& final(core).tasks.prebuffer_cancel == old(core).tasks.prebuffer_cancel
            &&& final(core).state == old(core).state
        }),
{
    crate::daemon::prebuffer::law_newest_files_are_kept(old(core).tasks.prebuffer_files@, file);
}

/// The guards: what a dropped guard does to the flag or the slot depends only
/// on whether it was disarmed and on whose they are.
pub proof fn law_dropped_guards(
    task: u64,
    flag: Option<LoadingFlag>,
    slot: Option<u64>,
    owner: LoadingFlagOwner,
    gate: PrebufferGate,
    cleaner: CancelSlotCleaner,
    by_owner: Option<LoadingFlag>,
    by_gate: Option<LoadingFlag>,
    by_cleaner: Option<u64>,
)
    requires
        call_ensures(LoadingFlagOwner::new, (task,), owner),
        call_ensures(PrebufferGate::new, (task,), gate),
        call_ensures(CancelSlotCleaner::new, (task,), cleaner),
        call_ensures(LoadingFlagOwner::dropped, (owner, flag), by_owner),
        call_ensures(PrebufferGate::dropped, (gate, flag), by_gate),
        call_ensures(CancelSlotCleaner::dropped, (cleaner, slot), by_cleaner),
    ensures
        by_owner == by_gate,
        flag is None ==> by_gate is None,
        flag matches Some(f) ==> (by_gate matches Some(g) && g.task == f.task && (f.task == task
            ==> !g.loading) && (f.task != task ==> g.loading == f.loading)),
        by_cleaner == if slot == Some(task) {
            None
        } else {
            slot
        },
{
}

/// A disarmed guard leaves flag and slot as they are.
pub proof fn law_disarmed_guards(
    owner: &mut LoadingFlagOwner,
    gate: &mut PrebufferGate,
    cleaner: &mut CancelSlotCleaner,
    flag: Option<LoadingFlag>,
    slot: Option<u64>,
    by_owner: Option<LoadingFlag>,
    by_gate: Option<LoadingFlag>,
    by_cleaner: Option<u64>,
)
    requires
        call_ensures(LoadingFlagOwner::disarm, (owner,), ()),
        call_ensures(PrebufferGate::disarm, (gate,), ()),
        call_ensures(CancelSlotCleaner::disarm, (cleaner,), ()),
        call_ensures(LoadingFlagOwner::dropped, (*final(owner), flag), by_owner),
        call_ensures(PrebufferGate::dropped, (*final(gate), flag), by_gate),
        call_ensures(CancelSlotCleaner::dropped, (*final(cleaner), slot), by_cleaner),
    ensures
        by_owner == flag,
        by_gate == flag,
        by_cleaner == slot,
{
}

// ---------------------------------------------------------------------------
// Committing and dispatching.
// ---------------------------------------------------------------------------

/// What is asked before a position is played: its own song, and a cached copy
/// only where the cache is on; nothing without a server or without a song.
pub proof fn law_play_request(core: DaemonCore, pos: usize, r: Option<PlayRequest>)
    requires
        call_ensures(DaemonCore::play_request, (&core, pos), r),
    ensures
        r is Some <==> core.subsonic is Some && pos < core.state.queue@.len(),
        r matches Some(q) ==> q.song_id@ == core.state.queue@[pos as int].id@ && q.want_cached
            == core.state.config.offline_cache_enabled,
{
}

/// A commit hands out the song at the position and where to load it from, the
/// cached copy before the stream; a song without a URL is refused with an
/// error, and a position without a song in silence.
pub proof fn law_commit(
    core: &mut DaemonCore,
    pos: usize,
    new_instance: bool,
    stream_url: Result<String, String>,
    cached: Option<String>,
    r: Committed,
)
    requires
        call_ensures(
            DaemonCore::commit_play_state_in_lock,
            (core, pos, new_instance, stream_url, cached),
            r,
        ),
    ensures
        r is NoSong <==> pos >= old(core).state.queue@.len(),
        r is Ready <==> pos < old(core).state.queue@.len() && stream_url is Ok,
        r !is Ready ==> *final(core) == *old(core),
        r matches Committed::NoUrl(n) ==> n.is_error && n.message@ == "Failed to get stream URL: "@
            + stream_url->Err_0@,
        r matches Committed::Ready { song, url } ==> {
            &&& song == old(core).state.queue@[pos as int]
            &&& old(core).state.config.offline_cache_enabled && cached is Some ==> url@
                == cached->0@
            &&& !(old(core).state.config.offline_cache_enabled && cached is Some) ==> url@
                == stream_url->Ok_0@
            &&& final(core).state.queue_position == Some(pos)
            &&& final(core).state.now_playing.song == Some(song)
            &&& final(core).state.now_playing.state == PlaybackState::Playing
            &&& final(core).state.now_playing.position.bits == 0
            &&& final(core).state.queue == old(core).state.queue
            &&& final(core).tasks.loadfile_gen != old(core).tasks.loadfile_gen
            &&& final(core).tasks.play_instance != old(core).tasks.play_instance <==> new_instance
            &&& final(core).tasks.prebuffer_cancel == old(core).tasks.prebuffer_cancel
        },
{
}

/// A direct load is always paused, so the rate can settle before anything is
/// heard, and takes the place of what mpv holds; an offset goes along with it.
pub proof fn law_direct_load_is_paused(load: DirectLoad, r: Vec<MpvCommand>)
    requires
        call_ensures(DirectLoad::load_commands, (&load,), r),
    ensures
        ({
            let pause = seq![
                ArgView::Text("set_property"@),
                ArgView::Text("pause"@),
                ArgView::Flag(true),
            ];
            let plain = seq![
                ArgView::Text("loadfile"@),
                ArgView::Text(load.url@),
                ArgView::Text("replace"@),
            ];
            &&& load.start is None ==> commands(r@) == seq![pause, plain]
            &&& load.start matches Some(at) ==> commands(r@) == seq![
                pause,
                seq![
                    ArgView::Text("loadfile"@),
                    ArgView::Text(load.url@),
                    ArgView::Text("replace"@),
                    ArgView::Int(-1),
                    ArgView::StartAt(at),
                ],
            ]
        }),
{
}

/// A fresh start streams at once or downloads first, as the settings say.
pub proof fn law_start_mode(core: DaemonCore, r: PlayMode)
    requires
        call_ensures(DaemonCore::preferred_start_mode, (&core,), r),
    ensures
        r == PlayMode::Direct <==> core.state.config.stream_on_start,
        r == PlayMode::Buffered <==> !core.state.config.stream_on_start,
{
}

/// After a direct load that mpv took a settle follows, for a new load and with
/// the offset that is still to be sought; one that mpv refused is told as an
/// error and changes nothing.
pub proof fn law_after_direct_load(
    core: &mut DaemonCore,
    seek_after: Option<Binary64>,
    failure: Option<String>,
    r: AfterLoad,
)
    requires
        call_ensures(DaemonCore::direct_loaded, (core, seek_after, failure), r),
    ensures
        r is Failed <==> failure is Some,
        r matches AfterLoad::Failed(n) ==> n.is_error && n.message@ == "MPV error: "@
            + failure->0@ && *final(core) == *old(core),
        r matches AfterLoad::Settle { gen, seek_after: at } ==> gen
            == final(core).tasks.loadfile_gen && gen != old(core).tasks.loadfile_gen && at
            == seek_after && final(core).state == old(core).state,
{
}

/// Handing a URL to mpv: see how a direct one leaves no download and a buffered
/// one becomes the only one.
pub proof fn law_dispatch(
    core: &mut DaemonCore,
    url: String,
    pos: usize,
    mode: PlayMode,
    start_at: Binary64,
    r: Dispatch,
)
    requires
        call_ensures(DaemonCore::dispatch_play, (core, url, pos, mode, start_at), r),
    ensures
        r is Direct <==> mode == PlayMode::Direct || (url@.len() > 0 && url@[0] == '/'),
        r is Direct ==> final(core).tasks.prebuffer_cancel is None && final(
            core).tasks.prebuffer_loading is None,
        r matches Dispatch::Direct(d) ==> d.url@ == url@ && d.pos == pos,
        r matches Dispatch::Buffered(b) ==> b.url@ == url@ && b.pos == pos && final(
            core).tasks.prebuffer_cancel == Some(b.task) && b.task == old(core).tasks.next_task
            && final(core).tasks.next_task != b.task && final(core).tasks.prebuffer_loading == Some(
            LoadingFlag { task: b.task, loading: true },
        ),
        final(core).state == old(core).state,
        final(core).tasks.loadfile_gen == old(core).tasks.loadfile_gen,
        final(core).tasks.play_instance == old(core).tasks.play_instance,
{
}

/// Before a download mpv falls silent: it is stopped where it runs and says
/// that it is busy, and unpaused where it says that it is paused.
pub proof fn law_silence_before_a_download(
    paused: Option<bool>,
    running: bool,
    idle: Option<bool>,
    unpause: bool,
    stop: bool,
)
    requires
        call_ensures(DaemonCore::unpause_before_buffering, (paused,), unpause),
        call_ensures(DaemonCore::stop_before_buffering, (running, idle), stop),
    ensures
        unpause <==> paused is Some && paused->0,
        stop <==> running && idle is Some && !idle->0,
{
}

/// Cancelling leaves no download current and changes nothing that is played.
pub proof fn law_cancel(core: &mut DaemonCore)
    requires
        call_ensures(DaemonCore::cancel_prebuffer, (core,), ()),
    ensures
        final(core).tasks.prebuffer_cancel is None,
        final(core).tasks.prebuffer_loading is None,
        final(core).state == old(core).state,
        final(core).tasks.loadfile_gen == old(core).tasks.loadfile_gen,
        final(core).tasks.play_instance == old(core).tasks.play_instance,
        final(core).tasks.next_task == old(core).tasks.next_task,
{
}

// ---------------------------------------------------------------------------
// The offline cache.
// ---------------------------------------------------------------------------

/// A streamed track is stored where the cache is on, under its own id and from
/// the address that it was streamed from; a file on disk never is.
pub proof fn law_what_is_cached(
    core: DaemonCore,
    pos: usize,
    url: &str,
    r: Option<CachePopulation>,
)
    requires
        call_ensures(DaemonCore::spawn_cache_population, (&core, pos, url), r),
    ensures
        r is Some <==> core.offline_cache_enabled && pos < core.state.queue@.len() && !(url@.len()
            > 0 && url@[0] == '/'),
        r matches Some(p) ==> p.song_id@ == core.state.queue@[pos as int].id@ && p.url@ == url@,
{
}

/// The cache holds as many mebibytes as set, never less than one and never
/// more than a hundred gibibytes.
pub proof fn law_cache_capacity(core: DaemonCore, r: u64)
    requires
        call_ensures(DaemonCore::cache_capacity, (&core,), r),
    ensures
        1 <= core.offline_cache_max_mb <= 102_400 ==> r == core.offline_cache_max_mb * 1_048_576,
        core.offline_cache_max_mb == 0 ==> r == 1_048_576,
        core.offline_cache_max_mb > 102_400 ==> r == 102_400 * 1_048_576,
{
}

/// Only a file that was downloaded in full and has its final name is indexed,
/// with its size; what fails on the way is deleted, and without a place nothing
/// is fetched at all.
pub proof fn law_only_complete_files_are_indexed(core: DaemonCore, event: CacheEvent, r: CacheStep)
    requires
        call_ensures(DaemonCore::populate_cache, (&core, event), r),
    ensures
        r is Commit <==> event is Renamed,
        r matches CacheStep::Commit { size, .. } ==> event == CacheEvent::Renamed(size),
        r matches CacheStep::Commit { capacity, .. } ==> (1 <= core.offline_cache_max_mb <= 102_400
            ==> capacity == core.offline_cache_max_mb * 1_048_576),
        r is Abandon <==> event is DownloadFailed || event is RenameFailed,
        r is Rename <==> event is Downloaded,
        r is Download <==> event == CacheEvent::Reserved(true),
        r is Leave <==> event == CacheEvent::Reserved(false),
{
}

// ---------------------------------------------------------------------------
// Watching mpv.
// ---------------------------------------------------------------------------

/// Only the natural end of a file leads on; a file that was stopped or replaced
/// does not, and no other event does. Lost events are made good by asking mpv,
/// and a closed stream or a shutdown ends the listening.
pub proof fn law_only_a_natural_end_leads_on(core: DaemonCore, heard: Heard, r: ListenerStep)
    requires
        call_ensures(DaemonCore::mpv_event, (&core, &heard), r),
    ensures
        r == ListenerStep::AskCount ==> {
            &&& heard is Event
            &&& heard->Event_0 is EndFile
            &&& heard->Event_0->reason@ == "eof"@
            &&& !core.tasks.shutdown
        },
        heard matches Heard::Event(kind) ==> {
            let natural = kind matches MpvEventKind::EndFile { reason } && reason@ == "eof"@;
            &&& !natural ==> r == ListenerStep::Listen
            &&& natural && !core.tasks.shutdown ==> r == ListenerStep::AskCount
            &&& natural && core.tasks.shutdown ==> r == ListenerStep::Leave
        },
        heard is Lagged ==> r == ListenerStep::AskIdle,
        heard is Closed ==> r == ListenerStep::Leave,
{
}

/// After the end of a track playback is led on unless mpv holds a second entry
/// and goes on by itself; after lost events only if mpv says that it is idle.
pub proof fn law_who_leads_on(
    core: DaemonCore,
    idle: Option<bool>,
    count: Option<usize>,
    look: u32,
    after_lag: bool,
    after_end: bool,
    listens: bool,
    probes: bool,
    missing: bool,
)
    requires
        call_ensures(DaemonCore::advance_after_lag, (idle,), after_lag),
        call_ensures(DaemonCore::advance_after_end, (count,), after_end),
        call_ensures(DaemonCore::listener_goes_on, (&core,), listens),
        call_ensures(DaemonCore::fast_probe_goes_on, (&core, look), probes),
        call_ensures(DaemonCore::rate_still_missing, (&core,), missing),
    ensures
        after_lag <==> idle is Some && idle->0,
        after_end <==> count is None || count->0 <= 1,
        listens <==> !core.tasks.shutdown,
        probes <==> look < 80 && !core.tasks.shutdown,
        missing <==> core.state.now_playing.sample_rate is None,
{
}

// ---------------------------------------------------------------------------
// The daemon's lifetime and what clients see.
// ---------------------------------------------------------------------------

/// The daemon is of no use once no client is connected and nothing is left to
/// go on with: it is stopped, or only shows a restored track that nobody ever
/// played. Music that plays, or was paused after it played, keeps it.
pub proof fn law_idle_for_exit(core: DaemonCore, r: bool)
    requires
        call_ensures(DaemonCore::is_idle_for_exit, (&core,), r),
    ensures
        core.tasks.active_clients > 0 ==> !r,
        core.state.now_playing.state == PlaybackState::Playing ==> !r,
        core.tasks.active_clients == 0 && core.state.now_playing.state == PlaybackState::Stopped
            ==> r,
        core.tasks.active_clients == 0 && core.state.now_playing.state == PlaybackState::Paused
            ==> (r <==> !core.tasks.played_this_session),
{
}

/// Two idle ticks in a row shut the daemon down, one does not, and any use in
/// between starts the count anew.
pub proof fn law_idle_ticks(core: &mut DaemonCore, ticks: u32, idle: bool, r: Option<u32>)
    requires
        call_ensures(DaemonCore::is_idle_for_exit, (&*old(core),), idle),
        call_ensures(DaemonCore::idle_tick, (core, ticks), r),
        ticks < 2,
    ensures
        old(core).tasks.shutdown ==> r is None,
        !old(core).tasks.shutdown && !idle ==> r == Some(0u32),
        !old(core).tasks.shutdown && idle && ticks == 0 ==> r == Some(1u32),
        !old(core).tasks.shutdown && idle && ticks == 1 ==> r is None,
        r is None ==> final(core).tasks.shutdown,
        r is Some ==> *final(core) == *old(core),
        final(core).state == old(core).state,
{
}

/// A client counts as long as it is connected.
pub proof fn law_clients_are_counted(core: &mut DaemonCore, guard: ClientGuard)
    requires
        call_ensures(DaemonCore::client_guard, (core,), guard),
    ensures
        old(core).tasks.active_clients < usize::MAX ==> final(core).tasks.active_clients
            == old(core).tasks.active_clients + 1,
        final(core).state == old(core).state,
        final(core).tasks.shutdown == old(core).tasks.shutdown,
{
}

/// A client that has gone does not count any more.
pub proof fn law_gone_clients_do_not_count(core: &mut DaemonCore, guard: ClientGuard)
    requires
        call_ensures(DaemonCore::client_gone, (core, guard), ()),
    ensures
        old(core).tasks.active_clients > 0 ==> final(core).tasks.active_clients
            == old(core).tasks.active_clients - 1,
        final(core).state == old(core).state,
        final(core).tasks.shutdown == old(core).tasks.shutdown,
{
}

/// A shutdown is noted and nothing else changes.
pub proof fn law_shutdown(core: &mut DaemonCore)
    requires
        call_ensures(DaemonCore::request_shutdown, (core,), ()),
    ensures
        final(core).tasks.shutdown,
        final(core).state == old(core).state,
        final(core).tasks.active_clients == old(core).tasks.active_clients,
        final(core).tasks.loadfile_gen == old(core).tasks.loadfile_gen,
{
}

/// A load and a playback instance each get a number of their own: the next one,
/// until the numbers have gone all the way round. Neither counts the other.
pub proof fn law_loads_and_instances_are_numbered(
    core: &mut DaemonCore,
    other: &mut DaemonCore,
    gen: u64,
    instance: u64,
)
    requires
        call_ensures(DaemonCore::stamp_loadfile, (core,), gen),
        call_ensures(DaemonCore::mark_play_instance, (other,), instance),
    ensures
        gen == final(core).tasks.loadfile_gen,
        old(core).tasks.loadfile_gen < u64::MAX ==> gen == old(core).tasks.loadfile_gen + 1,
        old(core).tasks.loadfile_gen == u64::MAX ==> gen == 0,
        final(core).tasks.play_instance == old(core).tasks.play_instance,
        final(core).state == old(core).state,
        instance == final(other).tasks.play_instance,
        old(other).tasks.play_instance < u64::MAX ==> instance == old(other).tasks.play_instance
            + 1,
        old(other).tasks.play_instance == u64::MAX ==> instance == 0,
        final(other).tasks.played_this_session,
        final(other).tasks.loadfile_gen == old(other).tasks.loadfile_gen,
        final(other).state == old(other).state,
{
}

/// A refresh of the library and a change of the server settings are numbered
/// the same way, and a snapshot of the settings' number tells whether they
/// changed.
pub proof fn law_refreshes_are_numbered(
    core: &mut DaemonCore,
    version: u64,
    snapshot: u64,
    changed: bool,
)
    requires
        call_ensures(DaemonCore::bump_library_version, (core,), version),
        call_ensures(DaemonCore::config_gen_changed, (&*final(core), snapshot), changed),
    ensures
        version == final(core).tasks.library_version,
        version != old(core).tasks.library_version,
        old(core).tasks.library_version < u64::MAX ==> version == old(core).tasks.library_version
            + 1,
        changed <==> old(core).tasks.config_gen != snapshot,
        final(core).state == old(core).state,
{
}

/// Every setting of `r` but those about the password is that of `cfg`, and `r`
/// holds no credential and names no source of one.
pub open spec fn shown_to_clients(cfg: Config, r: Config) -> bool {
    &&& r.password@.len() == 0
    &&& r.password_file is None
    &&& r.password_eval is None
    &&& !r.password_keyring
    &&& !r.password_from_env
    &&& r.base_url@ == cfg.base_url@
    &&& r.username@ == cfg.username@
    &&& r.theme@ == cfg.theme@
    &&& r.cava == cfg.cava
    &&& r.cava_size == cfg.cava_size
    &&& r.daemon == cfg.daemon
    &&& r.auto_continue == cfg.auto_continue
    &&& r.stream_on_start == cfg.stream_on_start
    &&& r.search_debounce_ms == cfg.search_debounce_ms
    &&& r.search_artist_limit == cfg.search_artist_limit
    &&& r.search_album_limit == cfg.search_album_limit
    &&& r.search_song_limit == cfg.search_song_limit
    &&& r.resume_on_start == cfg.resume_on_start
    &&& r.autoplay_on_start == cfg.autoplay_on_start
    &&& r.offline_cache_enabled == cfg.offline_cache_enabled
    &&& r.offline_cache_max_mb == cfg.offline_cache_max_mb
    &&& r.repeat_mode == cfg.repeat_mode
    &&& r.cover_art == cfg.cover_art
    &&& r.cover_art_size == cfg.cover_art_size
    &&& r.scrobble == cfg.scrobble
    &&& r.notifications == cfg.notifications
    &&& r.rate_switch_delay_ms == cfg.rate_switch_delay_ms
    &&& r.macos_audio_mode == cfg.macos_audio_mode
    &&& r.music_folder_id == cfg.music_folder_id
    &&& r.music_folder_chosen == cfg.music_folder_chosen
    &&& r.replay_gain_mode == cfg.replay_gain_mode
    &&& r.replay_gain_preamp == cfg.replay_gain_preamp
    &&& r.replay_gain_clip == cfg.replay_gain_clip
    &&& r.playback_filters@ == cfg.playback_filters@
    &&& r.keybindings@ == cfg.keybindings@
}

/// A client sees the queue, the position in it, the track and every setting,
/// but no credential and no source of one.
pub proof fn law_clients_see_all_but_credentials(
    core: DaemonCore,
    snapshot: DaemonState,
    wire: Config,
    queue: (Vec<Child>, Option<usize>),
)
    requires
        call_ensures(DaemonCore::snapshot, (&core,), snapshot),
        call_ensures(DaemonCore::config_for_wire, (&core,), wire),
        call_ensures(DaemonCore::queue_event, (&core,), queue),
    ensures
        snapshot.queue@ == core.state.queue@,
        snapshot.queue_position == core.state.queue_position,
        snapshot.now_playing == core.state.now_playing,
        shown_to_clients(core.state.config, snapshot.config),
        shown_to_clients(core.state.config, wire),
        snapshot.mpv_version == core.mpv@.version,
        queue.0@ == core.state.queue@,
        queue.1 == core.state.queue_position,
{
}

/// Scrubbing takes every credential out of the settings and leaves the rest.
pub proof fn law_scrubbing(cfg: &mut Config)
    requires
        call_ensures(scrub_config_for_wire, (cfg,), ()),
    ensures
        shown_to_clients(*old(cfg), *final(cfg)),
{
}

/// The daemon logs in with the address, the name and the password of the
/// settings, and only where none of them is empty.
pub proof fn law_login(config: Config, r: Option<ServerLogin>)
    requires
        call_ensures(server_login, (&config,), r),
    ensures
        r is Some <==> config.base_url@.len() > 0 && config.username@.len() > 0
            && config.password@.len() > 0,
        r matches Some(l) ==> l.base_url@ == config.base_url@ && l.username@ == config.username@
            && l.password@ == config.password@ && l.music_folder == config.music_folder_id,
{
}

/// A new daemon carries the restored state and starts mpv with the settings; it
/// has no client, no task and nothing played, and it logs in only where a
/// client for the server could be made.
pub proof fn law_new_daemon(
    state: DaemonState,
    config: Config,
    mpv: MpvController,
    pipewire: PipeWireController,
    logged_in: bool,
    on_macos: bool,
    r: DaemonCore,
)
    requires
        call_ensures(
            DaemonCore::new_with_mpv_and_pipewire,
            (state, &config, mpv, pipewire, logged_in, on_macos),
            r,
        ),
    ensures
        r.state == state,
        r.pipewire == pipewire,
        r.mpv@.socket_path == mpv@.socket_path,
        r.mpv@.connected == mpv@.connected,
        r.mpv@.replaygain_mode == config.replay_gain_mode,
        r.mpv@.prevent_clipping == config.replay_gain_clip,
        on_macos ==> r.mpv@.macos_audio_mode == config.macos_audio_mode,
        !on_macos ==> r.mpv@.macos_audio_mode == mpv@.macos_audio_mode,
        config.replay_gain_preamp.finite() && !config.replay_gain_preamp.below(-15)
            && !config.replay_gain_preamp.above(15) ==> r.mpv@.replaygain_preamp
            == config.replay_gain_preamp,
        !config.replay_gain_preamp.finite() ==> r.mpv@.replaygain_preamp
            == mpv@.replaygain_preamp,
        r.subsonic is Some <==> logged_in && config.base_url@.len() > 0 && config.username@.len()
            > 0 && config.password@.len() > 0,
        r.offline_cache_enabled == config.offline_cache_enabled,
        r.offline_cache_max_mb == config.offline_cache_max_mb,
        r.tasks.prebuffer_cancel is None,
        r.tasks.active_clients == 0,
        !r.tasks.played_this_session,
        !r.tasks.advance_in_flight,
        !r.tasks.shutdown,
{
}

/// Songs put behind the queue keep their order and come after all that was
/// there; the position of the first of them is handed out, and nothing else
/// changes.
pub proof fn law_queue_grows(core: &mut DaemonCore, songs: Vec<Child>, r: Option<usize>)
    requires
        call_ensures(DaemonCore::extend_queue, (core, songs), r),
    ensures
        r is Some <==> songs@.len() > 0,
        r matches Some(start) ==> start == old(core).state.queue@.len(),
        final(core).state.queue@.len() == old(core).state.queue@.len() + songs@.len(),
        forall|i: int|
            0 <= i < old(core).state.queue@.len() ==> #[trigger] final(core).state.queue@[i]
                == old(core).state.queue@[i],
        forall|i: int|
            0 <= i < songs@.len() ==> final(core).state.queue@[old(core).state.queue@.len() + i]
                == #[trigger] songs@[i],
        final(core).state.queue_position == old(core).state.queue_position,
        final(core).state.now_playing == old(core).state.now_playing,
        final(core).tasks == old(core).tasks,
{
}

} // verus!

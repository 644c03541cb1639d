//! Decisions of the playback engine's audio thread.
//!
//! The audio thread drains playback commands, runs the playback manager,
//! forwards the manager's events to the application and loads the next
//! track in the background. The waiting, locking and channel work is done
//! by the caller; each decision it takes is a function here, from what the
//! caller observed to what it does next.

use vstd::prelude::*;

use crate::text::str_eq;

verus! {

/// Playback states reported to the application.
#[derive(Debug, Clone, Copy, PartialEq, Eq, Structural)]
pub enum EngineState {
    /// Nothing is playing
    Stopped,
    /// Audio is playing
    Playing,
    /// Playback is paused
    Paused,
}

/// States the playback manager reports in its state events.
#[derive(Debug, Clone, Copy, PartialEq, Eq, Structural)]
pub enum ManagerState {
    /// Stopped
    Stopped,
    /// Playing
    Playing,
    /// Paused
    Paused,
    /// Crossfading between two tracks
    Crossfading,
}

/// Events the playback manager emits.
#[derive(Debug, Clone)]
pub enum ManagerEvent {
    /// The manager's state changed
    StateChanged(ManagerState),
    /// A new track became current
    TrackChanged {
        /// Id of the new track
        track_id: String,
    },
    /// A crossfade started
    CrossfadeStarted {
        /// Id of the outgoing track
        from_track_id: String,
        /// Id of the incoming track
        to_track_id: String,
        /// Crossfade length in milliseconds
        duration_ms: u32,
    },
    /// A crossfade progressed (the progress value is carried by the caller)
    CrossfadeProgress,
    /// A crossfade completed
    CrossfadeCompleted,
    /// A track finished playing
    TrackFinished,
    /// The playback position moved
    PositionUpdate {
        /// Position in milliseconds
        position_ms: u64,
    },
    /// The next track was prepared for gapless playback
    NextTrackPrepared,
    /// The volume changed
    VolumeChanged {
        /// Volume level (0-100)
        level: u8,
    },
    /// The queue changed
    QueueChanged,
    /// More tracks of the playback context should be loaded
    BatchLoadRequested {
        /// Offset of the first track to load
        offset: usize,
        /// Number of tracks to load
        limit: usize,
    },
    /// Tracks far away in the playback context should be loaded
    JumpLoadRequested {
        /// Offset of the first track to load
        offset: usize,
        /// Number of tracks to load
        limit: usize,
    },
    /// The manager hit an error
    Error {
        /// The error's message
        message: String,
    },
    /// The next track's audio must be loaded
    LoadNext,
}

/// Events sent to the application.
#[derive(Debug, Clone, PartialEq, Eq)]
pub enum DesktopEvent {
    /// Playback state changed
    StateChanged(EngineState),
    /// The current track changed; `true` when the event carries the
    /// manager's current track, `false` when it carries none
    TrackChanged(bool),
    /// The position changed (the value is carried by the caller)
    PositionUpdated,
    /// The position moved, in milliseconds
    PositionUpdatedMs(u64),
    /// Volume changed
    VolumeChanged(u8),
    /// Queue changed
    QueueUpdated,
    /// A crossfade started
    CrossfadeStarted {
        /// Id of the outgoing track
        from_track_id: String,
        /// Id of the incoming track
        to_track_id: String,
        /// Crossfade length in milliseconds
        duration_ms: u32,
    },
    /// A crossfade progressed (the progress value is carried by the caller)
    CrossfadeProgress,
    /// A crossfade completed
    CrossfadeCompleted,
    /// More tracks should be loaded
    BatchLoadRequested {
        /// Offset of the first track to load
        offset: usize,
        /// Number of tracks to load
        limit: usize,
    },
    /// Tracks far away should be loaded
    JumpLoadRequested {
        /// Offset of the first track to load
        offset: usize,
        /// Number of tracks to load
        limit: usize,
    },
    /// An error occurred
    Error(String),
}

// ---------------------------------------------------------------------------
// Forwarding manager events
// ---------------------------------------------------------------------------

/// What forwarding one manager event decided.
#[derive(Debug, Clone)]
pub struct Forwarded {
    /// The event sent to the application, if any
    pub event: Option<DesktopEvent>,
    /// Whether a load was requested on this stream (so far)
    pub load_requested: bool,
    /// Whether a background loader is running
    pub loader_in_flight: bool,
    /// Whether a background loader for the next track is started now
    pub spawn_loader: bool,
}

/// The state the application sees for a manager state: a crossfade shows
/// as playing.
pub open spec fn engine_state_of(s: ManagerState) -> EngineState {
    match s {
        ManagerState::Stopped => EngineState::Stopped,
        ManagerState::Playing => EngineState::Playing,
        ManagerState::Paused => EngineState::Paused,
        ManagerState::Crossfading => EngineState::Playing,
    }
}

/// A manager state is reported under the engine state of the same name,
/// except a crossfade, which is reported as playing; so only a stopped
/// manager is reported stopped and only a paused one paused.
pub proof fn lemma_state_names_kept(s: ManagerState)
    ensures
        s is Stopped ==> engine_state_of(s) == EngineState::Stopped,
        s is Playing ==> engine_state_of(s) == EngineState::Playing,
        s is Paused ==> engine_state_of(s) == EngineState::Paused,
        s is Crossfading ==> engine_state_of(s) == EngineState::Playing,
        (engine_state_of(s) == EngineState::Stopped) <==> (s is Stopped),
        (engine_state_of(s) == EngineState::Paused) <==> (s is Paused),
{
}

/// What forwarding a manager event gives, with the id of the manager's
/// current track, whether a load was requested so far and whether a
/// background loader is running. Internal events are not forwarded;
/// `LoadNext` marks the load as requested and starts a loader unless one
/// is already running.
pub open spec fn forwarded(
    e: ManagerEvent,
    current_track_id: Option<Seq<char>>,
    load_requested: bool,
    loader_in_flight: bool,
) -> Forwarded {
    let pass = |ev: Option<DesktopEvent>|
        Forwarded { event: ev, load_requested, loader_in_flight, spawn_loader: false };
    match e {
        ManagerEvent::StateChanged(s) => pass(Some(DesktopEvent::StateChanged(engine_state_of(s)))),
        ManagerEvent::TrackChanged { track_id } => pass(
            Some(DesktopEvent::TrackChanged(current_track_id == Some(track_id@))),
        ),
        ManagerEvent::CrossfadeStarted { from_track_id, to_track_id, duration_ms } => pass(
            Some(DesktopEvent::CrossfadeStarted { from_track_id, to_track_id, duration_ms }),
        ),
        ManagerEvent::CrossfadeProgress => pass(Some(DesktopEvent::CrossfadeProgress)),
        ManagerEvent::CrossfadeCompleted => pass(Some(DesktopEvent::CrossfadeCompleted)),
        ManagerEvent::TrackFinished => pass(None),
        ManagerEvent::PositionUpdate { position_ms } => pass(
            Some(DesktopEvent::PositionUpdatedMs(position_ms)),
        ),
        ManagerEvent::NextTrackPrepared => pass(None),
        ManagerEvent::VolumeChanged { level } => pass(Some(DesktopEvent::VolumeChanged(level))),
        ManagerEvent::QueueChanged => pass(Some(DesktopEvent::QueueUpdated)),
        ManagerEvent::BatchLoadRequested { offset, limit } => pass(
            Some(DesktopEvent::BatchLoadRequested { offset, limit }),
        ),
        ManagerEvent::JumpLoadRequested { offset, limit } => pass(
            Some(DesktopEvent::JumpLoadRequested { offset, limit }),
        ),
        ManagerEvent::Error { message } => pass(Some(DesktopEvent::Error(message))),
        ManagerEvent::LoadNext => Forwarded {
            event: None,
            load_requested: true,
            loader_in_flight: true,
            spawn_loader: !loader_in_flight,
        },
    }
}

/// Forward one manager event to the application (see [`forwarded`]).
pub fn forward_event(
    e: ManagerEvent,
    current_track_id: Option<&str>,
    load_requested: bool,
    loader_in_flight: bool,
) -> (r: Forwarded)
    ensures
        r == forwarded(
            e,
            match current_track_id {
                Some(id) => Some(id@),
                None => None,
            },
            load_requested,
            loader_in_flight,
        ),
        e matches ManagerEvent::StateChanged(ManagerState::Stopped) ==> r.event == Some(
            DesktopEvent::StateChanged(EngineState::Stopped),
        ),
        e matches ManagerEvent::StateChanged(ManagerState::Playing) ==> r.event == Some(
            DesktopEvent::StateChanged(EngineState::Playing),
        ),
        e matches ManagerEvent::StateChanged(ManagerState::Paused) ==> r.event == Some(
            DesktopEvent::StateChanged(EngineState::Paused),
        ),
        e matches ManagerEvent::StateChanged(ManagerState::Crossfading) ==> r.event == Some(
            DesktopEvent::StateChanged(EngineState::Playing),
        ),
{
    let pass = |ev: Option<DesktopEvent>| -> (f: Forwarded)
        ensures
            f == (Forwarded { event: ev, load_requested, loader_in_flight, spawn_loader: false }),
        { Forwarded { event: ev, load_requested, loader_in_flight, spawn_loader: false } };
    match e {
        ManagerEvent::StateChanged(s) => {
            let st = match s {
                ManagerState::Stopped => EngineState::Stopped,
                ManagerState::Playing => EngineState::Playing,
                ManagerState::Paused => EngineState::Paused,
                ManagerState::Crossfading => EngineState::Playing,
            };
            pass(Some(DesktopEvent::StateChanged(st)))
        },
        ManagerEvent::TrackChanged { track_id } => {
            let matches_current = match current_track_id {
                Some(id) => str_eq(id, track_id.as_str()),
                None => false,
            };
            pass(Some(DesktopEvent::TrackChanged(matches_current)))
        },
        ManagerEvent::CrossfadeStarted { from_track_id, to_track_id, duration_ms } => pass(
            Some(DesktopEvent::CrossfadeStarted { from_track_id, to_track_id, duration_ms }),
        ),
        ManagerEvent::CrossfadeProgress => pass(Some(DesktopEvent::CrossfadeProgress)),
        ManagerEvent::CrossfadeCompleted => pass(Some(DesktopEvent::CrossfadeCompleted)),
        ManagerEvent::TrackFinished => pass(None),
        ManagerEvent::PositionUpdate { position_ms } => pass(
            Some(DesktopEvent::PositionUpdatedMs(position_ms)),
        ),
        ManagerEvent::NextTrackPrepared => pass(None),
        ManagerEvent::VolumeChanged { level } => pass(Some(DesktopEvent::VolumeChanged(level))),
        ManagerEvent::QueueChanged => pass(Some(DesktopEvent::QueueUpdated)),
        ManagerEvent::BatchLoadRequested { offset, limit } => pass(
            Some(DesktopEvent::BatchLoadRequested { offset, limit }),
        ),
        ManagerEvent::JumpLoadRequested { offset, limit } => pass(
            Some(DesktopEvent::JumpLoadRequested { offset, limit }),
        ),
        ManagerEvent::Error { message } => pass(Some(DesktopEvent::Error(message))),
        ManagerEvent::LoadNext => Forwarded {
            event: None,
            load_requested: true,
            loader_in_flight: true,
            spawn_loader: !loader_in_flight,
        },
    }
}

/// At most one background loader runs at a time: a `LoadNext` starts one
/// only when none is running, and afterwards one is running, so a second
/// `LoadNext` before it ends starts none.
pub proof fn lemma_single_loader(
    current_track_id: Option<Seq<char>>,
    load_requested: bool,
    loader_in_flight: bool,
)
    ensures
        ({
            let f = forwarded(ManagerEvent::LoadNext, current_track_id, load_requested, loader_in_flight);
            let g = forwarded(ManagerEvent::LoadNext, current_track_id, f.load_requested, f.loader_in_flight);
            &&& f.spawn_loader == !loader_in_flight
            &&& f.loader_in_flight
            &&& f.load_requested
            &&& f.event is None
            &&& !g.spawn_loader
        }),
{
}

/// The events a batch of manager events sends to the application, in
/// order (what an event sends does not depend on the loader flags).
pub open spec fn forwarded_events(es: Seq<ManagerEvent>, current_track_id: Option<Seq<char>>) -> Seq<
    DesktopEvent,
>
    decreases es.len(),
{
    if es.len() == 0 {
        Seq::empty()
    } else {
        let rest = forwarded_events(es.drop_last(), current_track_id);
        match forwarded(es.last(), current_track_id, false, false).event {
            Some(ev) => rest.push(ev),
            None => rest,
        }
    }
}

/// Whether a batch holds a `LoadNext` event.
pub open spec fn has_load_next(es: Seq<ManagerEvent>) -> bool {
    exists|i: int| 0 <= i < es.len() && (#[trigger] es[i]) is LoadNext
}

/// Index `i` is the first `LoadNext` event of a batch.
pub open spec fn first_load_next(es: Seq<ManagerEvent>, i: int) -> bool {
    &&& 0 <= i < es.len()
    &&& es[i] is LoadNext
    &&& forall|j: int| 0 <= j < i ==> !((#[trigger] es[j]) is LoadNext)
}

/// What forwarding a whole batch of manager events decided.
#[derive(Debug, Clone)]
pub struct ForwardedBatch {
    /// The events sent to the application, in order
    pub events: Vec<DesktopEvent>,
    /// Whether a load was requested on this stream (so far)
    pub load_requested: bool,
    /// Whether a background loader is running
    pub loader_in_flight: bool,
    /// The position of the `LoadNext` event whose track a new loader loads,
    /// if one is started
    pub spawn_at: Option<usize>,
}

proof fn lemma_event_ignores_flags(e: ManagerEvent, cur: Option<Seq<char>>, lr: bool, lif: bool)
    ensures
        forwarded(e, cur, lr, lif).event == forwarded(e, cur, false, false).event,
        !(e is LoadNext) ==> forwarded(e, cur, lr, lif).load_requested == lr
            && forwarded(e, cur, lr, lif).loader_in_flight == lif
            && !forwarded(e, cur, lr, lif).spawn_loader,
{
}

/// Forward every event drained from the manager, in order: each is
/// forwarded as [`forwarded`] says; a load counts as requested once any
/// `LoadNext` was seen; a loader is started for at most one of them, the
/// first, and only when none was running, after which one is running.
pub fn forward_events(
    events: Vec<ManagerEvent>,
    current_track_id: Option<&str>,
    load_requested: bool,
    loader_in_flight: bool,
) -> (r: ForwardedBatch)
    ensures
        ({
            let cur = match current_track_id {
                Some(id) => Some(id@),
                None => None,
            };
            &&& r.events@ == forwarded_events(events@, cur)
            &&& r.load_requested == (load_requested || has_load_next(events@))
            &&& r.loader_in_flight == (loader_in_flight || has_load_next(events@))
            &&& match r.spawn_at {
                Some(i) => !loader_in_flight && first_load_next(events@, i as int),
                None => loader_in_flight || !has_load_next(events@),
            }
        }),
{
    let ghost cur = match current_track_id {
        Some(id) => Some(id@),
        None => None,
    };
    let ghost es = events@;
    let mut rest = events;
    let mut out: Vec<DesktopEvent> = Vec::new();
    let mut lr = load_requested;
    let mut lif = loader_in_flight;
    let mut spawn_at: Option<usize> = None;
    let mut i: usize = 0;
    let n = rest.len();
    while i < n
        invariant
            n == es.len(),
            i <= n,
            cur == match current_track_id {
                Some(id) => Some(id@),
                None => None::<Seq<char>>,
            },
            rest@ == es.subrange(i as int, n as int),
            out@ == forwarded_events(es.take(i as int), cur),
            lr == (load_requested || has_load_next(es.take(i as int))),
            lif == (loader_in_flight || has_load_next(es.take(i as int))),
            match spawn_at {
                Some(j) => !loader_in_flight && first_load_next(es.take(i as int), j as int),
                None => loader_in_flight || !has_load_next(es.take(i as int)),
            },
        decreases n - i,
    {
        let ghost before = es.take(i as int);
        let ghost after = es.take(i + 1);
        proof {
            assert(after.drop_last() =~= before);
            assert(after.last() == es[i as int]);
            assert(rest@[0] == es[i as int]);
            lemma_event_ignores_flags(es[i as int], cur, lr, lif);
        }
        let e = rest.remove(0);
        let is_load_next = matches!(e, ManagerEvent::LoadNext);
        let f = forward_event(e, current_track_id, lr, lif);
        if f.spawn_loader {
            spawn_at = Some(i);
        }
        match f.event {
            Some(ev) => {
                out.push(ev);
            },
            None => {},
        }
        proof {
            assert forall|j: int| 0 <= j < i implies #[trigger] after[j] == before[j] by {}
            if is_load_next {
                assert(after[i as int] is LoadNext);
            }
            if has_load_next(before) {
                let w = choose|w: int| 0 <= w < before.len() && (#[trigger] before[w]) is LoadNext;
                assert(after[w] is LoadNext);
            }
            if has_load_next(after) && !is_load_next {
                let w = choose|w: int| 0 <= w < after.len() && (#[trigger] after[w]) is LoadNext;
                assert(w < i);
                assert(before[w] is LoadNext);
            }
            assert(rest@ =~= es.subrange(i + 1, n as int));
        }
        lr = f.load_requested;
        lif = f.loader_in_flight;
        i = i + 1;
    }
    proof {
        assert(es.take(n as int) =~= es);
    }
    ForwardedBatch { events: out, load_requested: lr, loader_in_flight: lif, spawn_at }
}

// ---------------------------------------------------------------------------
// Audio thread bookkeeping
// ---------------------------------------------------------------------------

/// Consecutive processing errors after which playback is stopped.
pub const MAX_PROCESS_ERRORS: u32 = 3;

/// The error count after one processing round and whether playback is
/// stopped: a success resets the count; the third error in a row stops
/// playback (with an error report) and resets the count.
pub open spec fn after_process(errors: u32, ok: bool) -> (u32, bool) {
    if ok {
        (0, false)
    } else if errors as int + 1 >= MAX_PROCESS_ERRORS {
        (0, true)
    } else {
        ((errors + 1) as u32, false)
    }
}

/// Account for one processing round of the audio thread (see
/// [`after_process`]).
pub fn audio_thread_step(errors: u32, ok: bool) -> (r: (u32, bool))
    ensures
        r == after_process(errors, ok),
{
    if ok {
        (0, false)
    } else if errors >= MAX_PROCESS_ERRORS - 1 {
        (0, true)
    } else {
        (errors + 1, false)
    }
}

/// The number of process errors never reaches the limit: starting below
/// it, every round leaves it below, and playback is stopped exactly on
/// the round that would have reached it.
pub proof fn lemma_error_count_bounded(errors: u32, ok: bool)
    requires
        errors < MAX_PROCESS_ERRORS,
    ensures
        after_process(errors, ok).0 < MAX_PROCESS_ERRORS,
        after_process(errors, ok).1 <==> (!ok && errors + 1 == MAX_PROCESS_ERRORS),
{
}

/// Whether the audio thread restarts the pending track's load itself: the
/// manager is loading a track, no load was requested on this stream (the
/// request was lost with the previous stream) and no loader is running.
pub open spec fn restarts_load(
    load_requested: bool,
    is_loading: bool,
    has_pending_track: bool,
    loader_in_flight: bool,
) -> bool {
    !load_requested && is_loading && has_pending_track && !loader_in_flight
}

/// Decide whether to restart a lost load (see [`restarts_load`]); when it
/// is restarted, the load counts as requested and a loader as running.
pub fn restart_lost_load(
    load_requested: bool,
    is_loading: bool,
    has_pending_track: bool,
    loader_in_flight: bool,
) -> (r: (bool, bool, bool))
    ensures
        r.0 == restarts_load(load_requested, is_loading, has_pending_track, loader_in_flight),
        r.1 == (load_requested || r.0),
        r.2 == (loader_in_flight || r.0),
{
    let restart = !load_requested && is_loading && has_pending_track && !loader_in_flight;
    (restart, load_requested || restart, loader_in_flight || restart)
}

/// What the audio thread does with its output in one round.
#[derive(Debug, Clone, Copy, PartialEq, Eq, Structural)]
pub enum OutputStep {
    /// No stream (silent mode): process a chunk of this many samples, then
    /// sleep 10 ms
    NullTick(usize),
    /// The ring has no room for a chunk: park for up to 5 ms
    Park,
    /// Process this many samples into the ring
    Process(usize),
}

/// What the audio thread does in one round of its loop.
#[derive(Debug, Clone, Copy, PartialEq, Eq, Structural)]
pub enum IterationPlan {
    /// Shutdown was requested: leave the loop
    Exit,
    /// Run a round
    Round {
        /// Whether queued commands are drained first (all of them, in
        /// arrival order, under one manager lock, then one forwarding of
        /// the manager's events)
        drain_commands: bool,
        /// What is done with the output
        output: OutputStep,
    },
}

/// The plan of one audio-thread round: leave on shutdown; otherwise drain
/// the queued commands when there are any, then process a chunk (silent
/// mode), park (ring too full for a chunk) or process as much as fits, at
/// most a chunk.
pub open spec fn iteration_plan(
    shutdown: bool,
    queued_commands: usize,
    ring_free: Option<usize>,
    chunk_samples: usize,
) -> IterationPlan {
    if shutdown {
        IterationPlan::Exit
    } else {
        IterationPlan::Round {
            drain_commands: queued_commands > 0,
            output: match ring_free {
                None => OutputStep::NullTick(chunk_samples),
                Some(free) => if free < chunk_samples {
                    OutputStep::Park
                } else {
                    OutputStep::Process(chunk_samples)
                },
            },
        }
    }
}

/// Plan one round of the audio thread (see [`iteration_plan`]). A round
/// never processes more samples than the ring has room for.
pub fn plan_iteration(
    shutdown: bool,
    queued_commands: usize,
    ring_free: Option<usize>,
    chunk_samples: usize,
) -> (r: IterationPlan)
    ensures
        r == iteration_plan(shutdown, queued_commands, ring_free, chunk_samples),
        r matches IterationPlan::Round { output: OutputStep::Process(n), .. } ==> ring_free matches Some(
            free,
        ) && n <= free && n <= chunk_samples,
{
    if shutdown {
        return IterationPlan::Exit;
    }
    let output = match ring_free {
        None => OutputStep::NullTick(chunk_samples),
        Some(free) => if free < chunk_samples {
            OutputStep::Park
        } else {
            OutputStep::Process(chunk_samples)
        },
    };
    IterationPlan::Round { drain_commands: queued_commands > 0, output }
}

// ---------------------------------------------------------------------------
// Commands
// ---------------------------------------------------------------------------

/// Playback commands, by kind (track lists and positions are carried by
/// the caller).
#[derive(Debug, Clone, Copy, PartialEq, Eq, Structural)]
pub enum CommandKind {
    /// Start or resume playback
    Play,
    /// A background loader's source is ready
    ActivateSource,
    /// Pause playback
    Pause,
    /// Stop playback
    Stop,
    /// Skip to the next track
    Next,
    /// Go to the previous track
    Previous,
    /// Seek to a position
    Seek,
    /// Set the volume (0-100)
    SetVolume(u8),
    /// Mute
    Mute,
    /// Unmute
    Unmute,
    /// Add a track to the queue
    AddToQueue,
    /// Add a track to play next
    AddPlayNext,
    /// Add a track to the end of the queue
    AddToQueueEnd,
    /// Remove a track from the queue
    RemoveFromQueue,
    /// Clear the queue
    ClearQueue,
    /// Clear the play-next tier
    ClearPlayNext,
    /// Clear the add-to-queue tier
    ClearAddToQueue,
    /// Skip to a queue index
    SkipToQueueIndex,
    /// Load a playlist as playback context
    LoadPlaylist,
    /// Append tracks to the playback context
    AppendToSource,
    /// Set the shuffle mode
    SetShuffle,
    /// Cycle the shuffle mode
    CycleShuffle,
    /// Set the repeat mode
    SetRepeat,
    /// Switch the output device (handled outside the audio thread)
    SwitchDevice,
}

/// What the playback manager reported after applying a command.
#[derive(Debug, Clone, Copy, PartialEq, Eq, Structural)]
pub struct CommandOutcome {
    /// Whether the manager accepted the command
    pub ok: bool,
    /// The manager's state afterwards
    pub state: EngineState,
    /// For a source activation: whether the source was taken (a stale one
    /// is refused)
    pub activated: bool,
    /// The manager's volume afterwards
    pub volume: u8,
}

/// The events sent after a command, given what the manager reported. A
/// refused command sends nothing.
pub open spec fn events_for(cmd: CommandKind, o: CommandOutcome) -> Seq<DesktopEvent> {
    if !o.ok {
        Seq::empty()
    } else {
        match cmd {
            CommandKind::Play => if o.state == EngineState::Playing {
                Seq::empty()
            } else {
                seq![DesktopEvent::StateChanged(o.state)]
            },
            CommandKind::ActivateSource => if o.activated {
                seq![
                    DesktopEvent::StateChanged(o.state),
                    DesktopEvent::TrackChanged(true),
                    DesktopEvent::QueueUpdated,
                ]
            } else {
                Seq::empty()
            },
            CommandKind::Pause | CommandKind::Stop => seq![DesktopEvent::StateChanged(o.state)],
            CommandKind::Next | CommandKind::Previous => if o.state != EngineState::Stopped {
                seq![DesktopEvent::TrackChanged(true), DesktopEvent::QueueUpdated]
            } else {
                seq![DesktopEvent::QueueUpdated]
            },
            CommandKind::Seek => seq![DesktopEvent::PositionUpdated],
            CommandKind::SetVolume(v) => seq![DesktopEvent::VolumeChanged(v)],
            CommandKind::Mute | CommandKind::Unmute => seq![DesktopEvent::VolumeChanged(o.volume)],
            CommandKind::SetRepeat | CommandKind::SwitchDevice => Seq::empty(),
            _ => seq![DesktopEvent::QueueUpdated],
        }
    }
}

/// The events to send after a command (see [`events_for`]).
pub fn command_events(cmd: CommandKind, outcome: CommandOutcome) -> (r: Vec<DesktopEvent>)
    ensures
        r@ == events_for(cmd, outcome),
{
    let mut r: Vec<DesktopEvent> = Vec::new();
    if !outcome.ok {
        return r;
    }
    match cmd {
        CommandKind::Play => {
            if outcome.state != EngineState::Playing {
                r.push(DesktopEvent::StateChanged(outcome.state));
            }
        },
        CommandKind::ActivateSource => {
            if outcome.activated {
                r.push(DesktopEvent::StateChanged(outcome.state));
                r.push(DesktopEvent::TrackChanged(true));
                r.push(DesktopEvent::QueueUpdated);
            }
        },
        CommandKind::Pause | CommandKind::Stop => {
            r.push(DesktopEvent::StateChanged(outcome.state));
        },
        CommandKind::Next | CommandKind::Previous => {
            if outcome.state != EngineState::Stopped {
                r.push(DesktopEvent::TrackChanged(true));
            }
            r.push(DesktopEvent::QueueUpdated);
        },
        CommandKind::Seek => {
            r.push(DesktopEvent::PositionUpdated);
        },
        CommandKind::SetVolume(v) => {
            r.push(DesktopEvent::VolumeChanged(v));
        },
        CommandKind::Mute | CommandKind::Unmute => {
            r.push(DesktopEvent::VolumeChanged(outcome.volume));
        },
        CommandKind::SetRepeat | CommandKind::SwitchDevice => {},
        _ => {
            r.push(DesktopEvent::QueueUpdated);
        },
    }
    proof {
        assert(r@ =~= events_for(cmd, outcome));
    }
    r
}

/// The events of a batch of commands applied in arrival order: each
/// command's events, in the order the commands came.
pub open spec fn batch_events(cmds: Seq<(CommandKind, CommandOutcome)>) -> Seq<DesktopEvent>
    decreases cmds.len(),
{
    if cmds.len() == 0 {
        Seq::empty()
    } else {
        batch_events(cmds.drop_last()) + events_for(cmds.last().0, cmds.last().1)
    }
}

/// The events to send after a batch of commands drained together (see
/// [`batch_events`]).
pub fn batch_command_events(cmds: &Vec<(CommandKind, CommandOutcome)>) -> (r: Vec<DesktopEvent>)
    ensures
        r@ == batch_events(cmds@),
{
    let mut r: Vec<DesktopEvent> = Vec::new();
    let mut i: usize = 0;
    while i < cmds.len()
        invariant
            i <= cmds.len(),
            r@ == batch_events(cmds@.take(i as int)),
        decreases cmds.len() - i,
    {
        proof {
            assert(cmds@.take(i + 1).drop_last() =~= cmds@.take(i as int));
        }
        let (cmd, outcome) = cmds[i];
        let mut evs = command_events(cmd, outcome);
        r.append(&mut evs);
        i = i + 1;
    }
    proof {
        assert(cmds@.take(cmds.len() as int) =~= cmds@);
    }
    r
}

} // verus!

use soul_audio_desktop::engine::{
    audio_thread_step, batch_command_events, command_events, forward_events, plan_iteration,
    IterationPlan, OutputStep, forward_event, restart_lost_load, CommandKind,
    CommandOutcome, DesktopEvent, EngineState, ManagerEvent, ManagerState,
};

fn outcome(ok: bool, state: EngineState) -> CommandOutcome {
    CommandOutcome { ok, state, activated: true, volume: 40 }
}

#[test]
fn crossfading_is_reported_as_playing() {
    let f = forward_event(ManagerEvent::StateChanged(ManagerState::Crossfading), None, false, false);
    assert_eq!(f.event, Some(DesktopEvent::StateChanged(EngineState::Playing)));
    assert!(!f.spawn_loader);
    let f = forward_event(ManagerEvent::StateChanged(ManagerState::Paused), None, false, false);
    assert_eq!(f.event, Some(DesktopEvent::StateChanged(EngineState::Paused)));
}

#[test]
fn track_change_carries_the_current_track_only_when_ids_match() {
    let e = ManagerEvent::TrackChanged { track_id: "t2".to_string() };
    let f = forward_event(e.clone(), Some("t2"), false, false);
    assert_eq!(f.event, Some(DesktopEvent::TrackChanged(true)));
    let f = forward_event(e.clone(), Some("t1"), false, false);
    assert_eq!(f.event, Some(DesktopEvent::TrackChanged(false)));
    let f = forward_event(e, None, false, false);
    assert_eq!(f.event, Some(DesktopEvent::TrackChanged(false)));
}

#[test]
fn internal_events_are_not_forwarded() {
    assert_eq!(forward_event(ManagerEvent::TrackFinished, None, true, true).event, None);
    assert_eq!(forward_event(ManagerEvent::NextTrackPrepared, None, true, true).event, None);
    assert_eq!(
        forward_event(ManagerEvent::PositionUpdate { position_ms: 1500 }, None, false, false).event,
        Some(DesktopEvent::PositionUpdatedMs(1500))
    );
    assert_eq!(
        forward_event(ManagerEvent::QueueChanged, None, false, false).event,
        Some(DesktopEvent::QueueUpdated)
    );
    assert_eq!(
        forward_event(ManagerEvent::Error { message: "boom".to_string() }, None, false, false).event,
        Some(DesktopEvent::Error("boom".to_string()))
    );
}

#[test]
fn load_next_starts_one_loader_at_a_time() {
    let first = forward_event(ManagerEvent::LoadNext, None, false, false);
    assert!(first.spawn_loader);
    assert!(first.load_requested);
    assert!(first.loader_in_flight);
    assert_eq!(first.event, None);
    let second = forward_event(
        ManagerEvent::LoadNext,
        None,
        first.load_requested,
        first.loader_in_flight,
    );
    assert!(!second.spawn_loader);
    assert!(second.loader_in_flight);
}

#[test]
fn third_consecutive_error_stops_playback() {
    assert_eq!(audio_thread_step(0, false), (1, false));
    assert_eq!(audio_thread_step(1, false), (2, false));
    assert_eq!(audio_thread_step(2, false), (0, true));
    assert_eq!(audio_thread_step(2, true), (0, false));
}

#[test]
fn lost_load_is_restarted_once() {
    assert_eq!(restart_lost_load(false, true, true, false), (true, true, true));
    assert_eq!(restart_lost_load(true, true, true, false), (false, true, false));
    assert_eq!(restart_lost_load(false, true, true, true), (false, false, true));
    assert_eq!(restart_lost_load(false, false, true, false), (false, false, false));
}

#[test]
fn play_reports_state_unless_already_playing() {
    assert_eq!(
        command_events(CommandKind::Play, outcome(true, EngineState::Paused)),
        vec![DesktopEvent::StateChanged(EngineState::Paused)]
    );
    assert!(command_events(CommandKind::Play, outcome(true, EngineState::Playing)).is_empty());
    assert!(command_events(CommandKind::Play, outcome(false, EngineState::Stopped)).is_empty());
}

#[test]
fn activation_reports_state_track_and_queue() {
    assert_eq!(
        command_events(CommandKind::ActivateSource, outcome(true, EngineState::Playing)),
        vec![
            DesktopEvent::StateChanged(EngineState::Playing),
            DesktopEvent::TrackChanged(true),
            DesktopEvent::QueueUpdated,
        ]
    );
    let stale = CommandOutcome { ok: true, state: EngineState::Playing, activated: false, volume: 0 };
    assert!(command_events(CommandKind::ActivateSource, stale).is_empty());
}

#[test]
fn navigation_and_queue_commands_report_the_queue() {
    assert_eq!(
        command_events(CommandKind::Next, outcome(true, EngineState::Playing)),
        vec![DesktopEvent::TrackChanged(true), DesktopEvent::QueueUpdated]
    );
    assert_eq!(
        command_events(CommandKind::Previous, outcome(true, EngineState::Stopped)),
        vec![DesktopEvent::QueueUpdated]
    );
    assert_eq!(
        command_events(CommandKind::ClearQueue, outcome(true, EngineState::Stopped)),
        vec![DesktopEvent::QueueUpdated]
    );
    assert!(command_events(CommandKind::SetRepeat, outcome(true, EngineState::Stopped)).is_empty());
    assert!(command_events(CommandKind::SwitchDevice, outcome(true, EngineState::Stopped)).is_empty());
}

#[test]
fn volume_commands_report_the_volume() {
    assert_eq!(
        command_events(CommandKind::SetVolume(70), outcome(true, EngineState::Playing)),
        vec![DesktopEvent::VolumeChanged(70)]
    );
    assert_eq!(
        command_events(CommandKind::Mute, outcome(true, EngineState::Playing)),
        vec![DesktopEvent::VolumeChanged(40)]
    );
    assert_eq!(
        command_events(CommandKind::Stop, outcome(true, EngineState::Stopped)),
        vec![DesktopEvent::StateChanged(EngineState::Stopped)]
    );
}

#[test]
fn a_batch_starts_at_most_one_loader() {
    let batch = vec![
        ManagerEvent::QueueChanged,
        ManagerEvent::LoadNext,
        ManagerEvent::VolumeChanged { level: 30 },
        ManagerEvent::LoadNext,
    ];
    let f = forward_events(batch.clone(), None, false, false);
    assert_eq!(f.spawn_at, Some(1));
    assert!(f.load_requested);
    assert!(f.loader_in_flight);
    assert_eq!(f.events, vec![DesktopEvent::QueueUpdated, DesktopEvent::VolumeChanged(30)]);
    let busy = forward_events(batch, None, false, true);
    assert_eq!(busy.spawn_at, None);
    let quiet = forward_events(vec![ManagerEvent::CrossfadeCompleted], None, false, false);
    assert_eq!(quiet.spawn_at, None);
    assert!(!quiet.load_requested);
    assert_eq!(quiet.events, vec![DesktopEvent::CrossfadeCompleted]);
}

#[test]
fn iteration_plan_follows_shutdown_commands_and_ring_room() {
    assert_eq!(plan_iteration(true, 3, Some(4096), 1024), IterationPlan::Exit);
    assert_eq!(
        plan_iteration(false, 2, Some(4096), 1024),
        IterationPlan::Round { drain_commands: true, output: OutputStep::Process(1024) }
    );
    assert_eq!(
        plan_iteration(false, 0, Some(100), 1024),
        IterationPlan::Round { drain_commands: false, output: OutputStep::Park }
    );
    assert_eq!(
        plan_iteration(false, 0, None, 1024),
        IterationPlan::Round { drain_commands: false, output: OutputStep::NullTick(1024) }
    );
}

#[test]
fn batch_of_commands_reports_in_arrival_order() {
    let cmds = vec![
        (CommandKind::SetVolume(10), outcome(true, EngineState::Playing)),
        (CommandKind::Pause, outcome(true, EngineState::Paused)),
        (CommandKind::Next, outcome(false, EngineState::Paused)),
        (CommandKind::ClearQueue, outcome(true, EngineState::Paused)),
    ];
    assert_eq!(
        batch_command_events(&cmds),
        vec![
            DesktopEvent::VolumeChanged(10),
            DesktopEvent::StateChanged(EngineState::Paused),
            DesktopEvent::QueueUpdated,
        ]
    );
}

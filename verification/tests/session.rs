use camilla_engine::config::{ConfigChange, Configuration, DeviceGroup, Devices};
use camilla_engine::engine::command_queue;
use camilla_engine::engine_pipeline::{
    start_pipeline, CaptureEnds, PlaybackEnds, ProcessingEnds,
};
use camilla_engine::messages::{
    CommandMessage, ControllerMessage, Disconnected, EngineError, ExitState, StatusMessage,
    StopReason,
};
use camilla_engine::session::{Effect, Reaction, Session, SupervisorEvent, THREADS_GONE};
use camilla_engine::shared::{
    status_source, ProcessingStatus, SharedConfigs, StatusSource, StatusStructs,
};
use parking_lot::{Mutex, RwLock};
use std::sync::Arc;

struct Ends {
    processing: ProcessingEnds,
    playback: PlaybackEnds,
    capture: CaptureEnds,
}

type Supervisor = Session<usize, usize>;
type Cell = Arc<Mutex<Option<Configuration>>>;

fn config(document: &str, limits: &[usize]) -> Configuration {
    let mut groups = Vec::new();
    for limit in limits {
        groups.push(DeviceGroup { queuelimit: *limit });
    }
    Configuration { document: document.to_string(), devices: Devices { groups } }
}

fn run_status(stop_reason: StopReason) -> Arc<RwLock<ProcessingStatus>> {
    Arc::new(RwLock::new(ProcessingStatus { stop_reason }))
}

/// A session with the given number of groups, and what its threads got.
fn session(groups: usize) -> (Supervisor, Vec<Ends>, Cell, Cell, Arc<RwLock<ProcessingStatus>>) {
    let limits = vec![4; groups];
    let status = run_status(StopReason::NotStopped);
    let mut shared = SharedConfigs::new();
    shared.activate(config("running", &limits));
    let (active, previous) = (shared.active(), shared.previous());
    let mut session: Supervisor = Session::open(shared, status.clone()).unwrap();
    let mut ends = Vec::new();
    while let Some((group, _source)) = session.next_group() {
        let structs = StatusStructs { status: status.clone(), devices: group };
        let setup = start_pipeline(session.active_config(), group, structs);
        session.add_pipeline(setup.pipeline.attach(group, group));
        ends.push(Ends {
            processing: setup.processing,
            playback: setup.playback,
            capture: setup.capture,
        });
    }
    (session, ends, active, previous, status)
}

fn documents(cell: &Cell) -> Option<String> {
    cell.lock().as_ref().map(|config| config.document.clone())
}

fn is_quiet(reaction: &Reaction) -> bool {
    reaction.effects.is_empty() && reaction.outcome.is_none()
}

#[test]
fn a_session_needs_a_configuration() {
    let result: Result<Supervisor, ExitState> =
        Session::open(SharedConfigs::new(), run_status(StopReason::NotStopped));
    assert!(matches!(result, Err(ExitState::Exit)));
    let result: Result<Supervisor, ExitState> =
        Session::open_with(None, SharedConfigs::new(), run_status(StopReason::Done));
    assert!(matches!(result, Err(ExitState::Exit)));
}

#[test]
fn a_session_begins_with_the_active_configuration() {
    let (session, _ends, active, previous, _status) = session(2);
    assert!(session.is_starting());
    assert_eq!(session.len(), 2);
    assert_eq!(session.active_config().document, "running");
    assert_eq!(session.pipeline(1).device_group(), 1);
    assert_eq!(session.pipeline(1).status().devices, 1);
    assert_eq!(documents(&active), Some("running".to_string()));
    assert_eq!(documents(&previous), None);
}

#[test]
fn only_the_first_group_reports_into_the_state_of_the_process() {
    assert_eq!(status_source(0), StatusSource::Process);
    assert_eq!(status_source(1), StatusSource::Fresh);
    let status = run_status(StopReason::NotStopped);
    let first = StatusStructs { status: status.clone(), devices: 7 };
    let other = first.new_with_shared_run_status(8);
    assert_eq!(other.devices, 8);
    assert!(Arc::ptr_eq(&first.status, &other.status));
}

#[test]
fn each_group_gets_its_pipeline_in_order() {
    let shared = SharedConfigs::new();
    let status = run_status(StopReason::NotStopped);
    let mut session: Supervisor =
        Session::open_with(Some(config("three", &[1, 2, 3])), shared, status.clone()).unwrap();
    for group in 0..3 {
        let source = if group == 0 { StatusSource::Process } else { StatusSource::Fresh };
        assert_eq!(session.next_group(), Some((group, source)));
        let structs = StatusStructs { status: status.clone(), devices: group };
        let setup = start_pipeline(session.active_config(), group, structs);
        session.add_pipeline(setup.pipeline.attach(group, group));
        assert_eq!(session.pipeline(group).device_group(), group);
    }
    assert_eq!(session.next_group(), None);
    assert_eq!(session.len(), 3);
}

#[test]
fn events_tell_which_pipeline_they_come_from() {
    let (session, ends, _active, _previous, _status) = session(3);
    let (_tx, rx_ctrl) = command_queue();
    ends[1].capture.tx_status.send(StatusMessage::CaptureDone).unwrap();
    match session.next_event(&rx_ctrl) {
        SupervisorEvent::Status(1, Ok(StatusMessage::CaptureDone)) => {}
        other => panic!("{other:?}"),
    }
    ends[2].playback.tx_status.send(StatusMessage::SetMute(true)).unwrap();
    match session.next_event(&rx_ctrl) {
        SupervisorEvent::Status(2, Ok(StatusMessage::SetMute(true))) => {}
        other => panic!("{other:?}"),
    }
}

#[test]
fn commands_are_left_in_the_queue_during_startup() {
    let (mut session, ends, _active, _previous, _status) = session(1);
    let (tx, rx_ctrl) = command_queue();
    tx.send(ControllerMessage::Stop).unwrap();
    for _ in 0..20 {
        ends[0].capture.tx_status.send(StatusMessage::CaptureDone).unwrap();
        let reaction = session.turn(&rx_ctrl);
        assert!(is_quiet(&reaction));
    }
    assert_eq!(rx_ctrl.len(), 1);
}

#[test]
fn one_ready_side_does_not_start_a_group() {
    let (mut session, _ends, _active, _previous, _status) = session(2);
    assert!(is_quiet(&session.on_status(0, Ok(StatusMessage::PlaybackReady))));
    assert!(is_quiet(&session.on_status(0, Ok(StatusMessage::PlaybackReady))));
    assert!(is_quiet(&session.on_status(1, Ok(StatusMessage::CaptureReady))));
    assert!(!session.pipeline(0).barrier_released());
    assert!(!session.pipeline(1).barrier_released());
    assert!(session.is_starting());
}

#[test]
fn a_speed_is_passed_on_to_the_capture_thread_of_its_group() {
    let (mut session, ends, _active, _previous, _status) = session(2);
    let (_tx, rx_ctrl) = command_queue();
    let speed = 0.998f64.to_bits();
    ends[1].playback.tx_status.send(StatusMessage::SetSpeed(speed)).unwrap();
    assert!(is_quiet(&session.turn(&rx_ctrl)));
    assert_eq!(
        ends[1].capture.rx_command_cap.try_recv(),
        Ok(CommandMessage::SetSpeed { speed })
    );
    assert!(ends[0].capture.rx_command_cap.is_empty());
}

#[test]
fn volume_and_mute_act_on_the_main_fader() {
    let (mut session, _ends, _active, _previous, _status) = session(2);
    let volume = (-12.5f32).to_bits();
    let reaction = session.on_status(1, Ok(StatusMessage::SetVolume(volume)));
    assert_eq!(reaction.effects.len(), 1);
    match reaction.effects[0] {
        Effect::SetTargetVolume { index: 1, fader: 0, volume: set } => {
            assert_eq!(f32::from_bits(set), -12.5);
        }
        ref other => panic!("{other:?}"),
    }
    let reaction = session.on_status(0, Ok(StatusMessage::SetMute(true)));
    assert!(matches!(
        reaction.effects[0],
        Effect::SetMute { index: 0, fader: 0, mute: true }
    ));
    assert!(reaction.outcome.is_none());
}

/// Checks the answer to a device failure and hands out the reason that it gives.
fn failure_reason(reaction: Reaction) -> StopReason {
    assert_eq!(reaction.outcome, Some(Ok(ExitState::Restart)));
    let mut effects = reaction.effects.into_iter();
    let reason = match effects.next() {
        Some(Effect::SetStopReason(reason)) => reason,
        other => panic!("{other:?}"),
    };
    assert!(matches!(effects.next(), Some(Effect::StopPipelines)));
    match effects.next() {
        Some(Effect::RetireConfig(config)) => assert_eq!(config.document, "running"),
        other => panic!("{other:?}"),
    }
    assert!(matches!(effects.next(), Some(Effect::CaptureInactive)));
    assert!(effects.next().is_none());
    reason
}

#[test]
fn device_failures_end_the_session_with_their_reason() {
    let (mut session, _ends, _active, _previous, _status) = session(1);
    let text = "no such device".to_string();
    let reaction = session.on_status(0, Ok(StatusMessage::PlaybackError(text.clone())));
    assert_eq!(failure_reason(reaction), StopReason::PlaybackError(text.clone()));
    let reaction = session.on_status(0, Ok(StatusMessage::CaptureError(text.clone())));
    assert_eq!(failure_reason(reaction), StopReason::CaptureError(text));
    let reaction = session.on_status(0, Ok(StatusMessage::PlaybackFormatChange(48000)));
    assert_eq!(failure_reason(reaction), StopReason::PlaybackFormatChange(48000));
    let reaction = session.on_status(0, Ok(StatusMessage::CaptureFormatChange(44100)));
    assert_eq!(failure_reason(reaction), StopReason::CaptureFormatChange(44100));
}

#[test]
fn a_group_whose_threads_are_gone_ends_the_session() {
    let (mut session, ends, _active, _previous, _status) = session(1);
    let (_tx, rx_ctrl) = command_queue();
    drop(ends);
    let reason = failure_reason(session.turn(&rx_ctrl));
    assert_eq!(
        reason,
        StopReason::UnknownError(
            "Capture, Playback and Processing threads have exited".to_string()
        )
    );
    assert_eq!(THREADS_GONE, "Capture, Playback and Processing threads have exited");
}

#[test]
fn a_failure_is_recorded_and_retires_the_configuration() {
    let (mut session, _ends, active, previous, status) = session(1);
    let failure = StatusMessage::CaptureError("gone".to_string());
    let mut effects = session.on_status(0, Ok(failure)).effects;
    assert!(matches!(session.next_host_task(&mut effects), Some(Effect::StopPipelines)));
    // Recorded before the pipelines stop, retired only after that.
    assert_eq!(status.read().stop_reason, StopReason::CaptureError("gone".to_string()));
    assert_eq!(documents(&active), Some("running".to_string()));
    assert!(matches!(session.next_host_task(&mut effects), Some(Effect::CaptureInactive)));
    assert_eq!(documents(&active), None);
    assert_eq!(documents(&previous), Some("running".to_string()));
    assert!(session.next_host_task(&mut effects).is_none());
    assert!(effects.is_empty());
}

#[test]
fn the_end_of_playback_is_recorded_and_retires_the_configuration_before_the_stop() {
    let (mut session, _ends, active, previous, status) = session(1);
    let reaction = session.on_status(0, Ok(StatusMessage::PlaybackDone));
    assert_eq!(reaction.outcome, Some(Ok(ExitState::Restart)));
    let mut effects = reaction.effects;
    assert!(matches!(session.next_host_task(&mut effects), Some(Effect::StopPipelines)));
    assert_eq!(status.read().stop_reason, StopReason::Done);
    assert_eq!(documents(&active), None);
    assert_eq!(documents(&previous), Some("running".to_string()));
    assert!(session.next_host_task(&mut effects).is_none());
}

#[test]
fn the_end_of_playback_keeps_an_earlier_stop_reason() {
    let (mut session, _ends, _active, _previous, status) = session(1);
    status.write().stop_reason = StopReason::CaptureFormatChange(96000);
    assert!(session.perform(Effect::RecordDone).is_none());
    assert_eq!(status.read().stop_reason, StopReason::CaptureFormatChange(96000));
    assert!(session.perform(Effect::SetStopReason(StopReason::NotStopped)).is_none());
    assert_eq!(status.read().stop_reason, StopReason::NotStopped);
    assert!(session.perform(Effect::RecordDone).is_none());
    assert_eq!(status.read().stop_reason, StopReason::Done);
}

#[test]
fn the_end_of_capture_changes_nothing() {
    let (mut session, _ends, active, _previous, status) = session(1);
    assert!(is_quiet(&session.on_status(0, Ok(StatusMessage::CaptureDone))));
    assert_eq!(status.read().stop_reason, StopReason::NotStopped);
    assert_eq!(documents(&active), Some("running".to_string()));
}

#[test]
fn a_stop_command_retires_the_configuration_after_the_pipelines_stopped() {
    let (mut session, _ends, active, previous, status) = session(1);
    let reaction = session.on_control(Ok(ControllerMessage::Stop), false);
    assert_eq!(reaction.outcome, Some(Ok(ExitState::Restart)));
    let mut effects = reaction.effects;
    assert!(matches!(session.next_host_task(&mut effects), Some(Effect::StopPipelines)));
    assert_eq!(documents(&active), Some("running".to_string()));
    assert!(session.next_host_task(&mut effects).is_none());
    assert_eq!(documents(&active), None);
    assert_eq!(documents(&previous), Some("running".to_string()));
    assert_eq!(status.read().stop_reason, StopReason::NotStopped);
}

#[test]
fn an_exit_command_keeps_the_active_configuration() {
    let (mut session, _ends, active, previous, _status) = session(1);
    let reaction = session.on_control(Ok(ControllerMessage::Exit), true);
    assert_eq!(reaction.outcome, Some(Ok(ExitState::Exit)));
    let mut effects = reaction.effects;
    assert!(matches!(session.next_host_task(&mut effects), Some(Effect::StopPipelines)));
    assert!(session.next_host_task(&mut effects).is_none());
    assert_eq!(documents(&active), Some("running".to_string()));
    assert_eq!(documents(&previous), Some("running".to_string()));
}

#[test]
fn a_closed_control_channel_is_an_error() {
    let (session, _ends, _active, _previous, _status) = session(1);
    let reaction = session.on_control(Err(Disconnected), false);
    assert!(reaction.effects.is_empty());
    assert_eq!(reaction.outcome, Some(Err(EngineError::ControlClosed)));
}

#[test]
fn a_new_configuration_gives_way_to_queued_commands() {
    let (session, _ends, _active, _previous, _status) = session(1);
    let change = ControllerMessage::ConfigChanged(Box::new(config("new", &[4])));
    assert!(is_quiet(&session.on_control(Ok(change), true)));
    let change = ControllerMessage::ConfigChanged(Box::new(config("new", &[4])));
    let reaction = session.on_control(Ok(change), false);
    assert!(reaction.outcome.is_none());
    assert_eq!(reaction.effects.len(), 2);
    assert!(matches!(reaction.effects[0], Effect::ResetLoads));
    match &reaction.effects[1] {
        Effect::CompareConfig(config) => assert_eq!(config.document, "new"),
        other => panic!("{other:?}"),
    }
}

#[test]
fn whether_commands_are_queued_is_looked_up_in_the_channel() {
    let (mut session, _ends, _active, _previous, _status) = session(0);
    let (tx, rx_ctrl) = command_queue();
    let change = || ControllerMessage::ConfigChanged(Box::new(config("new", &[4])));
    let reaction = session.react(SupervisorEvent::Control(Ok(change())), &rx_ctrl);
    assert_eq!(reaction.effects.len(), 2);
    tx.send(ControllerMessage::Stop).unwrap();
    let reaction = session.react(SupervisorEvent::Control(Ok(change())), &rx_ctrl);
    assert!(is_quiet(&reaction));
}

#[test]
fn a_live_change_reaches_every_processing_thread() {
    for change in [
        ConfigChange::Pipeline,
        ConfigChange::MixerParameters,
        ConfigChange::FilterParameters {
            filters: vec!["peq".to_string()],
            mixers: Vec::new(),
            processors: Vec::new(),
        },
    ] {
        let (mut session, ends, active, previous, _status) = session(2);
        let reaction = session.apply_change(change, config("new", &[4, 4])).unwrap();
        assert!(reaction.outcome.is_none());
        for end in &ends {
            let (_change, got) = end.processing.rx_pipeconf.try_recv().unwrap();
            assert_eq!(got.document, "new");
            assert!(end.processing.rx_pipeconf.is_empty());
        }
        assert_eq!(session.active_config().document, "new");
        let mut effects = reaction.effects;
        for group in 0..2 {
            match session.next_host_task(&mut effects) {
                Some(Effect::RefreshChannels { index, device_group }) => {
                    assert_eq!(index, group);
                    assert_eq!(device_group, group);
                }
                other => panic!("{other:?}"),
            }
            assert_eq!(documents(&active), Some("new".to_string()));
        }
        assert!(session.next_host_task(&mut effects).is_none());
        assert_eq!(documents(&previous), None);
    }
}

#[test]
fn a_live_change_fails_at_the_first_processing_thread_that_is_gone() {
    let (mut session, mut ends, active, _previous, _status) = session(3);
    drop(ends.remove(1));
    let result = session.apply_change(ConfigChange::Pipeline, config("new", &[4, 4, 4]));
    assert!(matches!(result, Err(1)));
    assert_eq!(ends[0].processing.rx_pipeconf.len(), 1);
    assert!(ends[1].processing.rx_pipeconf.is_empty());
    assert_eq!(session.active_config().document, "running");
    assert_eq!(documents(&active), Some("running".to_string()));
}

#[test]
fn a_change_of_devices_restarts_with_the_new_configuration() {
    let (mut session, ends, active, previous, _status) = session(1);
    let reaction = session.apply_change(ConfigChange::Devices, config("new", &[4, 8])).unwrap();
    assert_eq!(reaction.outcome, Some(Ok(ExitState::Restart)));
    assert!(ends[0].processing.rx_pipeconf.is_empty());
    let mut effects = reaction.effects;
    assert!(matches!(session.next_host_task(&mut effects), Some(Effect::StopPipelines)));
    assert_eq!(documents(&active), Some("running".to_string()));
    assert!(session.next_host_task(&mut effects).is_none());
    assert_eq!(documents(&active), Some("new".to_string()));
    assert_eq!(documents(&previous), None);
}

#[test]
fn an_unchanged_configuration_changes_nothing() {
    let (mut session, ends, active, _previous, _status) = session(1);
    let reaction = session.apply_change(ConfigChange::Unchanged, config("new", &[4])).unwrap();
    assert!(is_quiet(&reaction));
    assert!(ends[0].processing.rx_pipeconf.is_empty());
    assert_eq!(session.active_config().document, "running");
    assert_eq!(documents(&active), Some("running".to_string()));
}

#[test]
fn a_session_without_pipelines_has_none_to_stop() {
    let (mut session, _ends, _active, _previous, _status) = session(0);
    assert!(session.stop_next().is_none());
    session.stop_all_pipelines(|_left, _pb, _cap| panic!("there is nothing to join"));
    assert_eq!(session.len(), 0);
}

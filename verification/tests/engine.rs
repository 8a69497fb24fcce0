use camilla_engine::config::{Configuration, DeviceGroup, Devices};
use camilla_engine::engine::{
    after_session, command_queue, idle, on_idle_command, queue_initial_config, Engine,
    EngineConfig, FaderSetting, Idle, Service, Startup, Waited, EXIT_BAD_CONFIG, EXIT_FORCED,
    EXIT_OK, EXIT_PROCESSING_ERROR,
};
use camilla_engine::messages::{
    ControllerMessage, Disconnected, EngineError, ExitState, StopReason,
};
use camilla_engine::session::{Effect, Session};
use camilla_engine::shared::{mark_done, ProcessingStatus, SharedConfigs};
use parking_lot::RwLock;
use std::cell::Cell;
use std::sync::Arc;

fn config(document: &str) -> Configuration {
    let groups = vec![DeviceGroup { queuelimit: 4 }];
    Configuration { document: document.to_string(), devices: Devices { groups } }
}

fn change(document: &str) -> ControllerMessage {
    ControllerMessage::ConfigChanged(Box::new(config(document)))
}

fn active(configs: &SharedConfigs) -> Option<String> {
    configs.active().lock().as_ref().map(|config| config.document.clone())
}

fn previous(configs: &SharedConfigs) -> Option<String> {
    configs.previous().lock().as_ref().map(|config| config.document.clone())
}

#[test]
fn exit_codes() {
    assert_eq!(EXIT_OK, 0);
    assert_eq!(EXIT_BAD_CONFIG, 101);
    assert_eq!(EXIT_PROCESSING_ERROR, 102);
    assert_eq!(EXIT_FORCED, 103);
}

#[test]
fn each_fader_gets_its_initial_volume_and_mute() {
    let volumes = [0.0f32, -1.0, -2.5, -40.0, 6.0];
    let params = EngineConfig {
        configname: None,
        statefilename: None,
        initial_volumes: [
            volumes[0].to_bits(),
            volumes[1].to_bits(),
            volumes[2].to_bits(),
            volumes[3].to_bits(),
            volumes[4].to_bits(),
        ],
        initial_mutes: [false, true, false, false, true],
        wait: false,
        ws_port: None,
        ws_address: String::new(),
        ws_cert: None,
        ws_pass: None,
    };
    let settings = params.initial_faders();
    assert_eq!(settings.len(), 5);
    for (fader, setting) in settings.iter().enumerate() {
        let expected = FaderSetting {
            fader,
            volume: volumes[fader].to_bits(),
            mute: fader == 1 || fader == 4,
        };
        assert_eq!(*setting, expected);
    }
}

#[test]
fn the_command_queue_holds_ten_commands() {
    let (tx, rx) = command_queue();
    assert_eq!(tx.capacity(), Some(10));
    tx.send(ControllerMessage::Stop).unwrap();
    assert!(matches!(rx.recv(), Ok(ControllerMessage::Stop)));
}

#[test]
fn the_initial_configuration_is_the_first_command() {
    let (mut tx, rx) = command_queue();
    let loaded: Option<Result<Configuration, String>> = Some(Ok(config("initial")));
    assert_eq!(queue_initial_config(&mut tx, loaded), Startup::Proceed);
    match rx.try_recv() {
        Ok(ControllerMessage::ConfigChanged(config)) => assert_eq!(config.document, "initial"),
        other => panic!("{other:?}"),
    }
    assert!(rx.is_empty());
    drop(rx);
    let loaded: Option<Result<Configuration, String>> = Some(Ok(config("initial")));
    assert_eq!(queue_initial_config(&mut tx, loaded), Startup::QueueClosed);
}

#[test]
fn a_bad_initial_configuration_makes_the_engine_quit() {
    let (mut tx, rx) = command_queue();
    let loaded: Option<Result<Configuration, String>> = Some(Err("no pipeline".to_string()));
    assert_eq!(queue_initial_config(&mut tx, loaded), Startup::Quit(101));
    assert!(rx.is_empty());
    let loaded: Option<Result<Configuration, String>> = None;
    assert_eq!(queue_initial_config(&mut tx, loaded), Startup::Proceed);
    assert!(rx.is_empty());
}

#[test]
fn the_engine_between_sessions() {
    for wait in [false, true] {
        assert_eq!(idle(true, false, wait), Idle::Start);
        assert_eq!(idle(true, true, wait), Idle::Receive);
        assert_eq!(idle(false, true, wait), Idle::Receive);
    }
    assert_eq!(idle(false, false, true), Idle::Receive);
    assert_eq!(idle(false, false, false), Idle::Quit(0));
}

#[test]
fn commands_between_sessions() {
    let mut configs = SharedConfigs::new();
    assert_eq!(on_idle_command(&mut configs, Ok(change("one"))), None);
    assert_eq!(active(&configs), Some("one".to_string()));
    assert_eq!(on_idle_command(&mut configs, Ok(ControllerMessage::Exit)), Some(0));
    assert_eq!(active(&configs), Some("one".to_string()));
    assert_eq!(on_idle_command(&mut configs, Err(Disconnected)), Some(0));
    assert_eq!(on_idle_command(&mut configs, Ok(ControllerMessage::Stop)), None);
    assert_eq!(active(&configs), None);
    assert_eq!(previous(&configs), None);
}

fn engine(wait: bool) -> Engine {
    let status = ProcessingStatus { stop_reason: StopReason::NotStopped };
    Engine::new(Arc::new(RwLock::new(status)), wait)
}

#[test]
fn a_new_engine_has_no_configuration() {
    let engine = engine(true);
    assert_eq!(active(engine.configs()), None);
    assert_eq!(previous(engine.configs()), None);
}

#[test]
fn queued_commands_are_answered_before_a_session_starts() {
    let (tx, mut rx) = command_queue();
    let mut engine = engine(false);
    tx.send(change("one")).unwrap();
    tx.send(ControllerMessage::Stop).unwrap();
    tx.send(change("two")).unwrap();
    assert_eq!(engine.wait_for_config(&mut rx), Waited::Again);
    assert_eq!(active(engine.configs()), Some("one".to_string()));
    assert_eq!(rx.len(), 2);
    assert_eq!(engine.wait_for_config(&mut rx), Waited::Again);
    assert_eq!(active(engine.configs()), None);
    assert_eq!(engine.wait_for_config(&mut rx), Waited::Again);
    assert_eq!(engine.wait_for_config(&mut rx), Waited::Start);
    assert_eq!(engine.wait_for_config(&mut rx), Waited::Start);
    assert_eq!(active(engine.configs()), Some("two".to_string()));
}

#[test]
fn without_configuration_and_commands_the_engine_quits_unless_it_waits() {
    let (tx, mut rx) = command_queue();
    assert_eq!(engine(false).wait_for_config(&mut rx), Waited::Quit(0));
    let mut waiting = engine(true);
    tx.send(ControllerMessage::Exit).unwrap();
    assert_eq!(waiting.wait_for_config(&mut rx), Waited::Quit(0));
    drop(tx);
    assert_eq!(waiting.wait_for_config(&mut rx), Waited::Quit(0));
}

#[test]
fn an_exit_between_sessions_leaves_the_commands_behind_it() {
    let (tx, mut rx) = command_queue();
    let mut engine = engine(true);
    tx.send(change("one")).unwrap();
    tx.send(ControllerMessage::Exit).unwrap();
    tx.send(change("two")).unwrap();
    assert_eq!(engine.wait_for_config(&mut rx), Waited::Again);
    assert_eq!(engine.wait_for_config(&mut rx), Waited::Quit(0));
    assert_eq!(rx.len(), 1);
    assert_eq!(active(engine.configs()), Some("one".to_string()));
}

#[test]
fn a_stop_that_is_queued_last_leaves_nothing_to_run() {
    let (tx, mut rx) = command_queue();
    let mut engine = engine(false);
    tx.send(change("one")).unwrap();
    tx.send(ControllerMessage::Stop).unwrap();
    assert_eq!(engine.wait_for_config(&mut rx), Waited::Again);
    assert_eq!(engine.wait_for_config(&mut rx), Waited::Again);
    assert_eq!(engine.wait_for_config(&mut rx), Waited::Quit(0));
}

#[test]
fn sessions_share_the_cells_and_withdraw_a_shutdown_request() {
    let (tx, mut rx) = command_queue();
    let mut engine = engine(true);
    let requested = Cell::new(true);
    let none: Result<Session<(), ()>, ExitState> = engine.start_session(|r| requested.set(r));
    assert!(matches!(none, Err(ExitState::Exit)));
    tx.send(change("one")).unwrap();
    assert_eq!(engine.wait_for_config(&mut rx), Waited::Again);
    requested.set(true);
    let mut one: Session<(), ()> = engine.start_session(|r| requested.set(r)).unwrap();
    assert!(!requested.get());
    assert_eq!(one.active_config().document, "one");
    assert!(one.perform(Effect::RetireConfig(config("one"))).is_none());
    assert_eq!(active(engine.configs()), None);
    assert_eq!(previous(engine.configs()), Some("one".to_string()));
    tx.send(change("two")).unwrap();
    assert_eq!(engine.wait_for_config(&mut rx), Waited::Again);
    let two: Session<(), ()> = engine.start_session(|r| requested.set(r)).unwrap();
    assert_eq!(two.active_config().document, "two");
    assert_eq!(previous(engine.configs()), Some("one".to_string()));
}

#[test]
fn services_are_started_only_if_the_engine_runs() {
    let mut params = EngineConfig {
        configname: None,
        statefilename: None,
        initial_volumes: [0; 5],
        initial_mutes: [false; 5],
        wait: false,
        ws_port: None,
        ws_address: String::new(),
        ws_cert: None,
        ws_pass: None,
    };
    assert_eq!(params.services(Startup::Proceed), vec![Service::Signals]);
    params.ws_port = Some(1234);
    params.statefilename = Some("state.yml".to_string());
    assert_eq!(
        params.services(Startup::Proceed),
        vec![Service::Signals, Service::Server(1234), Service::StateFile]
    );
    assert_eq!(params.services(Startup::Quit(101)), Vec::new());
    assert_eq!(params.services(Startup::QueueClosed), Vec::new());
}

#[test]
fn the_engine_after_a_session() {
    assert_eq!(after_session(&Ok(ExitState::Exit), true), Some(0));
    assert_eq!(after_session(&Ok(ExitState::Exit), false), Some(0));
    assert_eq!(after_session(&Ok(ExitState::Restart), true), None);
    assert_eq!(after_session(&Ok(ExitState::Restart), false), None);
    assert_eq!(after_session(&Err(EngineError::ControlClosed), true), None);
    assert_eq!(after_session(&Err(EngineError::ControlClosed), false), Some(102));
}

#[test]
fn the_configuration_cells_keep_what_is_stored() {
    let mut configs = SharedConfigs::new();
    assert_eq!(active(&configs), None);
    configs.activate(config("one"));
    let mut other = configs.clone();
    assert_eq!(active(&other), Some("one".to_string()));
    other.retire(config("one"));
    assert_eq!(active(&configs), None);
    assert_eq!(previous(&configs), Some("one".to_string()));
    other.activate(config("two"));
    other.remember(config("three"));
    assert_eq!(active(&configs), Some("two".to_string()));
    assert_eq!(previous(&configs), Some("three".to_string()));
    configs.deactivate();
    assert_eq!(active(&other), None);
}

#[test]
fn a_stop_reason_is_kept_when_playback_is_done() {
    let mut status = ProcessingStatus { stop_reason: StopReason::NotStopped };
    mark_done(&mut status);
    assert_eq!(status.stop_reason, StopReason::Done);
    let mut status = ProcessingStatus { stop_reason: StopReason::PlaybackFormatChange(8000) };
    mark_done(&mut status);
    assert_eq!(status.stop_reason, StopReason::PlaybackFormatChange(8000));
}

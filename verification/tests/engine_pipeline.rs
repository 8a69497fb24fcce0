use camilla_engine::config::{ConfigChange, Configuration, DeviceGroup, Devices};
use camilla_engine::engine_pipeline::{start_pipeline, EnginePipeline, PipelineSetup};
use camilla_engine::messages::{
    AudioMessage, CommandMessage, Disconnected, StatusMessage, StopReason,
};
use camilla_engine::shared::{ProcessingStatus, StatusStructs};
use parking_lot::RwLock;
use std::sync::Arc;

fn config(document: &str, limits: &[usize]) -> Configuration {
    let mut groups = Vec::new();
    for limit in limits {
        groups.push(DeviceGroup { queuelimit: *limit });
    }
    Configuration { document: document.to_string(), devices: Devices { groups } }
}

fn status() -> StatusStructs<&'static str> {
    let status = Arc::new(RwLock::new(ProcessingStatus { stop_reason: StopReason::NotStopped }));
    StatusStructs { status, devices: "devices" }
}

fn setup(limits: &[usize], group: usize) -> PipelineSetup<&'static str> {
    start_pipeline(&config("doc", limits), group, status())
}

#[test]
fn start_pipeline_wires_the_audio_from_capture_over_processing_to_playback() {
    let setup = setup(&[2, 7], 1);
    setup.capture.tx_cap.send(AudioMessage::Audio(vec![vec![1, 2]])).unwrap();
    assert_eq!(setup.processing.rx_cap.recv(), Ok(AudioMessage::Audio(vec![vec![1, 2]])));
    setup.processing.tx_pb.send(AudioMessage::EndOfStream).unwrap();
    assert_eq!(setup.playback.rx_pb.recv(), Ok(AudioMessage::EndOfStream));
    assert!(setup.processing.rx_cap.is_empty());
}

#[test]
fn start_pipeline_takes_the_queue_limit_of_the_group() {
    let setup = setup(&[2, 7], 1);
    assert_eq!(setup.capture.tx_cap.capacity(), Some(7));
    assert_eq!(setup.processing.tx_pb.capacity(), Some(7));
}

#[test]
fn start_pipeline_sets_no_limit_for_commands_updates_and_status() {
    let setup = setup(&[2, 7], 1);
    assert_eq!(setup.capture.tx_status.capacity(), None);
    assert_eq!(setup.playback.tx_status.capacity(), None);
    assert_eq!(setup.capture.rx_command_cap.capacity(), None);
    assert_eq!(setup.processing.rx_pipeconf.capacity(), None);
}

#[test]
fn start_pipeline_shares_one_barrier() {
    let setup = setup(&[2], 0);
    assert!(Arc::ptr_eq(&setup.processing.barrier, &setup.playback.barrier));
    assert!(Arc::ptr_eq(&setup.processing.barrier, &setup.capture.barrier));
}

#[test]
fn pipelines_share_no_barrier_and_no_channel() {
    let one = setup(&[2, 2], 0);
    let other = setup(&[2, 2], 1);
    assert!(!Arc::ptr_eq(&one.processing.barrier, &other.processing.barrier));
    assert!(!one.capture.tx_status.same_channel(&other.capture.tx_status));
    assert!(!one.capture.tx_cap.same_channel(&other.capture.tx_cap));
    assert!(!one.processing.tx_pb.same_channel(&other.processing.tx_pb));
    assert!(!one.capture.rx_command_cap.same_channel(&other.capture.rx_command_cap));
    assert!(!one.processing.rx_pipeconf.same_channel(&other.processing.rx_pipeconf));
}

#[test]
fn the_status_channel_is_disconnected_once_both_device_threads_are_gone() {
    let setup = setup(&[2], 0);
    let pipeline = setup.pipeline.attach(1, 2);
    setup.playback.tx_status.send(StatusMessage::PlaybackReady).unwrap();
    drop(setup.playback);
    setup.capture.tx_status.send(StatusMessage::CaptureReady).unwrap();
    drop(setup.capture);
    assert_eq!(pipeline.status_channel().recv(), Ok(StatusMessage::PlaybackReady));
    assert_eq!(pipeline.status_channel().recv(), Ok(StatusMessage::CaptureReady));
    assert!(pipeline.status_channel().recv().is_err());
}

#[test]
fn start_pipeline_connects_both_device_threads_to_the_supervisor() {
    let setup = setup(&[2], 0);
    setup.playback.tx_status.send(StatusMessage::PlaybackReady).unwrap();
    setup.capture.tx_status.send(StatusMessage::CaptureReady).unwrap();
    let pipeline = setup.pipeline.attach(1, 2);
    assert_eq!(pipeline.status_channel().recv(), Ok(StatusMessage::PlaybackReady));
    assert_eq!(pipeline.status_channel().recv(), Ok(StatusMessage::CaptureReady));
}

#[test]
fn a_new_pipeline_is_not_released() {
    let setup = setup(&[2, 3, 4], 2);
    assert_eq!(setup.pipeline.status().devices, "devices");
    let pipeline: EnginePipeline<&'static str, u8> = setup.pipeline.attach(1, 2);
    assert_eq!(pipeline.device_group(), 2);
    assert_eq!(pipeline.status().devices, "devices");
    assert!(!pipeline.barrier_released());
}

#[test]
fn the_barrier_is_not_released_before_both_sides_are_ready() {
    let setup = setup(&[2, 2], 0);
    let mut capture_only = setup.pipeline.attach(1, 2);
    assert!(!capture_only.release_barrier_if_ready());
    capture_only.set_capture_ready();
    assert!(!capture_only.release_barrier_if_ready());
    assert!(!capture_only.barrier_released());

    let mut playback_only = start_pipeline(&config("doc", &[1]), 0, status()).pipeline.attach(1, 2);
    playback_only.set_playback_ready();
    assert!(!playback_only.release_barrier_if_ready());
    assert!(!playback_only.barrier_released());
}

#[test]
fn commands_reach_the_capture_thread_in_order() {
    let setup = setup(&[2], 0);
    let rx_command = setup.capture.rx_command_cap;
    let mut pipeline = setup.pipeline.attach(1, 2);
    let speed = 1.01f64.to_bits();
    pipeline.send_capture_command(CommandMessage::SetSpeed { speed });
    pipeline.send_capture_command(CommandMessage::Exit);
    assert_eq!(rx_command.try_recv(), Ok(CommandMessage::SetSpeed { speed }));
    assert_eq!(rx_command.try_recv(), Ok(CommandMessage::Exit));
    drop(rx_command);
    // A capture thread that is gone is no error.
    pipeline.send_capture_command(CommandMessage::Exit);
}

#[test]
fn updates_reach_the_processing_thread() {
    let setup = setup(&[2], 0);
    let rx_pipeconf = setup.processing.rx_pipeconf;
    let mut pipeline = setup.pipeline.attach(1, 2);
    let change = ConfigChange::FilterParameters {
        filters: vec!["lowpass".to_string()],
        mixers: Vec::new(),
        processors: vec!["compressor".to_string()],
    };
    assert_eq!(pipeline.update_processing_config(change.clone(), config("new", &[9])), Ok(()));
    let (got, conf) = rx_pipeconf.try_recv().unwrap();
    match got {
        ConfigChange::FilterParameters { filters, mixers, processors } => {
            assert_eq!(filters, vec!["lowpass".to_string()]);
            assert!(mixers.is_empty());
            assert_eq!(processors, vec!["compressor".to_string()]);
        }
        other => panic!("{other:?}"),
    }
    assert_eq!(conf.document, "new");
    assert_eq!(conf.devices.group(0).queuelimit(), 9);
    drop(rx_pipeconf);
    assert_eq!(
        pipeline.update_processing_config(ConfigChange::Pipeline, config("new", &[9])),
        Err(Disconnected)
    );
}

#[test]
fn a_cloned_configuration_is_like_the_original() {
    let copy = config("text", &[4, 5]).clone();
    assert_eq!(copy.document, "text");
    assert_eq!(copy.devices.len(), 2);
    assert_eq!(copy.devices.group(1).queuelimit(), 5);
}

//! The pipeline of one device group: how its threads are wired up, when its
//! startup barrier is met, and how it is commanded and stopped.

use crate::channels::{
    audio_channel, audio_end, audio_limit, clone_status_sender, command_channel, command_end,
    command_limit, fits_in_memory, send_command, send_update, sent_commands, sent_updates,
    status_channel, status_end, status_limit, update_channel, update_end, update_limit,
};
use crate::config::{ChangeModel, ConfigChange, ConfigModel, Configuration};
use crate::messages::{AudioMessage, CommandMessage, Disconnected, StatusMessage};
use crate::shared::{meeting_place, parties, StartupBarrier, StatusStructs};
use crossbeam_channel::{Receiver, Sender};
use std::sync::{Arc, Barrier};
use vstd::prelude::*;

verus! {

/// How many threads meet at the startup barrier of a pipeline: capture,
/// playback, processing and the supervisor.
pub const BARRIER_PARTIES: usize = 4;

/// Supervisory handles for the running capture, processing and playback threads
/// of one device group. `D` is the state that the device threads keep, `H` what
/// a running thread is joined by.
#[derive(Debug)]
pub struct EnginePipeline<D, H> {
    /// The device group this pipeline drives.
    device_group: usize,
    /// Commands (set speed, exit) to the capture thread.
    tx_command_cap: Sender<CommandMessage>,
    /// Configuration updates to the processing thread.
    tx_pipeconf: Sender<(ConfigChange, Configuration)>,
    /// Status messages from this group's capture and playback threads.
    rx_status: Receiver<StatusMessage>,
    /// Startup barrier of capture, playback, processing and supervisor.
    barrier: StartupBarrier,
    pb_handle: H,
    cap_handle: H,
    /// Status of this group.
    status: StatusStructs<D>,
    pb_ready: bool,
    cap_ready: bool,
    /// Whether the supervisor has already met this group's startup barrier.
    barrier_released: bool,
}

/// What a pipeline has done and heard so far.
pub struct PipelineModel<D, H> {
    pub device_group: usize,
    /// The commands handed to the capture thread, each with whether it was taken.
    pub commands: Seq<(CommandMessage, bool)>,
    /// The updates handed to the processing thread, each with whether it was
    /// taken.
    pub updates: Seq<((ChangeModel, ConfigModel), bool)>,
    /// The times that the supervisor met the startup barrier: for each, the
    /// commands that the capture thread had been handed by then.
    pub meetings: Seq<Seq<(CommandMessage, bool)>>,
    pub playback_ready: bool,
    pub capture_ready: bool,
    pub released: bool,
    /// Which barrier the startup barrier is.
    pub place: int,
    /// How many threads meet at the startup barrier.
    pub parties: usize,
    /// How many commands may be on their way to the capture thread.
    pub command_limit: Option<usize>,
    /// How many updates may be on their way to the processing thread.
    pub update_limit: Option<usize>,
    pub rx_status: Receiver<StatusMessage>,
    pub rx_command: Receiver<CommandMessage>,
    pub rx_update: Receiver<(ConfigChange, Configuration)>,
    pub status: StatusStructs<D>,
    pub pb_handle: H,
    pub cap_handle: H,
}

impl<D, H> View for EnginePipeline<D, H> {
    type V = PipelineModel<D, H>;

    closed spec fn view(&self) -> PipelineModel<D, H> {
        PipelineModel {
            device_group: self.device_group,
            commands: sent_commands(self.tx_command_cap),
            updates: sent_updates(self.tx_pipeconf),
            meetings: self.barrier.meetings(),
            playback_ready: self.pb_ready,
            capture_ready: self.cap_ready,
            released: self.barrier_released,
            place: self.barrier.place(),
            parties: self.barrier.parties(),
            command_limit: command_limit(self.tx_command_cap),
            update_limit: update_limit(self.tx_pipeconf),
            rx_status: self.rx_status,
            rx_command: command_end(self.tx_command_cap),
            rx_update: update_end(self.tx_pipeconf),
            status: self.status,
            pb_handle: self.pb_handle,
            cap_handle: self.cap_handle,
        }
    }
}

impl<D, H> PipelineModel<D, H> {
    /// The barrier was met once if it was released and never otherwise, and it
    /// is released only when both device threads are ready. Commands and updates
    /// are sent without a limit, so that the supervisor never waits to send one.
    pub open spec fn wf(self) -> bool {
        &&& self.meetings.len() == if self.released { 1nat } else { 0nat }
        &&& self.released ==> self.playback_ready && self.capture_ready
        &&& self.parties == BARRIER_PARTIES
        &&& self.command_limit is None
        &&& self.update_limit is None
    }

    /// The same pipeline as `before`, but that a command was handed to its capture
    /// thread.
    pub open spec fn got_command(
        self,
        before: PipelineModel<D, H>,
        command: CommandMessage,
    ) -> bool {
        self == (PipelineModel {
            commands: before.commands.push((command, self.commands.last().1)),
            ..before
        })
    }

    /// The same pipeline after an update was handed to its processing thread.
    pub open spec fn updated(
        self,
        change: ChangeModel,
        config: ConfigModel,
        taken: bool,
    ) -> PipelineModel<D, H> {
        PipelineModel { updates: self.updates.push(((change, config), taken)), ..self }
    }

    /// The same pipeline once its barrier was released if both its device
    /// threads are ready.
    pub open spec fn released_if_ready(self) -> PipelineModel<D, H> {
        if !self.released && self.playback_ready && self.capture_ready {
            PipelineModel { released: true, meetings: self.meetings.push(self.commands), ..self }
        } else {
            self
        }
    }
}

impl<D> PipelineModel<D, ()> {
    /// The same pipeline with the handles of its threads.
    pub open spec fn attached<H>(self, pb_handle: H, cap_handle: H) -> PipelineModel<D, H> {
        PipelineModel {
            device_group: self.device_group,
            commands: self.commands,
            updates: self.updates,
            meetings: self.meetings,
            playback_ready: self.playback_ready,
            capture_ready: self.capture_ready,
            released: self.released,
            place: self.place,
            parties: self.parties,
            command_limit: self.command_limit,
            update_limit: self.update_limit,
            rx_status: self.rx_status,
            rx_command: self.rx_command,
            rx_update: self.rx_update,
            status: self.status,
            pb_handle,
            cap_handle,
        }
    }
}

/// What is left of a pipeline that was told to stop: the handles by which its
/// threads are to be joined, playback first, and the ends that are kept open
/// until then.
#[derive(Debug)]
pub struct StoppedPipeline<D, H> {
    pub pb_handle: H,
    pub cap_handle: H,
    pub tx_command_cap: Sender<CommandMessage>,
    pub tx_pipeconf: Sender<(ConfigChange, Configuration)>,
    pub rx_status: Receiver<StatusMessage>,
    pub barrier: StartupBarrier,
    pub status: StatusStructs<D>,
}

impl<D, H> StoppedPipeline<D, H> {
    /// These are the remains of a pipeline that handed an exit command to its
    /// capture thread and then met its barrier, unless it was met before.
    pub open spec fn remains_of(&self, pipeline: PipelineModel<D, H>) -> bool {
        &&& self.pb_handle == pipeline.pb_handle
        &&& self.cap_handle == pipeline.cap_handle
        &&& sent_commands(self.tx_command_cap) == pipeline.commands.push(
            (CommandMessage::Exit, sent_commands(self.tx_command_cap).last().1),
        )
        &&& sent_updates(self.tx_pipeconf) == pipeline.updates
        &&& self.barrier.meetings() == if pipeline.released {
            pipeline.meetings
        } else {
            pipeline.meetings.push(sent_commands(self.tx_command_cap))
        }
        &&& self.barrier.place() == pipeline.place
        &&& self.barrier.parties() == pipeline.parties
        &&& command_end(self.tx_command_cap) == pipeline.rx_command
        &&& update_end(self.tx_pipeconf) == pipeline.rx_update
        &&& self.rx_status == pipeline.rx_status
        &&& self.status == pipeline.status
    }
}

impl<D, H> EnginePipeline<D, H> {
    /// What is said of a pipeline is said of what it holds.
    proof fn law_view_shows_what_is_held(&self)
        ensures
            self@.device_group == self.device_group,
            self@.commands == sent_commands(self.tx_command_cap),
            self@.updates == sent_updates(self.tx_pipeconf),
            self@.meetings == self.barrier.meetings(),
            self@.playback_ready == self.pb_ready,
            self@.capture_ready == self.cap_ready,
            self@.released == self.barrier_released,
            self@.place == self.barrier.place(),
            self@.parties == self.barrier.parties(),
            self@.command_limit == command_limit(self.tx_command_cap),
            self@.update_limit == update_limit(self.tx_pipeconf),
            self@.rx_status == self.rx_status,
            self@.rx_command == command_end(self.tx_command_cap),
            self@.rx_update == update_end(self.tx_pipeconf),
            self@.status == self.status,
            self@.pb_handle == self.pb_handle,
            self@.cap_handle == self.cap_handle,
    {
    }

    /// See [`PipelineModel::wf`].
    pub open spec fn wf(&self) -> bool {
        self@.wf()
    }

    /// The device group this pipeline drives.
    pub fn device_group(&self) -> (group: usize)
        ensures
            group == self@.device_group,
    {
        self.device_group
    }

    /// Status of this group.
    pub fn status(&self) -> (status: &StatusStructs<D>)
        ensures
            *status == self@.status,
    {
        &self.status
    }

    /// Status channel from this group's capture and playback threads. Used by the
    /// supervisor to fan in over all groups.
    pub fn status_channel(&self) -> (rx: &Receiver<StatusMessage>)
        ensures
            *rx == self@.rx_status,
    {
        &self.rx_status
    }

    /// Whether this group has already met its startup barrier.
    pub fn barrier_released(&self) -> (released: bool)
        ensures
            released == self@.released,
    {
        self.barrier_released
    }

    /// When both capture and playback are ready, meet this group's startup
    /// barrier so its threads begin processing. Returns `true` once this group is
    /// past the barrier (whether it was released just now or already).
    pub fn release_barrier_if_ready(&mut self) -> (past: bool)
        requires
            old(self).wf(),
        ensures
            final(self).wf(),
            final(self)@ == old(self)@.released_if_ready(),
            past == final(self)@.released,
    {
        if self.barrier_released {
            return true;
        }
        if self.pb_ready && self.cap_ready {
            self.barrier.meet(&self.tx_command_cap);
            self.barrier_released = true;
            return true;
        }
        false
    }

    /// Tells the capture thread to exit and releases the startup barrier if it
    /// has not been met yet, so that the device and processing threads unblock.
    /// The playback and then the capture thread are to be joined by what is left.
    pub fn stop(self) -> (stopped: StoppedPipeline<D, H>)
        requires
            self.wf(),
        ensures
            stopped.remains_of(self@),
            stopped.barrier.meetings().len() == 1,
    {
        let mut tx_command_cap = self.tx_command_cap;
        let mut barrier = self.barrier;
        let _ = send_command(&mut tx_command_cap, CommandMessage::Exit);
        if !self.barrier_released {
            barrier.meet(&tx_command_cap);
        }
        StoppedPipeline {
            pb_handle: self.pb_handle,
            cap_handle: self.cap_handle,
            tx_command_cap,
            tx_pipeconf: self.tx_pipeconf,
            rx_status: self.rx_status,
            barrier,
            status: self.status,
        }
    }

    /// Send a configuration update to the processing thread. Fails if that
    /// thread is gone.
    pub fn update_processing_config(
        &mut self,
        change: ConfigChange,
        configuration: Configuration,
    ) -> (result: Result<(), Disconnected>)
        requires
            old(self).wf(),
        ensures
            final(self).wf(),
            final(self)@ == old(self)@.updated(change@, configuration@, result is Ok),
    {
        if send_update(&mut self.tx_pipeconf, change, configuration) {
            Ok(())
        } else {
            Err(Disconnected)
        }
    }

    /// Set playback readiness state
    pub fn set_playback_ready(&mut self)
        requires
            old(self).wf(),
        ensures
            final(self).wf(),
            final(self)@ == (PipelineModel { playback_ready: true, ..old(self)@ }),
    {
        self.pb_ready = true;
    }

    /// Set capture readiness state
    pub fn set_capture_ready(&mut self)
        requires
            old(self).wf(),
        ensures
            final(self).wf(),
            final(self)@ == (PipelineModel { capture_ready: true, ..old(self)@ }),
    {
        self.cap_ready = true;
    }

    /// Send a command to the capture thread. If that thread is gone already, the
    /// command is lost.
    pub fn send_capture_command(&mut self, command: CommandMessage)
        requires
            old(self).wf(),
        ensures
            final(self).wf(),
            final(self)@.got_command(old(self)@, command),
    {
        let _ = send_command(&mut self.tx_command_cap, command);
    }
}

/// What the processing thread of a pipeline gets.
#[derive(Debug)]
pub struct ProcessingEnds {
    pub barrier: Arc<Barrier>,
    pub tx_pb: Sender<AudioMessage>,
    pub rx_cap: Receiver<AudioMessage>,
    pub rx_pipeconf: Receiver<(ConfigChange, Configuration)>,
}

/// What the playback thread of a pipeline gets.
#[derive(Debug)]
pub struct PlaybackEnds {
    pub rx_pb: Receiver<AudioMessage>,
    pub barrier: Arc<Barrier>,
    pub tx_status: Sender<StatusMessage>,
}

/// What the capture thread of a pipeline gets.
#[derive(Debug)]
pub struct CaptureEnds {
    pub tx_cap: Sender<AudioMessage>,
    pub barrier: Arc<Barrier>,
    pub tx_status: Sender<StatusMessage>,
    pub rx_command_cap: Receiver<CommandMessage>,
}

/// The supervisor's side of a pipeline whose threads are not running yet.
#[derive(Debug)]
pub struct PendingPipeline<D> {
    device_group: usize,
    tx_command_cap: Sender<CommandMessage>,
    tx_pipeconf: Sender<(ConfigChange, Configuration)>,
    rx_status: Receiver<StatusMessage>,
    barrier: StartupBarrier,
    status: StatusStructs<D>,
}

impl<D> View for PendingPipeline<D> {
    type V = PipelineModel<D, ()>;

    closed spec fn view(&self) -> PipelineModel<D, ()> {
        PipelineModel {
            device_group: self.device_group,
            commands: sent_commands(self.tx_command_cap),
            updates: sent_updates(self.tx_pipeconf),
            meetings: self.barrier.meetings(),
            playback_ready: false,
            capture_ready: false,
            released: false,
            place: self.barrier.place(),
            parties: self.barrier.parties(),
            command_limit: command_limit(self.tx_command_cap),
            update_limit: update_limit(self.tx_pipeconf),
            rx_status: self.rx_status,
            rx_command: command_end(self.tx_command_cap),
            rx_update: update_end(self.tx_pipeconf),
            status: self.status,
            pb_handle: (),
            cap_handle: (),
        }
    }
}

impl<D> PendingPipeline<D> {
    /// What is said of a pipeline whose threads are not running yet is said of what it
    /// holds.
    proof fn law_view_shows_what_is_held(&self)
        ensures
            self@.device_group == self.device_group,
            self@.commands == sent_commands(self.tx_command_cap),
            self@.updates == sent_updates(self.tx_pipeconf),
            self@.meetings == self.barrier.meetings(),
            !self@.playback_ready && !self@.capture_ready && !self@.released,
            self@.place == self.barrier.place(),
            self@.parties == self.barrier.parties(),
            self@.command_limit == command_limit(self.tx_command_cap),
            self@.update_limit == update_limit(self.tx_pipeconf),
            self@.rx_status == self.rx_status,
            self@.rx_command == command_end(self.tx_command_cap),
            self@.rx_update == update_end(self.tx_pipeconf),
            self@.status == self.status,
    {
    }

    /// Status of this group.
    pub fn status(&self) -> (status: &StatusStructs<D>)
        ensures
            *status == self@.status,
    {
        &self.status
    }

    /// The pipeline, once its playback and capture threads run.
    pub fn attach<H>(self, pb_handle: H, cap_handle: H) -> (pipeline: EnginePipeline<D, H>)
        ensures
            pipeline@ == self@.attached(pb_handle, cap_handle),
    {
        EnginePipeline {
            device_group: self.device_group,
            tx_command_cap: self.tx_command_cap,
            tx_pipeconf: self.tx_pipeconf,
            rx_status: self.rx_status,
            barrier: self.barrier,
            pb_handle,
            cap_handle,
            status: self.status,
            pb_ready: false,
            cap_ready: false,
            barrier_released: false,
        }
    }
}

/// A pipeline that is wired up but whose threads are not running yet.
#[derive(Debug)]
pub struct PipelineSetup<D> {
    pub processing: ProcessingEnds,
    pub playback: PlaybackEnds,
    pub capture: CaptureEnds,
    pub pipeline: PendingPipeline<D>,
}

impl<D> PipelineSetup<D> {
    /// Audio goes from capture to processing and from processing to playback,
    /// over channels that hold up to `limit` messages each.
    pub open spec fn audio_wired(&self, limit: usize) -> bool {
        &&& audio_end(self.capture.tx_cap) == self.processing.rx_cap
        &&& audio_end(self.processing.tx_pb) == self.playback.rx_pb
        &&& audio_limit(self.capture.tx_cap) == Some(limit)
        &&& audio_limit(self.processing.tx_pb) == Some(limit)
    }

    /// Commands reach the capture thread, configuration updates the processing
    /// thread, and both device threads report to the supervisor. None of these
    /// channels has a limit.
    pub open spec fn control_wired(&self) -> bool {
        &&& self.pipeline@.rx_command == self.capture.rx_command_cap
        &&& self.pipeline@.rx_update == self.processing.rx_pipeconf
        &&& status_end(self.playback.tx_status) == self.pipeline@.rx_status
        &&& status_end(self.capture.tx_status) == self.pipeline@.rx_status
        &&& status_limit(self.playback.tx_status) is None
        &&& status_limit(self.capture.tx_status) is None
        &&& self.pipeline@.command_limit is None
        &&& self.pipeline@.update_limit is None
    }

    /// All threads meet at the barrier of the supervisor, which is for as many.
    pub open spec fn barrier_shared(&self) -> bool {
        &&& meeting_place(*self.processing.barrier) == self.pipeline@.place
        &&& meeting_place(*self.playback.barrier) == self.pipeline@.place
        &&& meeting_place(*self.capture.barrier) == self.pipeline@.place
        &&& parties(*self.processing.barrier) == BARRIER_PARTIES
        &&& parties(*self.playback.barrier) == BARRIER_PARTIES
        &&& parties(*self.capture.barrier) == BARRIER_PARTIES
    }
}

/// A pipeline in which nothing has happened yet.
pub open spec fn fresh_pipeline<D, H>(
    pipeline: PipelineModel<D, H>,
    device_group: usize,
    status: StatusStructs<D>,
) -> bool {
    &&& pipeline.wf()
    &&& pipeline.device_group == device_group
    &&& pipeline.status == status
    &&& pipeline.commands == Seq::<(CommandMessage, bool)>::empty()
    &&& pipeline.updates == Seq::<((ChangeModel, ConfigModel), bool)>::empty()
    &&& !pipeline.playback_ready
    &&& !pipeline.capture_ready
    &&& !pipeline.released
}

/// Opens the channels and the startup barrier for one `device_group` of
/// `active_config` and deals them out: what each of the three threads gets, and
/// what the supervisor keeps. The returned pipeline takes ownership of
/// `status_structs` and carries the channel on which the device threads report
/// their status.
pub fn start_pipeline<D>(
    active_config: &Configuration,
    device_group: usize,
    status_structs: StatusStructs<D>,
) -> (setup: PipelineSetup<D>)
    requires
        device_group < active_config@.devices.len(),
        fits_in_memory(active_config@.devices[device_group as int].queuelimit),
    ensures
        setup.audio_wired(active_config@.devices[device_group as int].queuelimit),
        setup.barrier_shared(),
        setup.control_wired(),
        fresh_pipeline(setup.pipeline@, device_group, status_structs),
{
    let limit: usize = active_config.devices.group(device_group).queuelimit();
    let (tx_pb, rx_pb) = audio_channel(limit);
    let (tx_cap, rx_cap) = audio_channel(limit);
    let (tx_status, rx_status) = status_channel();
    let (tx_command_cap, rx_command_cap) = command_channel();
    let (tx_pipeconf, rx_pipeconf) = update_channel();
    let barrier = StartupBarrier::new(BARRIER_PARTIES);
    PipelineSetup {
        processing: ProcessingEnds { barrier: barrier.handle(), tx_pb, rx_cap, rx_pipeconf },
        playback: PlaybackEnds {
            rx_pb,
            barrier: barrier.handle(),
            tx_status: clone_status_sender(&tx_status),
        },
        capture: CaptureEnds { tx_cap, barrier: barrier.handle(), tx_status, rx_command_cap },
        pipeline: PendingPipeline {
            device_group,
            tx_command_cap,
            tx_pipeconf,
            rx_status,
            barrier,
            status: status_structs,
        },
    }
}

} // verus!

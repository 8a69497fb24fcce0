//! One processing session: the supervisor of all pipelines, from the first
//! ready message of a device thread to the event that ends the session.
//!
//! [`Session::turn`] waits for one event and answers it. The session carries out
//! on its own what concerns its pipelines; the rest of the answer is a list of
//! [`Effect`]s, to be carried out in order with [`Session::perform`], which hands
//! back those that only the host of the session can carry out.

use crate::channels::{
    delivered_control, delivered_status, front, offered, picked, picked_index, queue_is_empty,
    seen_empty, standing, take_control, take_status, watch_control, watch_status, watched, Watch,
};
use crate::config::{ChangeModel, ConfigChange, ConfigModel, Configuration};
use crate::engine_pipeline::{EnginePipeline, PipelineModel, StoppedPipeline};
use crate::messages::{
    CommandMessage, ControllerMessage, ControllerModel, Disconnected, EngineError, ExitState,
    StatusMessage, StatusModel, StopModel, StopReason,
};
use crate::shared::{
    found_in, reason_when_done, source_of, status_place, status_source, status_updates,
    update_when_done, write_stop_reason, ConfigStores, ProcessingStatus, SharedConfigs, StatusSource,
};
use crossbeam_channel::{Receiver, Select, SelectedOperation};
use parking_lot::RwLock;
use std::sync::Arc;
use vstd::prelude::*;

verus! {

/// The fader that volume and mute messages of a device act on.
pub const MAIN_FADER: usize = 0;

/// The text of the stop reason when all threads of a group are gone.
pub const THREADS_GONE: &'static str = "Capture, Playback and Processing threads have exited";

/// The event that the supervisor woke up for: a controller command, or a status
/// message from the pipeline at the given index.
#[derive(Debug)]
pub enum SupervisorEvent {
    Control(Result<ControllerMessage, Disconnected>),
    Status(usize, Result<StatusMessage, Disconnected>),
}

/// A [`SupervisorEvent`] as mathematical values.
pub enum EventModel {
    Control(Result<ControllerModel, Disconnected>),
    Status(usize, Result<StatusModel, Disconnected>),
}

/// The mathematical value of what came out of the control channel.
pub open spec fn control_model(message: Result<ControllerMessage, Disconnected>) -> Result<
    ControllerModel,
    Disconnected,
> {
    match message {
        Ok(message) => Ok(message@),
        Err(err) => Err(err),
    }
}

/// The mathematical value of what came out of a status channel.
pub open spec fn status_model(message: Result<StatusMessage, Disconnected>) -> Result<
    StatusModel,
    Disconnected,
> {
    match message {
        Ok(message) => Ok(message@),
        Err(err) => Err(err),
    }
}

impl View for SupervisorEvent {
    type V = EventModel;

    open spec fn view(&self) -> EventModel {
        match self {
            SupervisorEvent::Control(message) => EventModel::Control(control_model(*message)),
            SupervisorEvent::Status(index, message) => EventModel::Status(
                *index,
                status_model(*message),
            ),
        }
    }
}

/// A part of the answer to an event. The index is that of a pipeline.
#[derive(Debug)]
pub enum Effect {
    /// Record why processing stopped, or that it runs.
    SetStopReason(StopReason),
    /// Record that playback has finished, unless a stop reason stands already.
    RecordDone,
    /// Stop every pipeline, first to last, and join its threads.
    StopPipelines,
    /// Leave no configuration active and remember this one as the previous one.
    RetireConfig(Configuration),
    /// Remember this configuration as the previous one.
    RememberConfig(Configuration),
    /// Make this configuration the active one.
    ActivateConfig(Configuration),
    /// Show the capture state as inactive.
    CaptureInactive,
    /// Show the processing and the resampler load of every pipeline as zero.
    ResetLoads,
    /// Find out how this configuration differs from the one that runs and hand
    /// the answer to [`Session::apply_change`].
    CompareConfig(Configuration),
    /// Show which capture channels a pipeline uses under the configuration that
    /// runs.
    RefreshChannels { index: usize, device_group: usize },
    /// Set the target volume of a fader, as the bit pattern of an `f32` in dB.
    SetTargetVolume { index: usize, fader: usize, volume: u32 },
    /// Mute or unmute a fader.
    SetMute { index: usize, fader: usize, mute: bool },
}

/// An [`Effect`] as mathematical values.
pub enum EffectModel {
    SetStopReason(StopModel),
    RecordDone,
    StopPipelines,
    RetireConfig(ConfigModel),
    RememberConfig(ConfigModel),
    ActivateConfig(ConfigModel),
    CaptureInactive,
    ResetLoads,
    CompareConfig(ConfigModel),
    RefreshChannels { index: usize, device_group: usize },
    SetTargetVolume { index: usize, fader: usize, volume: u32 },
    SetMute { index: usize, fader: usize, mute: bool },
}

impl View for Effect {
    type V = EffectModel;

    open spec fn view(&self) -> EffectModel {
        match *self {
            Effect::SetStopReason(reason) => EffectModel::SetStopReason(reason@),
            Effect::RecordDone => EffectModel::RecordDone,
            Effect::StopPipelines => EffectModel::StopPipelines,
            Effect::RetireConfig(config) => EffectModel::RetireConfig(config@),
            Effect::RememberConfig(config) => EffectModel::RememberConfig(config@),
            Effect::ActivateConfig(config) => EffectModel::ActivateConfig(config@),
            Effect::CaptureInactive => EffectModel::CaptureInactive,
            Effect::ResetLoads => EffectModel::ResetLoads,
            Effect::CompareConfig(config) => EffectModel::CompareConfig(config@),
            Effect::RefreshChannels { index, device_group } => EffectModel::RefreshChannels {
                index,
                device_group,
            },
            Effect::SetTargetVolume { index, fader, volume } => EffectModel::SetTargetVolume {
                index,
                fader,
                volume,
            },
            Effect::SetMute { index, fader, mute } => EffectModel::SetMute { index, fader, mute },
        }
    }
}

/// The answer to an event: what is to be done, in order, and how the session
/// ends, if it does.
#[derive(Debug)]
pub struct Reaction {
    pub effects: Vec<Effect>,
    pub outcome: Option<Result<ExitState, EngineError>>,
}

/// A [`Reaction`] as mathematical values.
#[verifier::ext_equal]
pub struct ReactionModel {
    pub effects: Seq<EffectModel>,
    pub outcome: Option<Result<ExitState, EngineError>>,
}

impl View for Reaction {
    type V = ReactionModel;

    open spec fn view(&self) -> ReactionModel {
        ReactionModel {
            effects: effect_models(self.effects@),
            outcome: self.outcome,
        }
    }
}

/// An answer that leaves the session running.
pub open spec fn go_on(effects: Seq<EffectModel>) -> ReactionModel {
    ReactionModel { effects, outcome: None }
}

/// An answer that ends the session.
pub open spec fn finish(effects: Seq<EffectModel>, exit: ExitState) -> ReactionModel {
    ReactionModel { effects, outcome: Some(Ok(exit)) }
}

/// How far the startup of a device group has come.
pub struct GroupState {
    pub device_group: usize,
    pub playback_ready: bool,
    pub capture_ready: bool,
    /// Whether the startup barrier was met.
    pub released: bool,
}

impl GroupState {
    /// The same group once its barrier was met if both device threads are ready.
    pub open spec fn released_if_ready(self) -> GroupState {
        GroupState {
            released: self.released || (self.playback_ready && self.capture_ready),
            ..self
        }
    }
}

/// What a session decides by.
#[verifier::ext_equal]
pub struct SessionState {
    pub groups: Seq<GroupState>,
    /// Whether some group has not started yet.
    pub starting: bool,
    /// The configuration that runs.
    pub active: ConfigModel,
}

impl SessionState {
    /// Every group has met its barrier.
    pub open spec fn all_released(self) -> bool {
        forall|i: int| 0 <= i < self.groups.len() ==> (#[trigger] self.groups[i]).released
    }

    /// The state after the given group became what `group` says: its barrier is
    /// met if it can be, and startup is over once every barrier was met.
    pub open spec fn noted(self, index: int, group: GroupState) -> SessionState {
        let met = SessionState {
            groups: self.groups.update(index, group.released_if_ready()),
            ..self
        };
        SessionState { starting: self.starting && !met.all_released(), ..met }
    }
}

/// The answer to a ready message: when startup is over, the stop reason of the
/// session before is cleared.
pub open spec fn ready_step(s: SessionState, index: int, group: GroupState) -> (
    SessionState,
    ReactionModel,
) {
    let after = s.noted(index, group);
    if s.starting && !after.starting {
        (after, go_on(seq![EffectModel::SetStopReason(StopModel::NotStopped)]))
    } else {
        (after, go_on(seq![]))
    }
}

/// The answer to a failure of a device: record why, stop everything, leave no
/// configuration active and look for the next one.
pub open spec fn failure(s: SessionState, reason: StopModel) -> ReactionModel {
    finish(
        seq![
            EffectModel::SetStopReason(reason),
            EffectModel::StopPipelines,
            EffectModel::RetireConfig(s.active),
            EffectModel::CaptureInactive,
        ],
        ExitState::Restart,
    )
}

/// What a session becomes, and what it answers, when the pipeline at `index`
/// reports something.
pub open spec fn status_step(
    s: SessionState,
    index: usize,
    message: Result<StatusModel, Disconnected>,
) -> (SessionState, ReactionModel) {
    let group = s.groups[index as int];
    match message {
        Ok(StatusModel::PlaybackReady) => ready_step(
            s,
            index as int,
            GroupState { playback_ready: true, ..group },
        ),
        Ok(StatusModel::CaptureReady) => ready_step(
            s,
            index as int,
            GroupState { capture_ready: true, ..group },
        ),
        Ok(StatusModel::PlaybackError(text)) => (s, failure(s, StopModel::PlaybackError(text))),
        Ok(StatusModel::CaptureError(text)) => (s, failure(s, StopModel::CaptureError(text))),
        Ok(StatusModel::PlaybackFormatChange(rate)) => (
            s,
            failure(s, StopModel::PlaybackFormatChange(rate)),
        ),
        Ok(StatusModel::CaptureFormatChange(rate)) => (
            s,
            failure(s, StopModel::CaptureFormatChange(rate)),
        ),
        Ok(StatusModel::PlaybackDone) => (
            s,
            finish(
                seq![
                    EffectModel::RecordDone,
                    EffectModel::RetireConfig(s.active),
                    EffectModel::StopPipelines,
                ],
                ExitState::Restart,
            ),
        ),
        Ok(StatusModel::CaptureDone) => (s, go_on(seq![])),
        Ok(StatusModel::SetSpeed(speed)) => (s, go_on(seq![])),
        Ok(StatusModel::SetVolume(volume)) => (
            s,
            go_on(seq![EffectModel::SetTargetVolume { index, fader: MAIN_FADER, volume }]),
        ),
        Ok(StatusModel::SetMute(mute)) => (
            s,
            go_on(seq![EffectModel::SetMute { index, fader: MAIN_FADER, mute }]),
        ),
        Err(_) => (s, failure(s, StopModel::UnknownError(THREADS_GONE@))),
    }
}

/// What a session answers to a controller command. `more` tells whether further
/// commands are queued: a new configuration is dropped in favour of them.
pub open spec fn control_step(
    s: SessionState,
    message: Result<ControllerModel, Disconnected>,
    more: bool,
) -> ReactionModel {
    match message {
        Ok(ControllerModel::ConfigChanged(config)) => if more {
            go_on(seq![])
        } else {
            go_on(seq![EffectModel::ResetLoads, EffectModel::CompareConfig(config)])
        },
        Ok(ControllerModel::Stop) => finish(
            seq![EffectModel::StopPipelines, EffectModel::RetireConfig(s.active)],
            ExitState::Restart,
        ),
        Ok(ControllerModel::Exit) => finish(
            seq![EffectModel::StopPipelines, EffectModel::RememberConfig(s.active)],
            ExitState::Exit,
        ),
        Err(_) => ReactionModel {
            effects: seq![],
            outcome: Some(Err(EngineError::ControlClosed)),
        },
    }
}

/// What a session becomes, and what it answers, on an event.
pub open spec fn step(s: SessionState, event: EventModel, more: bool) -> (
    SessionState,
    ReactionModel,
) {
    match event {
        EventModel::Control(message) => (s, control_step(s, message, more)),
        EventModel::Status(index, message) => status_step(s, index, message),
    }
}

/// Whether a change can be taken over by the processing threads as they run.
pub open spec fn takes_effect_live(change: ChangeModel) -> bool {
    change is Pipeline || change is MixerParameters || change is FilterParameters
}

/// What a session answers once it is known how a new configuration differs from
/// the one that runs, and what it becomes.
pub open spec fn change_step(s: SessionState, change: ChangeModel, config: ConfigModel) -> (
    SessionState,
    ReactionModel,
) {
    if takes_effect_live(change) {
        (
            SessionState { active: config, ..s },
            go_on(
                seq![EffectModel::ActivateConfig(config)] + Seq::new(
                    s.groups.len(),
                    |i: int|
                        EffectModel::RefreshChannels {
                            index: i as usize,
                            device_group: s.groups[i].device_group,
                        },
                ),
            ),
        )
    } else if change is Devices {
        (
            s,
            finish(
                seq![EffectModel::StopPipelines, EffectModel::ActivateConfig(config)],
                ExitState::Restart,
            ),
        )
    } else {
        (s, go_on(seq![]))
    }
}

/// The device group that gets the next pipeline when `count` of them have one, and
/// where its status comes from: the groups of a configuration in order, until each
/// has its pipeline.
pub open spec fn group_after(count: nat, config: ConfigModel) -> Option<(usize, StatusSource)> {
    if count < config.devices.len() {
        Some((count as usize, source_of(count as usize)))
    } else {
        None
    }
}

/// What a report of the pipeline at `index` makes of the pipelines: readiness is
/// noted, and a speed is passed on to the capture thread.
pub open spec fn pipelines_after_status<D, H>(
    before: Seq<PipelineModel<D, H>>,
    index: int,
    message: Result<StatusModel, Disconnected>,
    after: Seq<PipelineModel<D, H>>,
) -> bool {
    let pipeline = before[index];
    match message {
        Ok(StatusModel::PlaybackReady) => after == before.update(
            index,
            (PipelineModel { playback_ready: true, ..pipeline }).released_if_ready(),
        ),
        Ok(StatusModel::CaptureReady) => after == before.update(
            index,
            (PipelineModel { capture_ready: true, ..pipeline }).released_if_ready(),
        ),
        Ok(StatusModel::SetSpeed(speed)) => {
            &&& after == before.update(index, after[index])
            &&& after[index].got_command(pipeline, CommandMessage::SetSpeed { speed })
        },
        _ => after == before,
    }
}

/// What an event makes of the pipelines.
pub open spec fn pipelines_after<D, H>(
    before: Seq<PipelineModel<D, H>>,
    event: EventModel,
    after: Seq<PipelineModel<D, H>>,
) -> bool {
    match event {
        EventModel::Control(_) => after == before,
        EventModel::Status(index, message) => pipelines_after_status(
            before,
            index as int,
            message,
            after,
        ),
    }
}

/// For a command, `more` is whether the control channel was seen to hold further ones.
pub open spec fn looked_for_more(
    rx_ctrl: Receiver<ControllerMessage>,
    event: EventModel,
    more: bool,
) -> bool {
    event is Control ==> seen_empty(rx_ctrl, !more)
}

/// Whether an event can come up in a session: controller commands only once
/// startup is over, status messages from pipelines that there are.
pub open spec fn possible(s: SessionState, event: EventModel) -> bool {
    match event {
        EventModel::Control(_) => !s.starting,
        EventModel::Status(index, _) => index < s.groups.len(),
    }
}

/// The pipelines once the update was handed to the processing threads of the
/// first `count` of them, and each took it.
pub open spec fn first_updated<D, H>(
    before: Seq<PipelineModel<D, H>>,
    count: int,
    change: ChangeModel,
    config: ConfigModel,
) -> Seq<PipelineModel<D, H>> {
    Seq::new(
        before.len(),
        |i: int|
            if i < count {
                before[i].updated(change, config, true)
            } else {
                before[i]
            },
    )
}

/// Whether an effect is for the host of a session to carry out.
pub open spec fn is_for_host(effect: EffectModel) -> bool {
    match effect {
        EffectModel::SetStopReason(_) => false,
        EffectModel::RecordDone => false,
        EffectModel::RetireConfig(_) => false,
        EffectModel::RememberConfig(_) => false,
        EffectModel::ActivateConfig(_) => false,
        _ => true,
    }
}

/// What an effect stores in the configuration cells.
pub open spec fn stores_after(before: ConfigStores, effect: EffectModel) -> ConfigStores {
    match effect {
        EffectModel::RetireConfig(config) => ConfigStores {
            active: before.active.push(None),
            previous: before.previous.push(Some(config)),
            together: before.together.push((None, Some(config))),
            ..before
        },
        EffectModel::RememberConfig(config) => ConfigStores {
            previous: before.previous.push(Some(config)),
            ..before
        },
        EffectModel::ActivateConfig(config) => ConfigStores {
            active: before.active.push(Some(config)),
            ..before
        },
        _ => before,
    }
}

/// What an effect does to the run status: it sets the stop reason, or sets it
/// unless one stands already.
pub open spec fn reasons_after(
    before: Seq<(StopModel, StopModel)>,
    effect: EffectModel,
    after: Seq<(StopModel, StopModel)>,
) -> bool {
    match effect {
        EffectModel::SetStopReason(reason) => after == before.push((after.last().0, reason)),
        EffectModel::RecordDone => after == before.push(
            (after.last().0, reason_when_done(after.last().0)),
        ),
        _ => after == before,
    }
}

/// What a list of effects stores in the configuration cells.
pub open spec fn stores_after_all(before: ConfigStores, effects: Seq<EffectModel>) -> ConfigStores
    decreases effects.len(),
{
    if effects.len() == 0 {
        before
    } else {
        stores_after(stores_after_all(before, effects.drop_last()), effects.last())
    }
}

/// What a list of effects does to the run status.
pub open spec fn reasons_after_all(
    before: Seq<(StopModel, StopModel)>,
    effects: Seq<EffectModel>,
    after: Seq<(StopModel, StopModel)>,
) -> bool
    decreases effects.len(),
{
    if effects.len() == 0 {
        after == before
    } else {
        let last = effects.last();
        let between = if last is SetStopReason || last is RecordDone {
            after.drop_last()
        } else {
            after
        };
        &&& reasons_after_all(before, effects.drop_last(), between)
        &&& reasons_after(between, last, after)
    }
}

/// The mathematical values of a list of effects.
pub open spec fn effect_models(effects: Seq<Effect>) -> Seq<EffectModel> {
    Seq::new(effects.len(), |i: int| effects[i]@)
}

impl Reaction {
    /// An answer that asks for nothing.
    fn quiet() -> (reaction: Reaction)
        ensures
            reaction@ == go_on(seq![]),
    {
        let reaction = Reaction { effects: Vec::new(), outcome: None };
        assert(reaction@ =~= go_on(seq![]));
        reaction
    }

    /// An answer with one effect that leaves the session running.
    fn effect(effect: Effect) -> (reaction: Reaction)
        ensures
            reaction@ == go_on(seq![effect@]),
    {
        let reaction = Reaction { effects: vec![effect], outcome: None };
        assert(reaction@ =~= go_on(seq![effect@]));
        reaction
    }

    /// An answer with two effects.
    fn two(first: Effect, second: Effect, outcome: Option<Result<ExitState, EngineError>>) -> (reaction:
        Reaction)
        ensures
            reaction@ == (ReactionModel { effects: seq![first@, second@], outcome }),
    {
        let reaction = Reaction { effects: vec![first, second], outcome };
        assert(reaction@ =~= (ReactionModel { effects: seq![first@, second@], outcome }));
        reaction
    }
}

/// The supervisor of one processing session. `D` is the state that the device
/// threads keep, `H` what a running thread is joined by.
#[derive(Debug)]
pub struct Session<D, H> {
    pipelines: Vec<EnginePipeline<D, H>>,
    is_starting: bool,
    active_config: Configuration,
    shared_configs: SharedConfigs,
    run_status: Arc<RwLock<ProcessingStatus>>,
}

impl<D, H> Session<D, H> {
    /// The pipelines, in order.
    pub closed spec fn pipelines(&self) -> Seq<PipelineModel<D, H>> {
        Seq::new(self.pipelines@.len(), |i: int| self.pipelines@[i]@)
    }

    /// Whether some group has not started yet.
    pub closed spec fn starting(&self) -> bool {
        self.is_starting
    }

    /// The configuration that runs.
    pub closed spec fn active(&self) -> ConfigModel {
        self.active_config@
    }

    /// What this session stored in the configuration cells.
    pub closed spec fn stores(&self) -> ConfigStores {
        self.shared_configs@
    }

    /// The updates that this session made of the run status.
    pub closed spec fn reasons(&self) -> Seq<(StopModel, StopModel)> {
        status_updates(*self.run_status)
    }

    /// Which run status this session updates.
    pub closed spec fn status_place(&self) -> int {
        status_place(*self.run_status)
    }

    /// What the session decides by.
    pub open spec fn state(&self) -> SessionState {
        SessionState {
            groups: Seq::new(
                self.pipelines().len(),
                |i: int|
                    GroupState {
                        device_group: self.pipelines()[i].device_group,
                        playback_ready: self.pipelines()[i].playback_ready,
                        capture_ready: self.pipelines()[i].capture_ready,
                        released: self.pipelines()[i].released,
                    },
            ),
            starting: self.starting(),
            active: self.active(),
        }
    }

    /// Every pipeline met its barrier as often as it should, the pipelines are those
    /// of consecutive device groups, in order, and report into the run status of the
    /// session, and the configuration cells are different ones.
    pub closed spec fn wf(&self) -> bool {
        &&& forall|i: int| 0 <= i < self.pipelines@.len() ==> (#[trigger] self.pipelines@[i]).wf()
        &&& forall|i: int|
            0 <= i < self.pipelines@.len() ==> (#[trigger] self.pipelines@[i])@.device_group
                == self.pipelines@[0]@.device_group + i
        &&& forall|i: int|
            0 <= i < self.pipelines@.len() ==> status_place(
                *(#[trigger] self.pipelines@[i])@.status.status,
            ) == self.status_place()
        &&& self.shared_configs.wf()
    }

    /// While a pipeline belongs to a session, its startup barrier is met at most once
    /// through the supervisor's own handle, and only when both its device threads are
    /// ready.
    pub proof fn law_each_barrier_is_met_at_most_once(&self)
        requires
            self.wf(),
        ensures
            forall|i: int| 0 <= i < self.pipelines().len() ==> {
                let pipeline = #[trigger] self.pipelines()[i];
                &&& pipeline.meetings.len() == if pipeline.released { 1nat } else { 0nat }
                &&& pipeline.released ==> pipeline.playback_ready && pipeline.capture_ready
            },
    {
        assert forall|i: int| 0 <= i < self.pipelines().len() implies
            (#[trigger] self.pipelines()[i]).wf() by {
            assert(self.pipelines@[i].wf());
        }
    }

    /// The pipelines of a session are those of consecutive device groups, in order.
    pub proof fn law_pipelines_are_in_group_order(&self)
        requires
            self.wf(),
        ensures
            forall|i: int|
                0 <= i < self.pipelines().len() ==> (#[trigger] self.pipelines()[i]).device_group
                    == self.pipelines()[0].device_group + i,
    {
        assert forall|i: int| 0 <= i < self.pipelines().len() implies (
        #[trigger] self.pipelines()[i]).device_group == self.pipelines()[0].device_group + i by {
            assert(self.pipelines()[i] == self.pipelines@[i]@);
        }
    }

    /// All pipelines of a session share one run status, that of the session: a stop
    /// reason that the session records is the one that each of them shows.
    pub proof fn law_pipelines_share_the_run_status(&self)
        requires
            self.wf(),
        ensures
            forall|i: int|
                0 <= i < self.pipelines().len() ==> status_place(
                    *(#[trigger] self.pipelines()[i]).status.status,
                ) == self.status_place(),
    {
        assert forall|i: int| 0 <= i < self.pipelines().len() implies status_place(
            *(#[trigger] self.pipelines()[i]).status.status,
        ) == self.status_place() by {
            assert(self.pipelines()[i] == self.pipelines@[i]@);
        }
    }

    /// The pipelines are those of the first device groups of the configuration that
    /// runs, one for each, in order.
    pub open spec fn covers_first_groups(&self) -> bool {
        &&& self.pipelines().len() <= self.active().devices.len()
        &&& forall|i: int|
            0 <= i < self.pipelines().len() ==> (#[trigger] self.pipelines()[i]).device_group == i
    }

    /// What is said of a session is said of what it holds.
    proof fn law_views_show_what_is_held(&self)
        ensures
            self.pipelines().len() == self.pipelines@.len(),
            forall|i: int|
                0 <= i < self.pipelines@.len() ==> #[trigger] self.pipelines()[i]
                    == self.pipelines@[i]@,
            self.starting() == self.is_starting,
            self.active() == self.active_config@,
            self.stores() == self.shared_configs@,
            self.reasons() == status_updates(*self.run_status),
            self.status_place() == status_place(*self.run_status),
    {
    }

    /// Nothing was stored and no stop reason was touched since `before`, and the
    /// cells are the same.
    pub open spec fn kept_quiet_since(&self, before: &Session<D, H>) -> bool {
        &&& self.stores() == before.stores()
        &&& self.status_place() == before.status_place()
        &&& self.reasons() == before.reasons()
    }

    /// Begins a session with the configuration that is active at the moment, or
    /// quits if there is none.
    pub fn open(shared_configs: SharedConfigs, run_status: Arc<RwLock<ProcessingStatus>>) -> (result:
        Result<Session<D, H>, ExitState>)
        requires
            shared_configs.wf(),
        ensures
            match result {
                Ok(session) => {
                    &&& session.wf()
                    &&& session.pipelines() == Seq::<PipelineModel<D, H>>::empty()
                    &&& session.covers_first_groups()
                    &&& session.starting()
                    &&& found_in(*shared_configs.active_cell(), Some(session.active()))
                    &&& session.stores() == shared_configs@
                    &&& session.reasons() == status_updates(*run_status)
                    &&& session.status_place() == status_place(*run_status)
                },
                Err(exit) => {
                    &&& found_in(*shared_configs.active_cell(), None)
                    &&& exit == ExitState::Exit
                },
            },
    {
        let active = shared_configs.load_active();
        Self::open_with(active, shared_configs, run_status)
    }

    /// Begins a session with the given configuration, or quits if there is none.
    pub fn open_with(
        active: Option<Configuration>,
        shared_configs: SharedConfigs,
        run_status: Arc<RwLock<ProcessingStatus>>,
    ) -> (result: Result<Session<D, H>, ExitState>)
        requires
            shared_configs.wf(),
        ensures
            match active {
                Some(config) => {
                    &&& result is Ok
                    &&& result->Ok_0.wf()
                    &&& result->Ok_0.pipelines() == Seq::<PipelineModel<D, H>>::empty()
                    &&& result->Ok_0.covers_first_groups()
                    &&& result->Ok_0.starting()
                    &&& result->Ok_0.active() == config@
                    &&& result->Ok_0.stores() == shared_configs@
                    &&& result->Ok_0.reasons() == status_updates(*run_status)
                    &&& result->Ok_0.status_place() == status_place(*run_status)
                },
                None => result == Err::<Session<D, H>, _>(ExitState::Exit),
            },
    {
        match active {
            Some(active_config) => {
                let session = Session {
                    pipelines: Vec::new(),
                    is_starting: true,
                    active_config,
                    shared_configs,
                    run_status,
                };
                assert(session.pipelines() =~= Seq::<PipelineModel<D, H>>::empty());
                Ok(session)
            },
            None => Err(ExitState::Exit),
        }
    }

    /// The device group that is to get the next pipeline, and where its status comes
    /// from, or `None` once each group of the configuration has its pipeline.
    pub fn next_group(&self) -> (next: Option<(usize, StatusSource)>)
        ensures
            next == group_after(self.pipelines().len(), self.active()),
            self.covers_first_groups() ==> (next is None <==> self.pipelines().len()
                == self.active().devices.len()),
    {
        let group: usize = self.pipelines.len();
        if group < self.active_config.devices.len() {
            Some((group, status_source(group)))
        } else {
            None
        }
    }

    /// Adds the pipeline of the next device group.
    pub fn add_pipeline(&mut self, pipeline: EnginePipeline<D, H>)
        requires
            old(self).wf(),
            old(self).covers_first_groups(),
            old(self).pipelines().len() < old(self).active().devices.len(),
            pipeline.wf(),
            pipeline@.device_group == old(self).pipelines().len(),
            status_place(*pipeline@.status.status) == old(self).status_place(),
        ensures
            final(self).wf(),
            final(self).covers_first_groups(),
            final(self).pipelines() == old(self).pipelines().push(pipeline@),
            final(self).starting() == old(self).starting(),
            final(self).active() == old(self).active(),
            final(self).kept_quiet_since(old(self)),
    {
        self.pipelines.push(pipeline);
        assert(self.pipelines() =~= old(self).pipelines().push(pipeline@));
        assert forall|i: int| 0 <= i < self.pipelines@.len() implies (
        #[trigger] self.pipelines@[i])@.device_group == i by {
            assert(self.pipelines()[i] == self.pipelines@[i]@);
            if i < old(self).pipelines().len() {
                assert(old(self).pipelines()[i].device_group == i);
            }
        }
    }

    /// The number of pipelines.
    pub fn len(&self) -> (n: usize)
        ensures
            n == self.pipelines().len(),
    {
        self.pipelines.len()
    }

    /// The pipeline at an index.
    pub fn pipeline(&self, index: usize) -> (pipeline: &EnginePipeline<D, H>)
        requires
            index < self.pipelines().len(),
        ensures
            pipeline@ == self.pipelines()[index as int],
    {
        &self.pipelines[index]
    }

    /// The configuration that runs.
    pub fn active_config(&self) -> (config: &Configuration)
        ensures
            config@ == self.active(),
    {
        &self.active_config
    }

    /// Whether some group has not started yet.
    pub fn is_starting(&self) -> (starting: bool)
        ensures
            starting == self.starting(),
    {
        self.is_starting
    }

    /// The channels that the session waits on: the status channel of every pipeline,
    /// in order, and the control channel once startup is over.
    pub open spec fn watches(&self, rx_ctrl: Receiver<ControllerMessage>) -> Seq<Watch> {
        let statuses = Seq::new(
            self.pipelines().len(),
            |i: int| Watch::Status(self.pipelines()[i].rx_status),
        );
        if self.starting() {
            statuses
        } else {
            statuses.push(Watch::Control(rx_ctrl))
        }
    }

    /// A selected operation brought an event of this session: it was selected among
    /// all channels that the session waits on, and the event came out of the channel
    /// that it belongs to, a status message out of that of its pipeline, a command
    /// out of `rx_ctrl`, of which it was the oldest.
    pub open spec fn brought_by(
        &self,
        rx_ctrl: Receiver<ControllerMessage>,
        event: EventModel,
        oper: SelectedOperation<'_>,
    ) -> bool {
        &&& offered(oper) == self.watches(rx_ctrl)
        &&& picked_index(oper) < offered(oper).len()
        &&& picked(oper) == offered(oper)[picked_index(oper) as int]
        &&& match event {
            EventModel::Control(message) => {
                &&& picked_index(oper) == self.pipelines().len()
                &&& picked(oper) == Watch::Control(rx_ctrl)
                &&& message == delivered_control(oper)
                &&& message == front(standing(oper))
            },
            EventModel::Status(index, message) => {
                &&& picked_index(oper) == index
                &&& picked(oper) == Watch::Status(self.pipelines()[index as int].rx_status)
                &&& message == delivered_status(oper)
            },
        }
    }

    /// An event of this session came out of one of the channels that it waits on.
    pub open spec fn brought(&self, rx_ctrl: Receiver<ControllerMessage>, event: EventModel) -> bool {
        exists|oper: SelectedOperation<'_>| #[trigger] self.brought_by(rx_ctrl, event, oper)
    }

    /// Waits for a status message from any group, or, once startup is over, a
    /// controller command.
    pub fn next_event(&self, rx_ctrl: &Receiver<ControllerMessage>) -> (event: SupervisorEvent)
        requires
            self.pipelines().len() > 0 || !self.starting(),
        ensures
            possible(self.state(), event@),
            self.brought(*rx_ctrl, event@),
    {
        let mut sel = Select::new();
        let n: usize = self.pipelines.len();
        let mut i: usize = 0;
        while i < n
            invariant
                i <= n,
                n == self.pipelines@.len(),
                watched(sel).len() == i,
                forall|k: int|
                    0 <= k < i ==> #[trigger] watched(sel)[k] == Watch::Status(
                        self.pipelines@[k]@.rx_status,
                    ),
            decreases n - i,
        {
            let _ = watch_status(&mut sel, self.pipelines[i].status_channel());
            i += 1;
        }
        if !self.is_starting {
            let _ = watch_control(&mut sel, rx_ctrl);
        }
        assert(watched(sel) =~= self.watches(*rx_ctrl));
        let oper = sel.select();
        let index: usize = oper.index();
        let ghost selected = oper;
        let event = if index == n {
            match take_control(oper, rx_ctrl) {
                Ok(message) => SupervisorEvent::Control(Ok(message)),
                Err(_) => SupervisorEvent::Control(Err(Disconnected)),
            }
        } else {
            match take_status(oper, self.pipelines[index].status_channel()) {
                Ok(message) => SupervisorEvent::Status(index, Ok(message)),
                Err(_) => SupervisorEvent::Status(index, Err(Disconnected)),
            }
        };
        assert(self.brought_by(*rx_ctrl, event@, selected));
        event
    }

    /// Whether every group has met its startup barrier.
    fn all_barriers_released(&self) -> (all: bool)
        ensures
            all == self.state().all_released(),
    {
        let n: usize = self.pipelines.len();
        let mut i: usize = 0;
        while i < n
            invariant
                i <= n,
                n == self.pipelines@.len(),
                forall|k: int| 0 <= k < i ==> (#[trigger] self.state().groups[k]).released,
            decreases n - i,
        {
            if !self.pipelines[i].barrier_released() {
                assert(!self.state().groups[i as int].released);
                return false;
            }
            i += 1;
        }
        true
    }

    /// Records readiness of `group`: releases its startup barrier once both its
    /// capture and playback threads are ready, and once every group has been
    /// released, finishes startup. Returns whether startup is over just now.
    fn note_group_ready(&mut self, group: usize) -> (started: bool)
        requires
            old(self).wf(),
            group < old(self).pipelines().len(),
        ensures
            final(self).wf(),
            final(self).state() == old(self).state().noted(
                group as int,
                old(self).state().groups[group as int],
            ),
            final(self).pipelines() == old(self).pipelines().update(
                group as int,
                old(self).pipelines()[group as int].released_if_ready(),
            ),
            final(self).kept_quiet_since(old(self)),
            started == (old(self).starting() && !final(self).starting()),
    {
        let past = self.pipelines[group].release_barrier_if_ready();
        assert(self.pipelines() =~= old(self).pipelines().update(
            group as int,
            old(self).pipelines()[group as int].released_if_ready(),
        ));
        assert(self.state().groups =~= old(self).state().noted(
            group as int,
            old(self).state().groups[group as int],
        ).groups);
        if past && self.is_starting && self.all_barriers_released() {
            self.is_starting = false;
            true
        } else {
            assert(!past ==> !self.state().groups[group as int].released);
            false
        }
    }

    /// What follows for the views when one pipeline of a session was replaced.
    proof fn lemma_one_pipeline_changed(
        &self,
        before: &Session<D, H>,
        index: int,
        pipeline: PipelineModel<D, H>,
    )
        requires
            0 <= index < before.pipelines@.len(),
            self.pipelines@.len() == before.pipelines@.len(),
            self.pipelines@[index]@ == pipeline,
            forall|k: int|
                0 <= k < before.pipelines@.len() && k != index ==> #[trigger] self.pipelines@[k]
                    == before.pipelines@[k],
        ensures
            self.pipelines() == before.pipelines().update(index, pipeline),
            self.state().groups == before.state().groups.update(
                index,
                GroupState {
                    device_group: pipeline.device_group,
                    playback_ready: pipeline.playback_ready,
                    capture_ready: pipeline.capture_ready,
                    released: pipeline.released,
                },
            ),
    {
        assert(self.pipelines() =~= before.pipelines().update(index, pipeline));
        assert(self.state().groups =~= before.state().groups.update(
            index,
            GroupState {
                device_group: pipeline.device_group,
                playback_ready: pipeline.playback_ready,
                capture_ready: pipeline.capture_ready,
                released: pipeline.released,
            },
        ));
    }

    /// What follows for the views when one pipeline of `before` became what `pipeline`
    /// says, in `marked`, and its readiness was then noted.
    proof fn lemma_ready_noted(
        &self,
        before: &Session<D, H>,
        marked: &Session<D, H>,
        index: int,
        pipeline: PipelineModel<D, H>,
    )
        requires
            0 <= index < before.pipelines@.len(),
            marked.pipelines@.len() == before.pipelines@.len(),
            marked.pipelines@[index]@ == pipeline,
            forall|k: int|
                0 <= k < before.pipelines@.len() && k != index ==> #[trigger] marked.pipelines@[k]
                    == before.pipelines@[k],
            marked.starting() == before.starting(),
            marked.active() == before.active(),
            self.pipelines() == marked.pipelines().update(index, pipeline.released_if_ready()),
            self.state() == marked.state().noted(index, marked.state().groups[index]),
        ensures
            self.pipelines() == before.pipelines().update(index, pipeline.released_if_ready()),
            self.state() == before.state().noted(
                index,
                GroupState {
                    device_group: pipeline.device_group,
                    playback_ready: pipeline.playback_ready,
                    capture_ready: pipeline.capture_ready,
                    released: pipeline.released,
                },
            ),
    {
        marked.lemma_one_pipeline_changed(before, index, pipeline);
        let group = marked.state().groups[index];
        assert(self.pipelines() =~= before.pipelines().update(index, pipeline.released_if_ready()));
        assert(marked.state().groups.update(index, group.released_if_ready())
            =~= before.state().groups.update(index, group.released_if_ready()));
    }

    /// Answers a fatal device event: record the stop reason, stop all pipelines,
    /// retire the active configuration, and restart.
    fn fail_and_restart(&self, stop_reason: StopReason) -> (reaction: Reaction)
        ensures
            reaction@ == failure(self.state(), stop_reason@),
    {
        let reaction = Reaction {
            effects: vec![
                Effect::SetStopReason(stop_reason),
                Effect::StopPipelines,
                Effect::RetireConfig(self.active_config.clone()),
                Effect::CaptureInactive,
            ],
            outcome: Some(Ok(ExitState::Restart)),
        };
        assert(reaction@ =~= failure(self.state(), stop_reason@));
        reaction
    }

    /// Answers the readiness of a device thread, once it was noted.
    fn after_ready(started: bool) -> (reaction: Reaction)
        ensures
            reaction@ == go_on(
                if started {
                    seq![EffectModel::SetStopReason(StopModel::NotStopped)]
                } else {
                    seq![]
                },
            ),
    {
        if started {
            Reaction::effect(Effect::SetStopReason(StopReason::NotStopped))
        } else {
            Reaction::quiet()
        }
    }

    /// Answers what came out of the status channel of a pipeline.
    pub fn on_status(&mut self, index: usize, message: Result<StatusMessage, Disconnected>) -> (reaction:
        Reaction)
        requires
            old(self).wf(),
            index < old(self).pipelines().len(),
        ensures
            final(self).wf(),
            (final(self).state(), reaction@) == status_step(
                old(self).state(),
                index,
                status_model(message),
            ),
            pipelines_after_status(
                old(self).pipelines(),
                index as int,
                status_model(message),
                final(self).pipelines(),
            ),
            final(self).kept_quiet_since(old(self)),
    {
        match message {
            Ok(StatusMessage::PlaybackReady) => {
                self.pipelines[index].set_playback_ready();
                let ghost marked = *self;
                let started = self.note_group_ready(index);
                proof {
                    self.lemma_ready_noted(
                        old(self),
                        &marked,
                        index as int,
                        PipelineModel { playback_ready: true, ..old(self).pipelines()[index as int] },
                    );
                }
                Self::after_ready(started)
            },
            Ok(StatusMessage::CaptureReady) => {
                self.pipelines[index].set_capture_ready();
                let ghost marked = *self;
                let started = self.note_group_ready(index);
                proof {
                    self.lemma_ready_noted(
                        old(self),
                        &marked,
                        index as int,
                        PipelineModel { capture_ready: true, ..old(self).pipelines()[index as int] },
                    );
                }
                Self::after_ready(started)
            },
            Ok(StatusMessage::PlaybackError(message)) => self.fail_and_restart(
                StopReason::PlaybackError(message),
            ),
            Ok(StatusMessage::CaptureError(message)) => self.fail_and_restart(
                StopReason::CaptureError(message),
            ),
            Ok(StatusMessage::PlaybackFormatChange(rate)) => self.fail_and_restart(
                StopReason::PlaybackFormatChange(rate),
            ),
            Ok(StatusMessage::CaptureFormatChange(rate)) => self.fail_and_restart(
                StopReason::CaptureFormatChange(rate),
            ),
            Ok(StatusMessage::PlaybackDone) => {
                let reaction = Reaction {
                    effects: vec![
                        Effect::RecordDone,
                        Effect::RetireConfig(self.active_config.clone()),
                        Effect::StopPipelines,
                    ],
                    outcome: Some(Ok(ExitState::Restart)),
                };
                assert(reaction@ =~= status_step(
                    old(self).state(),
                    index,
                    status_model(message),
                ).1);
                reaction
            },
            Ok(StatusMessage::CaptureDone) => Reaction::quiet(),
            Ok(StatusMessage::SetSpeed(speed)) => {
                self.pipelines[index].send_capture_command(CommandMessage::SetSpeed { speed });
                proof {
                    self.lemma_one_pipeline_changed(
                        old(self),
                        index as int,
                        self.pipelines@[index as int]@,
                    );
                    assert(self.state() =~= old(self).state());
                }
                Reaction::quiet()
            },
            Ok(StatusMessage::SetVolume(volume)) => Reaction::effect(
                Effect::SetTargetVolume { index, fader: MAIN_FADER, volume },
            ),
            Ok(StatusMessage::SetMute(mute)) => Reaction::effect(
                Effect::SetMute { index, fader: MAIN_FADER, mute },
            ),
            Err(_) => self.fail_and_restart(StopReason::UnknownError(THREADS_GONE.to_string())),
        }
    }

    /// Answers what came out of the control channel. `more` tells whether further
    /// commands are queued.
    pub fn on_control(&self, message: Result<ControllerMessage, Disconnected>, more: bool) -> (reaction:
        Reaction)
        ensures
            reaction@ == control_step(self.state(), control_model(message), more),
    {
        match message {
            Ok(ControllerMessage::ConfigChanged(new_conf)) => if more {
                Reaction::quiet()
            } else {
                Reaction::two(Effect::ResetLoads, Effect::CompareConfig(*new_conf), None)
            },
            Ok(ControllerMessage::Stop) => Reaction::two(
                Effect::StopPipelines,
                Effect::RetireConfig(self.active_config.clone()),
                Some(Ok(ExitState::Restart)),
            ),
            Ok(ControllerMessage::Exit) => Reaction::two(
                Effect::StopPipelines,
                Effect::RememberConfig(self.active_config.clone()),
                Some(Ok(ExitState::Exit)),
            ),
            Err(_) => {
                let reaction = Reaction {
                    effects: Vec::new(),
                    outcome: Some(Err(EngineError::ControlClosed)),
                };
                assert(reaction@ =~= control_step(self.state(), control_model(message), more));
                reaction
            },
        }
    }

    /// `after` and `reaction` are the answer of `self` to an event.
    pub open spec fn answered(
        &self,
        event: EventModel,
        more: bool,
        after: &Session<D, H>,
        reaction: ReactionModel,
    ) -> bool {
        &&& (after.state(), reaction) == step(self.state(), event, more)
        &&& pipelines_after(self.pipelines(), event, after.pipelines())
        &&& after.kept_quiet_since(self)
    }

    /// Answers an event. Whether further commands are queued in `rx_ctrl` is up to
    /// the threads that send them: a command is answered by what was seen of it.
    pub fn react(&mut self, event: SupervisorEvent, rx_ctrl: &Receiver<ControllerMessage>) -> (reaction:
        Reaction)
        requires
            old(self).wf(),
            event@ matches EventModel::Status(index, _) ==> index < old(self).pipelines().len(),
        ensures
            final(self).wf(),
            exists|more: bool|
                {
                    &&& looked_for_more(*rx_ctrl, event@, more)
                    &&& #[trigger] old(self).answered(event@, more, final(self), reaction@)
                },
    {
        match event {
            SupervisorEvent::Control(message) => {
                let more = !queue_is_empty(rx_ctrl);
                let reaction = self.on_control(message, more);
                assert(old(self).answered(event@, more, self, reaction@));
                reaction
            },
            SupervisorEvent::Status(index, message) => {
                let reaction = self.on_status(index, message);
                assert(old(self).answered(event@, false, self, reaction@));
                reaction
            },
        }
    }

    /// Waits for one event and answers it. The contract leaves open whether the
    /// control channel was looked at before or after the event was taken; that of
    /// [`Session::next_event`] followed by [`Session::react`] does not.
    pub fn turn(&mut self, rx_ctrl: &Receiver<ControllerMessage>) -> (reaction: Reaction)
        requires
            old(self).wf(),
            old(self).pipelines().len() > 0 || !old(self).starting(),
        ensures
            final(self).wf(),
            exists|event: EventModel, more: bool|
                {
                    &&& possible(old(self).state(), event)
                    &&& old(self).brought(*rx_ctrl, event)
                    &&& looked_for_more(*rx_ctrl, event, more)
                    &&& #[trigger] old(self).answered(event, more, final(self), reaction@)
                },
    {
        let event = self.next_event(rx_ctrl);
        self.react(event, rx_ctrl)
    }

    /// Hands an update to the processing thread of every pipeline, first to last.
    /// Stops at the first one that is gone and returns its index.
    fn update_pipelines(&mut self, change: &ConfigChange, config: &Configuration) -> (result: Result<
        (),
        usize,
    >)
        requires
            old(self).wf(),
        ensures
            final(self).wf(),
            final(self).state() == old(self).state(),
            final(self).kept_quiet_since(old(self)),
            match result {
                Ok(()) => final(self).pipelines() == first_updated(
                    old(self).pipelines(),
                    old(self).pipelines().len() as int,
                    change@,
                    config@,
                ),
                Err(gone) => {
                    &&& gone < old(self).pipelines().len()
                    &&& final(self).pipelines() == first_updated(
                        old(self).pipelines(),
                        gone as int,
                        change@,
                        config@,
                    ).update(
                        gone as int,
                        old(self).pipelines()[gone as int].updated(change@, config@, false),
                    )
                },
            },
    {
        let n: usize = self.pipelines.len();
        let mut i: usize = 0;
        assert(self.pipelines() =~= first_updated(old(self).pipelines(), 0, change@, config@));
        while i < n
            invariant
                i <= n,
                n == self.pipelines@.len(),
                n == old(self).pipelines().len(),
                self.wf(),
                self.state() == old(self).state(),
                self.kept_quiet_since(old(self)),
                self.pipelines() == first_updated(
                    old(self).pipelines(),
                    i as int,
                    change@,
                    config@,
                ),
            decreases n - i,
        {
            let ghost before = *self;
            assert(before.pipelines()[i as int] == old(self).pipelines()[i as int]);
            let result = self.pipelines[i].update_processing_config(change.clone(), config.clone());
            proof {
                self.lemma_one_pipeline_changed(
                    &before,
                    i as int,
                    old(self).pipelines()[i as int].updated(change@, config@, result is Ok),
                );
                assert(self.state() =~= old(self).state());
            }
            if result.is_err() {
                return Err(i);
            }
            assert(self.pipelines() =~= first_updated(
                old(self).pipelines(),
                i + 1,
                change@,
                config@,
            ));
            i += 1;
        }
        Ok(())
    }

    /// `after` and `result` are what came of it when `self` took over a configuration
    /// that differs from the one that runs as `change` says.
    pub open spec fn took_over(
        &self,
        change: ChangeModel,
        config: ConfigModel,
        after: &Session<D, H>,
        result: Result<ReactionModel, usize>,
    ) -> bool {
        &&& after.kept_quiet_since(self)
        &&& match result {
            Ok(reaction) => {
                &&& (after.state(), reaction) == change_step(self.state(), change, config)
                &&& after.pipelines() == if takes_effect_live(change) {
                    first_updated(
                        self.pipelines(),
                        self.pipelines().len() as int,
                        change,
                        config,
                    )
                } else {
                    self.pipelines()
                }
            },
            Err(gone) => {
                &&& takes_effect_live(change)
                &&& gone < self.pipelines().len()
                &&& after.state() == self.state()
                &&& after.pipelines() == first_updated(
                    self.pipelines(),
                    gone as int,
                    change,
                    config,
                ).update(gone as int, self.pipelines()[gone as int].updated(change, config, false))
            },
        }
    }

    /// Takes over a new configuration, now that it is known how it differs from
    /// the one that runs. Every group's processing thread rebuilds its own chain
    /// from the new configuration, unless the devices differ, which takes a
    /// restart, or nothing does. Fails with the index of a pipeline whose
    /// processing thread is gone.
    pub fn apply_change(&mut self, change: ConfigChange, new_conf: Configuration) -> (result: Result<
        Reaction,
        usize,
    >)
        requires
            old(self).wf(),
        ensures
            final(self).wf(),
            old(self).took_over(
                change@,
                new_conf@,
                final(self),
                match result {
                    Ok(reaction) => Ok(reaction@),
                    Err(gone) => Err(gone),
                },
            ),
    {
        match change {
            ConfigChange::Devices => Ok(
                Reaction::two(
                    Effect::StopPipelines,
                    Effect::ActivateConfig(new_conf),
                    Some(Ok(ExitState::Restart)),
                ),
            ),
            ConfigChange::Unchanged => Ok(Reaction::quiet()),
            _ => {
                match self.update_pipelines(&change, &new_conf) {
                    Err(gone) => Err(gone),
                    Ok(()) => {
                        let ghost updated = *self;
                        self.active_config = new_conf.clone();
                        assert(self.pipelines() =~= updated.pipelines());
                        assert(self.state() =~= (SessionState {
                            active: new_conf@,
                            ..old(self).state()
                        }));
                        let reaction = Reaction {
                            effects: self.refreshed(new_conf),
                            outcome: None,
                        };
                        let ghost expected = change_step(old(self).state(), change@, new_conf@).1;
                        assert forall|k: int| 0 <= k < expected.effects.len() implies
                            #[trigger] reaction@.effects[k] == expected.effects[k] by {
                            if k > 0 {
                                assert(reaction.effects@[(k - 1) + 1]@ == expected.effects[k]);
                            }
                        }
                        assert(reaction@ =~= expected);
                        Ok(reaction)
                    },
                }
            },
        }
    }

    /// The effects of a configuration that was taken over: it becomes the active
    /// one, and the used channels of every pipeline are shown anew.
    fn refreshed(&self, config: Configuration) -> (effects: Vec<Effect>)
        ensures
            effects@.len() == 1 + self.pipelines().len(),
            effects@[0]@ == EffectModel::ActivateConfig(config@),
            forall|i: int|
                0 <= i < self.pipelines().len() ==> (#[trigger] effects@[i + 1])@
                    == (EffectModel::RefreshChannels {
                    index: i as usize,
                    device_group: self.pipelines()[i].device_group,
                }),
    {
        let mut effects: Vec<Effect> = Vec::new();
        effects.push(Effect::ActivateConfig(config));
        let n: usize = self.pipelines.len();
        let mut i: usize = 0;
        while i < n
            invariant
                i <= n,
                n == self.pipelines@.len(),
                effects@.len() == 1 + i,
                effects@[0]@ == EffectModel::ActivateConfig(config@),
                forall|k: int|
                    0 <= k < i ==> (#[trigger] effects@[k + 1])@ == (EffectModel::RefreshChannels {
                        index: k as usize,
                        device_group: self.pipelines()[k].device_group,
                    }),
            decreases n - i,
        {
            let ghost before = effects@;
            effects.push(
                Effect::RefreshChannels {
                    index: i,
                    device_group: self.pipelines[i].device_group(),
                },
            );
            assert(forall|k: int| 0 <= k < i ==> #[trigger] effects@[k + 1] == before[k + 1]);
            i += 1;
        }
        effects
    }

    /// Tells the first pipeline that is left to stop and takes it out of the
    /// session. Its threads are to be joined before the next one is told.
    pub fn stop_next(&mut self) -> (stopped: Option<StoppedPipeline<D, H>>)
        requires
            old(self).wf(),
        ensures
            final(self).wf(),
            final(self).starting() == old(self).starting(),
            final(self).active() == old(self).active(),
            final(self).kept_quiet_since(old(self)),
            match stopped {
                Some(stopped) => {
                    &&& old(self).pipelines().len() > 0
                    &&& stopped.remains_of(old(self).pipelines()[0])
                    &&& final(self).pipelines() == old(self).pipelines().drop_first()
                },
                None => {
                    &&& old(self).pipelines().len() == 0
                    &&& final(self).pipelines() == old(self).pipelines()
                },
            },
    {
        if self.pipelines.len() == 0 {
            return None;
        }
        let pipeline = self.pipelines.remove(0);
        assert(self.pipelines() =~= old(self).pipelines().drop_first());
        Some(pipeline.stop())
    }

    /// Every pipeline of `before`, first to last, was told to stop and then had its
    /// threads joined by `join`.
    pub open spec fn stopped_all<F: Fn(&Session<D, H>, H, H)>(
        before: Seq<PipelineModel<D, H>>,
        join: F,
    ) -> bool {
        exists|remains: Seq<StoppedPipeline<D, H>>, left: Seq<Session<D, H>>| #[trigger]
            Self::joined_all(before, join, remains, left)
    }

    /// These are the remains of the pipelines of `before`, and `join` was called on
    /// the handles of each at a time when the session, which it was shown, still held
    /// all later pipelines as they were, and no other.
    pub open spec fn joined_all<F: Fn(&Session<D, H>, H, H)>(
        before: Seq<PipelineModel<D, H>>,
        join: F,
        remains: Seq<StoppedPipeline<D, H>>,
        left: Seq<Session<D, H>>,
    ) -> bool {
        &&& remains.len() == before.len()
        &&& left.len() == before.len()
        &&& forall|i: int|
            0 <= i < before.len() ==> {
                &&& (#[trigger] remains[i]).remains_of(before[i])
                &&& left[i].pipelines() == before.skip(i + 1)
                &&& call_ensures(
                    join,
                    (&left[i], remains[i].pb_handle, remains[i].cap_handle),
                    (),
                )
            }
    }

    /// Stops every pipeline in the session, first to last: each tells its capture
    /// thread to exit, releases its startup barrier if it has not been met yet,
    /// and has its playback and its capture thread joined by `join` before the
    /// next one is told. `join` is shown the session with the pipelines that are
    /// still to be told. Leaves the session without pipelines.
    pub fn stop_all_pipelines<F: Fn(&Session<D, H>, H, H)>(&mut self, join: F)
        requires
            old(self).wf(),
            forall|left: &Session<D, H>, pb: H, cap: H| call_requires(join, (left, pb, cap)),
        ensures
            final(self).wf(),
            final(self).pipelines() == Seq::<PipelineModel<D, H>>::empty(),
            Self::stopped_all(old(self).pipelines(), join),
            final(self).starting() == old(self).starting(),
            final(self).active() == old(self).active(),
            final(self).kept_quiet_since(old(self)),
    {
        let ghost mut remains: Seq<StoppedPipeline<D, H>> = seq![];
        let ghost mut left: Seq<Session<D, H>> = seq![];
        let ghost all = self.pipelines();
        assert(all =~= all.skip(0));
        while self.pipelines.len() > 0
            invariant
                self.wf(),
                forall|left: &Session<D, H>, pb: H, cap: H| call_requires(join, (left, pb, cap)),
                all == old(self).pipelines(),
                remains.len() == left.len() <= all.len(),
                self.pipelines() == all.skip(remains.len() as int),
                forall|i: int|
                    0 <= i < remains.len() ==> {
                        &&& (#[trigger] remains[i]).remains_of(all[i])
                        &&& left[i].pipelines() == all.skip(i + 1)
                        &&& call_ensures(
                            join,
                            (&left[i], remains[i].pb_handle, remains[i].cap_handle),
                            (),
                        )
                    },
                self.starting() == old(self).starting(),
                self.active() == old(self).active(),
                self.kept_quiet_since(old(self)),
            decreases self.pipelines.len(),
        {
            match self.stop_next() {
                Some(stopped) => {
                    let ghost remaining = stopped;
                    join(&*self, stopped.pb_handle, stopped.cap_handle);
                    proof {
                        let k = remains.len() as int;
                        assert(all.skip(k).drop_first() =~= all.skip(k + 1));
                        remains = remains.push(remaining);
                        left = left.push(*self);
                    }
                },
                None => {},
            }
        }
        assert(Self::joined_all(all, join, remains, left));
        assert(self.pipelines() =~= Seq::<PipelineModel<D, H>>::empty());
    }

    /// Carries out an effect, or hands it back if it is for the host.
    pub fn perform(&mut self, effect: Effect) -> (for_host: Option<Effect>)
        requires
            old(self).wf(),
        ensures
            final(self).wf(),
            final(self).pipelines() == old(self).pipelines(),
            final(self).starting() == old(self).starting(),
            final(self).active() == old(self).active(),
            final(self).status_place() == old(self).status_place(),
            final(self).stores() == stores_after(old(self).stores(), effect@),
            reasons_after(old(self).reasons(), effect@, final(self).reasons()),
            for_host == if is_for_host(effect@) {
                Some(effect)
            } else {
                None
            },
    {
        match effect {
            Effect::SetStopReason(reason) => {
                write_stop_reason(&mut self.run_status, reason);
                assert(self.reasons() =~= old(self).reasons().push(
                    (self.reasons().last().0, reason@),
                ));
                None
            },
            Effect::RecordDone => {
                update_when_done(&mut self.run_status);
                assert(self.reasons() =~= old(self).reasons().push(
                    (self.reasons().last().0, reason_when_done(self.reasons().last().0)),
                ));
                None
            },
            Effect::RetireConfig(config) => {
                self.shared_configs.retire(config);
                None
            },
            Effect::RememberConfig(config) => {
                self.shared_configs.remember(config);
                None
            },
            Effect::ActivateConfig(config) => {
                self.shared_configs.activate(config);
                None
            },
            other => Some(other),
        }
    }

    /// `after` is what became of `self` when effects were carried out from the front
    /// of a list until one was for the host, which is `task`, and `left` is the list
    /// behind it.
    pub open spec fn worked_off(
        &self,
        effects: Seq<Effect>,
        task: Option<Effect>,
        left: Seq<Effect>,
        after: &Session<D, H>,
    ) -> bool {
        let all = effect_models(effects);
        let done = match task {
            Some(_) => effects.len() - left.len() - 1,
            None => effects.len() as int,
        };
        &&& 0 <= done <= all.len()
        &&& forall|i: int| 0 <= i < done ==> !is_for_host(#[trigger] all[i])
        &&& after.stores() == stores_after_all(self.stores(), all.take(done))
        &&& reasons_after_all(self.reasons(), all.take(done), after.reasons())
        &&& match task {
            Some(task) => {
                &&& done < all.len()
                &&& task == effects[done]
                &&& is_for_host(task@)
                &&& left == effects.skip(done + 1)
            },
            None => left.len() == 0,
        }
    }

    /// Carries out effects from the front of a list until one is for the host,
    /// which it takes out of the list and returns, or until none is left.
    pub fn next_host_task(&mut self, effects: &mut Vec<Effect>) -> (task: Option<Effect>)
        requires
            old(self).wf(),
        ensures
            final(self).wf(),
            final(self).pipelines() == old(self).pipelines(),
            final(self).starting() == old(self).starting(),
            final(self).active() == old(self).active(),
            final(self).status_place() == old(self).status_place(),
            old(self).worked_off(old(effects)@, task, final(effects)@, final(self)),
    {
        let ghost all = effect_models(effects@);
        let ghost mut done: int = 0;
        assert(effects@ =~= old(effects)@.skip(0));
        while effects.len() > 0
            invariant
                self.wf(),
                self.pipelines() == old(self).pipelines(),
                self.starting() == old(self).starting(),
                self.active() == old(self).active(),
                self.status_place() == old(self).status_place(),
                all == effect_models(old(effects)@),
                0 <= done <= all.len(),
                effects@ == old(effects)@.skip(done),
                forall|i: int| 0 <= i < done ==> !is_for_host(#[trigger] all[i]),
                self.stores() == stores_after_all(old(self).stores(), all.take(done)),
                reasons_after_all(old(self).reasons(), all.take(done), self.reasons()),
            decreases effects.len(),
        {
            let effect = effects.remove(0);
            let ghost before = self.reasons();
            assert(effect == old(effects)@[done]);
            assert(effects@ =~= old(effects)@.skip(done + 1));
            assert(all.take(done + 1).drop_last() =~= all.take(done));
            let task = self.perform(effect);
            if task.is_some() {
                return task;
            }
            assert(self.reasons().drop_last() =~= before || self.reasons() == before);
            assert(reasons_after_all(old(self).reasons(), all.take(done + 1), self.reasons()));
            proof {
                done = done + 1;
            }
        }
        None
    }
}

} // verus!

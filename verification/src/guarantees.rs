//! What each operation is for: what must hold between what comes in and what comes
//! out, whatever the state it meets.

use crate::channels::{
    audio_end, audio_limit, came_out, command_end, front, offered, picked, picked_index, seen_empty,
    sent_commands, sent_updates, standing, status_end, status_limit, taken_controls,
    update_end, Watch,
};
use crate::config::{
    names, ChangeModel, ConfigChange, ConfigModel, Configuration, Devices,
};
use crate::engine::{
    after_session_spec, faders_spec, idle_spec, initial_queued, quit_on_command, services_spec,
    startup_spec, stores_after_command, waited_spec, Engine, FaderSetting, Idle, IdleState, Service,
    Startup, Waited, COMMAND_QUEUE_LIMIT, EXIT_BAD_CONFIG, EXIT_FORCED, EXIT_OK,
    EXIT_PROCESSING_ERROR, NUM_FADERS,
};
use crate::engine_pipeline::{
    fresh_pipeline, PipelineModel, PipelineSetup, StoppedPipeline, BARRIER_PARTIES,
};
use crate::messages::{
    CommandMessage, ControllerMessage, ControllerModel, Disconnected, EngineError, ExitState,
    StatusMessage, StatusModel, StopModel, StopReason,
};
use crate::session::{
    change_step, control_model, control_step, effect_models, first_updated, group_after,
    is_for_host, looked_for_more, pipelines_after, pipelines_after_status, possible, reasons_after,
    reasons_after_all, status_model, status_step, step, stores_after, stores_after_all,
    takes_effect_live, Effect, EffectModel, EventModel, Reaction, ReactionModel,
    Session, SessionState, SupervisorEvent, MAIN_FADER,
};
use crate::shared::{
    config_model, found_in, meeting_place, parties, reason_when_done, source_of, ConfigStores,
    StatusStructs,
};
use crossbeam_channel::{Receiver, SelectedOperation};
use vstd::prelude::*;

verus! {

// ---------------------------------------------------------------------------
// Sessions: what a device reports.
// ---------------------------------------------------------------------------

/// The reason for which a report ends the session as a failure, if it is one.
pub open spec fn failure_reason(message: Result<StatusModel, Disconnected>) -> Option<StopModel> {
    match message {
        Ok(StatusModel::PlaybackError(text)) => Some(StopModel::PlaybackError(text)),
        Ok(StatusModel::CaptureError(text)) => Some(StopModel::CaptureError(text)),
        Ok(StatusModel::PlaybackFormatChange(rate)) => Some(StopModel::PlaybackFormatChange(rate)),
        Ok(StatusModel::CaptureFormatChange(rate)) => Some(StopModel::CaptureFormatChange(rate)),
        Err(_) => Some(
            StopModel::UnknownError("Capture, Playback and Processing threads have exited"@),
        ),
        _ => None,
    }
}

/// A failure of a device, in every state, whether starting or not and whichever group
/// it comes from, ends the session so that the engine goes on to the next
/// configuration. Its reason is recorded before anything else happens, then all
/// pipelines are stopped, then the configuration that ran is retired, and capture is
/// shown as inactive. Nothing else is asked for.
pub proof fn law_device_failure_ends_the_session(
    s: SessionState,
    index: usize,
    message: Result<StatusModel, Disconnected>,
)
    requires
        failure_reason(message) is Some,
    ensures
        ({
            let (after, reaction) = status_step(s, index, message);
            &&& after == s
            &&& reaction.outcome == Some(Ok::<ExitState, EngineError>(ExitState::Restart))
            &&& reaction.effects.len() == 4
            &&& reaction.effects[0] == EffectModel::SetStopReason(failure_reason(message)->0)
            &&& reaction.effects[1] is StopPipelines
            &&& reaction.effects[2] == EffectModel::RetireConfig(s.active)
            &&& reaction.effects[3] is CaptureInactive
        }),
{
}

/// Once a failure of a device was answered and the answer carried out, no
/// configuration is active, the one that ran is the previous one, both changed in one
/// step, and the stop reason that was recorded is that of the failure and no other.
pub proof fn law_device_failure_leaves_its_reason(
    s: SessionState,
    index: usize,
    message: Result<StatusModel, Disconnected>,
    stores: ConfigStores,
    reasons: Seq<(StopModel, StopModel)>,
    now: Seq<(StopModel, StopModel)>,
)
    requires
        failure_reason(message) is Some,
        reasons_after_all(reasons, status_step(s, index, message).1.effects, now),
    ensures
        now.len() == reasons.len() + 1,
        now.drop_last() == reasons,
        now.last().1 == failure_reason(message)->0,
        ({
            let left = stores_after_all(stores, status_step(s, index, message).1.effects);
            &&& left.active == stores.active.push(None)
            &&& left.previous == stores.previous.push(Some(s.active))
            &&& left.together == stores.together.push((None, Some(s.active)))
            &&& left.active_place == stores.active_place
            &&& left.previous_place == stores.previous_place
        }),
{
    let effects = status_step(s, index, message).1.effects;
    reveal_with_fuel(stores_after_all, 5);
    reveal_with_fuel(reasons_after_all, 5);
    assert(effects.drop_last().last() == effects[2]);
    assert(effects.drop_last().drop_last().last() == effects[1]);
    assert(effects.drop_last().drop_last().drop_last().last() == effects[0]);
}

/// Failures are told apart: two reports that end a session for different reasons get
/// different answers.
pub proof fn law_failures_are_told_apart(
    s: SessionState,
    index: usize,
    one: Result<StatusModel, Disconnected>,
    other: Result<StatusModel, Disconnected>,
)
    requires
        failure_reason(one) is Some,
        failure_reason(other) is Some,
        failure_reason(one) != failure_reason(other),
    ensures
        status_step(s, index, one).1.effects[0] != status_step(s, index, other).1.effects[0],
{
}

/// What a device reports, other than its readiness, is answered alike in any two
/// states with the same configuration, whether they are starting or not and however
/// far their groups are.
pub proof fn law_answer_depends_on_the_configuration_only(
    s: SessionState,
    t: SessionState,
    index: usize,
    message: Result<StatusModel, Disconnected>,
)
    requires
        s.active == t.active,
        message is Ok ==> !(message->Ok_0 is PlaybackReady || message->Ok_0 is CaptureReady),
    ensures
        status_step(s, index, message).1 == status_step(t, index, message).1,
        status_step(s, index, message).0 == s,
{
}

/// When playback has finished, in every state, the session ends so that the engine
/// goes on to the next configuration. That playback is done is recorded first, then
/// the configuration is retired, then the pipelines are stopped.
pub proof fn law_end_of_playback_ends_the_session(s: SessionState, index: usize)
    ensures
        ({
            let (after, reaction) = status_step(s, index, Ok(StatusModel::PlaybackDone));
            &&& after == s
            &&& reaction.outcome == Some(Ok::<ExitState, EngineError>(ExitState::Restart))
            &&& reaction.effects.len() == 3
            &&& reaction.effects[0] is RecordDone
            &&& reaction.effects[1] == EffectModel::RetireConfig(s.active)
            &&& reaction.effects[2] is StopPipelines
        }),
{
}

/// The end of playback leaves no configuration active and the one that ran as the
/// previous one, and the stop reason `Done`, unless a reason stood before, which stays.
pub proof fn law_end_of_playback_keeps_an_earlier_reason(
    s: SessionState,
    index: usize,
    stores: ConfigStores,
    reasons: Seq<(StopModel, StopModel)>,
    now: Seq<(StopModel, StopModel)>,
)
    requires
        reasons_after_all(
            reasons,
            status_step(s, index, Ok(StatusModel::PlaybackDone)).1.effects,
            now,
        ),
    ensures
        now.len() == reasons.len() + 1,
        now.drop_last() == reasons,
        now.last().0 is NotStopped ==> now.last().1 is Done,
        !(now.last().0 is NotStopped) ==> now.last().1 == now.last().0,
        ({
            let left = stores_after_all(
                stores,
                status_step(s, index, Ok(StatusModel::PlaybackDone)).1.effects,
            );
            &&& left.active == stores.active.push(None)
            &&& left.previous == stores.previous.push(Some(s.active))
        }),
{
    let effects = status_step(s, index, Ok(StatusModel::PlaybackDone)).1.effects;
    reveal_with_fuel(stores_after_all, 4);
    reveal_with_fuel(reasons_after_all, 4);
    assert(effects.drop_last().last() == effects[1]);
    assert(effects.drop_last().drop_last().last() == effects[0]);
}

/// The end of capture, and a request for a speed, are answered by nothing that others
/// have to carry out, and the session goes on as it was.
pub proof fn law_end_of_capture_and_speed_ask_for_nothing(
    s: SessionState,
    index: usize,
    message: StatusModel,
)
    requires
        message is CaptureDone || message is SetSpeed,
    ensures
        status_step(s, index, Ok(message)).0 == s,
        status_step(s, index, Ok(message)).1.effects.len() == 0,
        status_step(s, index, Ok(message)).1.outcome is None,
{
}

/// The answer to a mute message, for every flag and every group, is to set the main
/// fader of that group to exactly that flag, and nothing else; the session goes on as
/// it was. So messages with different flags, or of different groups, get different
/// answers.
pub proof fn law_mute_sets_the_flag_that_was_asked_for(
    s: SessionState,
    index: usize,
    mute: bool,
    other_index: usize,
    other_mute: bool,
)
    ensures
        ({
            let (after, reaction) = status_step(s, index, Ok(StatusModel::SetMute(mute)));
            &&& after == s
            &&& reaction.outcome is None
            &&& reaction.effects.len() == 1
            &&& reaction.effects[0] == (EffectModel::SetMute { index, fader: 0, mute })
        }),
        mute != other_mute || index != other_index ==> status_step(
            s,
            index,
            Ok(StatusModel::SetMute(mute)),
        ).1.effects[0] != status_step(
            s,
            other_index,
            Ok(StatusModel::SetMute(other_mute)),
        ).1.effects[0],
{
}

/// The answer to a volume message, for every volume and every group, is to set the
/// main fader of that group to exactly that volume, and nothing else; the session goes
/// on as it was. So messages with different volumes, or of different groups, get
/// different answers.
pub proof fn law_volume_sets_the_volume_that_was_asked_for(
    s: SessionState,
    index: usize,
    volume: u32,
    other_index: usize,
    other_volume: u32,
)
    ensures
        ({
            let (after, reaction) = status_step(s, index, Ok(StatusModel::SetVolume(volume)));
            &&& after == s
            &&& reaction.outcome is None
            &&& reaction.effects.len() == 1
            &&& reaction.effects[0] == (EffectModel::SetTargetVolume { index, fader: 0, volume })
        }),
        volume != other_volume || index != other_index ==> status_step(
            s,
            index,
            Ok(StatusModel::SetVolume(volume)),
        ).1.effects[0] != status_step(
            s,
            other_index,
            Ok(StatusModel::SetVolume(other_volume)),
        ).1.effects[0],
{
}

/// A ready message makes its device thread ready and no other, and takes its group past
/// its startup barrier exactly if both its threads are ready now, or it was past it
/// before. Every other group stays as it was, and so does the configuration. Startup is
/// over once no group is left before its barrier, and never begins again. The stop
/// reason is cleared exactly when startup is over with this message. The session goes
/// on.
pub proof fn law_readiness_is_noted(s: SessionState, index: usize, message: StatusModel)
    requires
        index < s.groups.len(),
        message is PlaybackReady || message is CaptureReady,
    ensures
        ({
            let (after, reaction) = status_step(s, index, Ok(message));
            let old_group = s.groups[index as int];
            let new_group = after.groups[index as int];
            &&& after.active == s.active
            &&& after.groups.len() == s.groups.len()
            &&& forall|i: int|
                0 <= i < s.groups.len() && i != index ==> #[trigger] after.groups[i] == s.groups[i]
            &&& new_group.device_group == old_group.device_group
            &&& new_group.playback_ready == (old_group.playback_ready || message is PlaybackReady)
            &&& new_group.capture_ready == (old_group.capture_ready || message is CaptureReady)
            &&& new_group.released == (old_group.released || (new_group.playback_ready
                && new_group.capture_ready))
            &&& after.starting ==> s.starting
            &&& s.starting && !after.starting ==> forall|i: int|
                0 <= i < after.groups.len() ==> (#[trigger] after.groups[i]).released
            &&& s.starting && after.starting ==> exists|i: int|
                0 <= i < after.groups.len() && !(#[trigger] after.groups[i]).released
            &&& reaction.outcome is None
            &&& if s.starting && !after.starting {
                &&& reaction.effects.len() == 1
                &&& reaction.effects[0] == EffectModel::SetStopReason(StopModel::NotStopped)
            } else {
                reaction.effects.len() == 0
            }
        }),
{
}

// ---------------------------------------------------------------------------
// Sessions: what the controller asks for.
// ---------------------------------------------------------------------------

/// Stop, in every state and whether further commands are queued or not, ends the
/// session so that the engine goes on to the next configuration. The pipelines are
/// stopped, and then the configuration that ran is retired: none is left active, and
/// it is the previous one. The stop reason stays.
pub proof fn law_stop_ends_the_session(
    s: SessionState,
    more: bool,
    stores: ConfigStores,
    reasons: Seq<(StopModel, StopModel)>,
    now: Seq<(StopModel, StopModel)>,
)
    ensures
        ({
            let reaction = control_step(s, Ok(ControllerModel::Stop), more);
            let left = stores_after_all(stores, reaction.effects);
            &&& reaction.outcome == Some(Ok::<ExitState, EngineError>(ExitState::Restart))
            &&& reaction.effects.len() == 2
            &&& reaction.effects[0] is StopPipelines
            &&& reaction.effects[1] == EffectModel::RetireConfig(s.active)
            &&& left.active == stores.active.push(None)
            &&& left.previous == stores.previous.push(Some(s.active))
            &&& left.together == stores.together.push((None, Some(s.active)))
            &&& reasons_after_all(reasons, reaction.effects, now) ==> now == reasons
        }),
{
    let effects = control_step(s, Ok(ControllerModel::Stop), more).effects;
    reveal_with_fuel(stores_after_all, 3);
    reveal_with_fuel(reasons_after_all, 3);
    assert(effects.drop_last().last() == effects[0]);
}

/// Exit, in every state and whether further commands are queued or not, ends the
/// session so that the engine quits. The pipelines are stopped, and then the
/// configuration that ran is remembered as the previous one; the active one is left
/// alone, and so is the stop reason.
pub proof fn law_exit_ends_the_session(
    s: SessionState,
    more: bool,
    stores: ConfigStores,
    reasons: Seq<(StopModel, StopModel)>,
    now: Seq<(StopModel, StopModel)>,
)
    ensures
        ({
            let reaction = control_step(s, Ok(ControllerModel::Exit), more);
            let left = stores_after_all(stores, reaction.effects);
            &&& reaction.outcome == Some(Ok::<ExitState, EngineError>(ExitState::Exit))
            &&& reaction.effects.len() == 2
            &&& reaction.effects[0] is StopPipelines
            &&& reaction.effects[1] == EffectModel::RememberConfig(s.active)
            &&& left.active == stores.active
            &&& left.previous == stores.previous.push(Some(s.active))
            &&& left.together == stores.together
            &&& reasons_after_all(reasons, reaction.effects, now) ==> now == reasons
        }),
{
    let effects = control_step(s, Ok(ControllerModel::Exit), more).effects;
    reveal_with_fuel(stores_after_all, 3);
    reveal_with_fuel(reasons_after_all, 3);
    assert(effects.drop_last().last() == effects[0]);
}

/// A new configuration, in every state, never ends the session by itself. If further
/// commands are queued it is dropped; if none is, the loads are reset and exactly this
/// configuration is compared with the one that runs. So different configurations get
/// different answers.
pub proof fn law_new_configuration_is_compared_unless_more_is_queued(
    s: SessionState,
    config: ConfigModel,
    other: ConfigModel,
)
    ensures
        ({
            let dropped = control_step(s, Ok(ControllerModel::ConfigChanged(config)), true);
            let compared = control_step(s, Ok(ControllerModel::ConfigChanged(config)), false);
            &&& dropped.outcome is None
            &&& dropped.effects.len() == 0
            &&& compared.outcome is None
            &&& compared.effects.len() == 2
            &&& compared.effects[0] is ResetLoads
            &&& compared.effects[1] == EffectModel::CompareConfig(config)
        }),
        config != other ==> control_step(
            s,
            Ok(ControllerModel::ConfigChanged(config)),
            false,
        ).effects[1] != control_step(
            s,
            Ok(ControllerModel::ConfigChanged(other)),
            false,
        ).effects[1],
{
}

/// A session whose controllers are all gone ends in an error, in every state, and asks
/// for nothing.
pub proof fn law_closed_control_channel_is_an_error(s: SessionState, more: bool)
    ensures
        ({
            let reaction = control_step(s, Err(Disconnected), more);
            &&& reaction.outcome == Some(Err::<ExitState, EngineError>(EngineError::ControlClosed))
            &&& reaction.effects.len() == 0
        }),
{
}

/// What the controller asks for is answered alike in any two states with the same
/// configuration, and changes nothing in the state; only a new configuration depends on
/// whether further commands are queued.
pub proof fn law_commands_are_answered_alike(
    s: SessionState,
    t: SessionState,
    message: Result<ControllerModel, Disconnected>,
    more: bool,
    other: bool,
)
    requires
        s.active == t.active,
    ensures
        control_step(s, message, more) == control_step(t, message, more),
        step(s, EventModel::Control(message), more).0 == s,
        step(s, EventModel::Control(message), more).1 == control_step(s, message, more),
        !(message is Ok && message->Ok_0 is ConfigChanged) ==> control_step(s, message, more)
            == control_step(s, message, other),
{
}

/// A command is answered as one behind which others are queued only if the control
/// channel was seen to hold some, and as the last one only if it was seen empty.
pub proof fn law_further_commands_were_seen(
    rx_ctrl: Receiver<ControllerMessage>,
    message: Result<ControllerModel, Disconnected>,
    more: bool,
)
    requires
        looked_for_more(rx_ctrl, EventModel::Control(message), more),
    ensures
        more ==> seen_empty(rx_ctrl, false),
        !more ==> seen_empty(rx_ctrl, true),
{
}

/// A report of a device is answered alike whether commands are queued or not, and as a
/// report of the pipeline that it came from.
pub proof fn law_reports_are_answered_whatever_is_queued(
    s: SessionState,
    index: usize,
    message: Result<StatusModel, Disconnected>,
    more: bool,
)
    ensures
        step(s, EventModel::Status(index, message), more) == status_step(s, index, message),
{
}

/// A controller command can come exactly when startup is over, and a report exactly
/// from a pipeline that there is.
pub proof fn law_what_can_come(
    s: SessionState,
    command: Result<ControllerModel, Disconnected>,
    index: usize,
    report: Result<StatusModel, Disconnected>,
)
    ensures
        possible(s, EventModel::Control(command)) == !s.starting,
        possible(s, EventModel::Status(index, report)) == (index < s.groups.len()),
{
}

// ---------------------------------------------------------------------------
// Sessions: taking over a configuration.
// ---------------------------------------------------------------------------

/// A change that the processing threads can take over as they run: of parameters of
/// filters or mixers, or of the pipeline.
pub open spec fn is_live(change: ChangeModel) -> bool {
    match change {
        ChangeModel::FilterParameters { filters, mixers, processors } => true,
        ChangeModel::MixerParameters => true,
        ChangeModel::Pipeline => true,
        ChangeModel::Devices => false,
        ChangeModel::Unchanged => false,
    }
}

/// The pipeline `after` is `before`, but that exactly one more update was handed to its
/// processing thread.
pub open spec fn got_update<D, H>(
    before: PipelineModel<D, H>,
    after: PipelineModel<D, H>,
    change: ChangeModel,
    config: ConfigModel,
    taken: bool,
) -> bool {
    &&& after.updates.len() == before.updates.len() + 1
    &&& after.updates.last() == ((change, config), taken)
    &&& after.updates.drop_last() == before.updates
    &&& after == (PipelineModel { updates: after.updates, ..before })
}

/// After a live change that succeeded, every pipeline, released or not and whichever it
/// is, has handed its processing thread exactly this change with the new
/// configuration, on top of what it was handed before, and the thread took it. Nothing
/// else about the pipelines changed. The new configuration runs, is to be made the
/// active one, and then the used channels of every group are shown anew, in order. The
/// session goes on, and nothing is stopped.
pub proof fn law_live_change_reaches_every_pipeline<D, H>(
    before: &Session<D, H>,
    change: ChangeModel,
    config: ConfigModel,
    after: &Session<D, H>,
    reaction: ReactionModel,
)
    requires
        is_live(change),
        before.took_over(change, config, after, Ok(reaction)),
    ensures
        after.pipelines().len() == before.pipelines().len(),
        forall|i: int|
            0 <= i < before.pipelines().len() ==> got_update(
                before.pipelines()[i],
                #[trigger] after.pipelines()[i],
                change,
                config,
                true,
            ),
        after.active() == config,
        after.starting() == before.starting(),
        after.stores() == before.stores(),
        after.reasons() == before.reasons(),
        reaction.outcome is None,
        reaction.effects.len() == 1 + before.pipelines().len(),
        reaction.effects[0] == EffectModel::ActivateConfig(config),
        forall|i: int|
            0 <= i < before.pipelines().len() ==> #[trigger] reaction.effects[i + 1] == (
            EffectModel::RefreshChannels {
                index: i as usize,
                device_group: before.pipelines()[i].device_group,
            }),
{
    assert forall|i: int| 0 <= i < before.pipelines().len() implies got_update(
        before.pipelines()[i],
        #[trigger] after.pipelines()[i],
        change,
        config,
        true,
    ) by {
        let updates = before.pipelines()[i].updates.push(((change, config), true));
        assert(updates.drop_last() =~= before.pipelines()[i].updates);
    }
    assert(after.state().active == config);
}

/// A live change fails only at a processing thread that is gone: every pipeline before
/// it was handed the change and took it, that one did not take it, and those behind it
/// were handed nothing. The configuration that runs stays, and nothing is stored.
pub proof fn law_live_change_fails_at_the_first_gone_thread<D, H>(
    before: &Session<D, H>,
    change: ChangeModel,
    config: ConfigModel,
    after: &Session<D, H>,
    gone: usize,
)
    requires
        before.took_over(change, config, after, Err(gone)),
    ensures
        is_live(change),
        gone < before.pipelines().len(),
        after.pipelines().len() == before.pipelines().len(),
        forall|i: int|
            0 <= i < before.pipelines().len() ==> if i <= gone {
                got_update(
                    before.pipelines()[i],
                    #[trigger] after.pipelines()[i],
                    change,
                    config,
                    i < gone,
                )
            } else {
                after.pipelines()[i] == before.pipelines()[i]
            },
        after.active() == before.active(),
        after.starting() == before.starting(),
        after.stores() == before.stores(),
        after.reasons() == before.reasons(),
{
    assert forall|i: int| 0 <= i < before.pipelines().len() implies if i <= gone {
        got_update(
            before.pipelines()[i],
            #[trigger] after.pipelines()[i],
            change,
            config,
            i < gone,
        )
    } else {
        after.pipelines()[i] == before.pipelines()[i]
    } by {
        let updates = before.pipelines()[i].updates.push(((change, config), i < gone));
        assert(updates.drop_last() =~= before.pipelines()[i].updates);
    }
    assert(after.state().active == before.state().active);
    assert(after.state().starting == before.state().starting);
}

/// A change of devices always succeeds, hands the processing threads nothing and ends
/// the session so that the engine goes on: the pipelines are stopped, and then exactly
/// the new configuration is made the active one, for the next session to run. If
/// nothing differs, nothing happens.
pub proof fn law_other_changes_leave_the_pipelines_alone<D, H>(
    before: &Session<D, H>,
    change: ChangeModel,
    config: ConfigModel,
    after: &Session<D, H>,
    result: Result<ReactionModel, usize>,
)
    requires
        !is_live(change),
        before.took_over(change, config, after, result),
    ensures
        result is Ok,
        after.pipelines() == before.pipelines(),
        after.active() == before.active(),
        after.starting() == before.starting(),
        after.stores() == before.stores(),
        after.reasons() == before.reasons(),
        change is Devices ==> {
            let reaction = result->Ok_0;
            &&& reaction.outcome == Some(Ok::<ExitState, EngineError>(ExitState::Restart))
            &&& reaction.effects.len() == 2
            &&& reaction.effects[0] is StopPipelines
            &&& reaction.effects[1] == EffectModel::ActivateConfig(config)
        },
        change is Unchanged ==> {
            let reaction = result->Ok_0;
            &&& reaction.outcome is None
            &&& reaction.effects.len() == 0
        },
{
    assert(after.state().active == before.state().active);
    assert(after.state().starting == before.state().starting);
}

/// What a change of devices leaves active is the new configuration; the previous one
/// and the stop reason stay as they are.
pub proof fn law_device_change_activates_the_new_configuration(
    s: SessionState,
    config: ConfigModel,
    stores: ConfigStores,
    reasons: Seq<(StopModel, StopModel)>,
    now: Seq<(StopModel, StopModel)>,
)
    ensures
        ({
            let effects = change_step(s, ChangeModel::Devices, config).1.effects;
            let left = stores_after_all(stores, effects);
            &&& left.active == stores.active.push(Some(config))
            &&& left.previous == stores.previous
            &&& left.together == stores.together
            &&& reasons_after_all(reasons, effects, now) ==> now == reasons
        }),
{
    let effects = change_step(s, ChangeModel::Devices, config).1.effects;
    reveal_with_fuel(stores_after_all, 3);
    reveal_with_fuel(reasons_after_all, 3);
    assert(effects.drop_last().last() == effects[0]);
}

// ---------------------------------------------------------------------------
// Sessions: what becomes of the pipelines.
// ---------------------------------------------------------------------------

/// A report touches no pipeline but the one that it came from. A request for a speed
/// hands the capture thread of that pipeline exactly one command, to set exactly that
/// speed, and changes nothing else. A ready message marks its side as ready and meets
/// the barrier, once, exactly if both sides are ready and it was not met before. Any
/// other report changes nothing.
pub proof fn law_reports_touch_their_own_pipeline_only<D, H>(
    before: Seq<PipelineModel<D, H>>,
    index: int,
    message: Result<StatusModel, Disconnected>,
    after: Seq<PipelineModel<D, H>>,
)
    requires
        0 <= index < before.len(),
        pipelines_after_status(before, index, message, after),
    ensures
        after.len() == before.len(),
        forall|i: int| 0 <= i < before.len() && i != index ==> #[trigger] after[i] == before[i],
        ({
            let old_one = before[index];
            let new_one = after[index];
            match message {
                Ok(StatusModel::SetSpeed(speed)) => {
                    &&& new_one.commands.len() == old_one.commands.len() + 1
                    &&& new_one.commands.last().0 == (CommandMessage::SetSpeed { speed })
                    &&& new_one.commands.drop_last() == old_one.commands
                    &&& new_one == (PipelineModel { commands: new_one.commands, ..old_one })
                },
                Ok(StatusModel::PlaybackReady) => {
                    &&& new_one.playback_ready
                    &&& new_one.capture_ready == old_one.capture_ready
                    &&& new_one.released == (old_one.released || old_one.capture_ready)
                    &&& new_one.meetings == if new_one.released && !old_one.released {
                        old_one.meetings.push(old_one.commands)
                    } else {
                        old_one.meetings
                    }
                    &&& new_one == (PipelineModel {
                        playback_ready: true,
                        released: new_one.released,
                        meetings: new_one.meetings,
                        ..old_one
                    })
                },
                Ok(StatusModel::CaptureReady) => {
                    &&& new_one.capture_ready
                    &&& new_one.playback_ready == old_one.playback_ready
                    &&& new_one.released == (old_one.released || old_one.playback_ready)
                    &&& new_one.meetings == if new_one.released && !old_one.released {
                        old_one.meetings.push(old_one.commands)
                    } else {
                        old_one.meetings
                    }
                    &&& new_one == (PipelineModel {
                        capture_ready: true,
                        released: new_one.released,
                        meetings: new_one.meetings,
                        ..old_one
                    })
                },
                _ => new_one == old_one,
            }
        }),
{
    if message matches Ok(StatusModel::SetSpeed(_)) {
        assert(after[index].commands.drop_last() =~= before[index].commands);
    }
}

/// A command of the controller touches no pipeline by itself; a report does what
/// reports do.
pub proof fn law_events_touch_pipelines_as_reports_do<D, H>(
    before: Seq<PipelineModel<D, H>>,
    event: EventModel,
    after: Seq<PipelineModel<D, H>>,
)
    requires
        pipelines_after(before, event, after),
    ensures
        match event {
            EventModel::Control(_) => after == before,
            EventModel::Status(index, message) => pipelines_after_status(
                before,
                index as int,
                message,
                after,
            ),
        },
{
}

/// The first `count` of some pipelines, and only these, were handed the update on top
/// of what they were handed before, and took it.
pub proof fn law_update_reaches_the_first_pipelines<D, H>(
    before: Seq<PipelineModel<D, H>>,
    count: int,
    change: ChangeModel,
    config: ConfigModel,
)
    requires
        0 <= count <= before.len(),
    ensures
        first_updated(before, count, change, config).len() == before.len(),
        forall|i: int|
            0 <= i < before.len() ==> if i < count {
                got_update(
                    before[i],
                    #[trigger] first_updated(before, count, change, config)[i],
                    change,
                    config,
                    true,
                )
            } else {
                first_updated(before, count, change, config)[i] == before[i]
            },
{
    assert forall|i: int| 0 <= i < before.len() implies if i < count {
        got_update(
            before[i],
            #[trigger] first_updated(before, count, change, config)[i],
            change,
            config,
            true,
        )
    } else {
        first_updated(before, count, change, config)[i] == before[i]
    } by {
        let updates = before[i].updates.push(((change, config), true));
        assert(updates.drop_last() =~= before[i].updates);
    }
}

/// The answer of a session to an event is the step that the event takes, with the
/// pipelines as the event leaves them, and nothing stored and no reason touched yet.
pub proof fn law_answer_is_the_step<D, H>(
    before: &Session<D, H>,
    event: EventModel,
    more: bool,
    after: &Session<D, H>,
    reaction: ReactionModel,
)
    requires
        before.answered(event, more, after, reaction),
    ensures
        after.state() == step(before.state(), event, more).0,
        reaction == step(before.state(), event, more).1,
        pipelines_after(before.pipelines(), event, after.pipelines()),
        after.stores() == before.stores(),
        after.reasons() == before.reasons(),
        after.status_place() == before.status_place(),
{
}

/// What a session decides by is how far each of its pipelines is, whether it is
/// starting, and the configuration that runs.
pub proof fn law_state_shows_the_pipelines<D, H>(session: &Session<D, H>)
    ensures
        session.state().groups.len() == session.pipelines().len(),
        forall|i: int|
            0 <= i < session.pipelines().len() ==> {
                let group = #[trigger] session.state().groups[i];
                let pipeline = session.pipelines()[i];
                &&& group.device_group == pipeline.device_group
                &&& group.playback_ready == pipeline.playback_ready
                &&& group.capture_ready == pipeline.capture_ready
                &&& group.released == pipeline.released
            },
        session.state().starting == session.starting(),
        session.state().active == session.active(),
{
}

/// A session waits on the status channel of every pipeline, in order, and on the
/// control channel exactly once startup is over. An event that it gets was selected
/// among all of these; a report comes out of the channel of its pipeline, and a command
/// is the oldest of the control channel.
pub proof fn law_session_waits_on_all_its_channels<D, H>(
    session: &Session<D, H>,
    rx_ctrl: Receiver<ControllerMessage>,
    event: EventModel,
    oper: SelectedOperation<'_>,
)
    requires
        session.brought_by(rx_ctrl, event, oper),
    ensures
        offered(oper).len() == session.pipelines().len() + if session.starting() {
            0int
        } else {
            1int
        },
        forall|i: int|
            0 <= i < session.pipelines().len() ==> #[trigger] offered(oper)[i] == Watch::Status(
                session.pipelines()[i].rx_status,
            ),
        !session.starting() ==> offered(oper).last() == Watch::Control(rx_ctrl),
        picked_index(oper) < offered(oper).len(),
        picked(oper) == offered(oper)[picked_index(oper) as int],
        match event {
            EventModel::Control(message) => {
                &&& !session.starting()
                &&& picked(oper) == Watch::Control(rx_ctrl)
                &&& standing(oper).len() > 0 ==> message == Ok::<_, Disconnected>(
                    standing(oper)[0],
                )
                &&& standing(oper).len() == 0 ==> message is Err
            },
            EventModel::Status(index, _) => {
                &&& index < session.pipelines().len()
                &&& picked_index(oper) == index
                &&& picked(oper) == Watch::Status(session.pipelines()[index as int].rx_status)
            },
        },
{
}

/// The next group to get a pipeline is the first that has none, as long as there is
/// one. The first group reports into the state of the process, every other into its
/// own.
pub proof fn law_groups_get_their_pipelines_in_order(count: nat, config: ConfigModel)
    requires
        config.devices.len() <= usize::MAX,
    ensures
        group_after(count, config) is None <==> count >= config.devices.len(),
        group_after(count, config) matches Some((group, source)) ==> {
            &&& group == count
            &&& source is Process <==> count == 0
            &&& source is Fresh <==> count > 0
        },
{
}

// ---------------------------------------------------------------------------
// Sessions: carrying out effects.
// ---------------------------------------------------------------------------

/// What an effect stores: one that retires a configuration stores, in one step, that
/// none is active and that this is the previous one; one that remembers stores it as
/// the previous one; one that activates stores it as the active one. No other stores
/// anything, and the cells stay the same ones.
pub proof fn law_what_effects_store(before: ConfigStores, effect: EffectModel)
    ensures
        ({
            let after = stores_after(before, effect);
            &&& after.active_place == before.active_place
            &&& after.previous_place == before.previous_place
            &&& match effect {
                EffectModel::RetireConfig(config) => {
                    &&& after.active == before.active.push(None)
                    &&& after.previous == before.previous.push(Some(config))
                    &&& after.together == before.together.push((None, Some(config)))
                },
                EffectModel::RememberConfig(config) => {
                    &&& after.active == before.active
                    &&& after.previous == before.previous.push(Some(config))
                    &&& after.together == before.together
                },
                EffectModel::ActivateConfig(config) => {
                    &&& after.active == before.active.push(Some(config))
                    &&& after.previous == before.previous
                    &&& after.together == before.together
                },
                _ => after == before,
            }
        }),
{
}

/// What an effect records: one that sets the stop reason leaves exactly that reason;
/// one that records the end of playback leaves `Done` where it finds none, and what it
/// finds otherwise. No other touches the stop reason.
pub proof fn law_what_effects_record(
    before: Seq<(StopModel, StopModel)>,
    effect: EffectModel,
    after: Seq<(StopModel, StopModel)>,
)
    requires
        reasons_after(before, effect, after),
    ensures
        match effect {
            EffectModel::SetStopReason(reason) => {
                &&& after.len() == before.len() + 1
                &&& after.drop_last() == before
                &&& after.last().1 == reason
            },
            EffectModel::RecordDone => {
                &&& after.len() == before.len() + 1
                &&& after.drop_last() == before
                &&& after.last().0 is NotStopped ==> after.last().1 is Done
                &&& !(after.last().0 is NotStopped) ==> after.last().1 == after.last().0
            },
            _ => after == before,
        },
{
    if effect is SetStopReason || effect is RecordDone {
        assert(after.drop_last() =~= before);
    }
}

/// A session carries out on its own what it stores and records; everything else is for
/// its host.
pub proof fn law_who_carries_out_an_effect(effect: EffectModel)
    ensures
        is_for_host(effect) == match effect {
            EffectModel::SetStopReason(_) => false,
            EffectModel::RecordDone => false,
            EffectModel::RetireConfig(_) => false,
            EffectModel::RememberConfig(_) => false,
            EffectModel::ActivateConfig(_) => false,
            EffectModel::StopPipelines => true,
            EffectModel::CaptureInactive => true,
            EffectModel::ResetLoads => true,
            EffectModel::CompareConfig(_) => true,
            EffectModel::RefreshChannels { index, device_group } => true,
            EffectModel::SetTargetVolume { index, fader, volume } => true,
            EffectModel::SetMute { index, fader, mute } => true,
        },
{
}

/// Effects are carried out one after the other: a list with one more at the end does
/// what the list does, and then what that one does.
pub proof fn law_effects_are_carried_out_one_by_one(
    stores: ConfigStores,
    reasons: Seq<(StopModel, StopModel)>,
    effects: Seq<EffectModel>,
    last: EffectModel,
    now: Seq<(StopModel, StopModel)>,
)
    ensures
        stores_after_all(stores, Seq::<EffectModel>::empty()) == stores,
        stores_after_all(stores, effects.push(last)) == stores_after(
            stores_after_all(stores, effects),
            last,
        ),
        reasons_after_all(reasons, Seq::<EffectModel>::empty(), now) <==> now == reasons,
        reasons_after_all(reasons, effects.push(last), now) ==> exists|between: Seq<
            (StopModel, StopModel),
        >| #[trigger]
            reasons_after_all(reasons, effects, between) && reasons_after(between, last, now),
{
    assert(effects.push(last).drop_last() =~= effects);
    if reasons_after_all(reasons, effects.push(last), now) {
        let between = if last is SetStopReason || last is RecordDone {
            now.drop_last()
        } else {
            now
        };
        assert(reasons_after_all(reasons, effects, between));
    }
}

/// Working off a list hands out the first effect that is for the host, or none if there
/// is none, with all effects before it carried out in order and all behind it left.
pub proof fn law_host_gets_the_first_effect_for_it<D, H>(
    before: &Session<D, H>,
    effects: Seq<Effect>,
    task: Option<Effect>,
    left: Seq<Effect>,
    after: &Session<D, H>,
)
    requires
        before.worked_off(effects, task, left, after),
    ensures
        match task {
            Some(task) => {
                let place = effects.len() - left.len() - 1;
                &&& 0 <= place < effects.len()
                &&& task == effects[place]
                &&& is_for_host(task@)
                &&& forall|i: int|
                    0 <= i < place ==> !is_for_host((#[trigger] effects[i])@)
                &&& forall|i: int|
                    0 <= i < left.len() ==> #[trigger] left[i] == effects[place + 1 + i]
                &&& after.stores() == stores_after_all(
                    before.stores(),
                    Seq::new(place as nat, |i: int| effects[i]@),
                )
                &&& reasons_after_all(
                    before.reasons(),
                    Seq::new(place as nat, |i: int| effects[i]@),
                    after.reasons(),
                )
            },
            None => {
                &&& left.len() == 0
                &&& forall|i: int|
                    0 <= i < effects.len() ==> !is_for_host((#[trigger] effects[i])@)
                &&& after.stores() == stores_after_all(
                    before.stores(),
                    Seq::new(effects.len(), |i: int| effects[i]@),
                )
                &&& reasons_after_all(
                    before.reasons(),
                    Seq::new(effects.len(), |i: int| effects[i]@),
                    after.reasons(),
                )
            },
        },
{
    let all = effect_models(effects);
    let done = match task {
        Some(_) => effects.len() - left.len() - 1,
        None => effects.len() as int,
    };
    assert(all.take(done) =~= Seq::new(done as nat, |i: int| effects[i]@));
    assert forall|i: int| 0 <= i < done implies !is_for_host((#[trigger] effects[i])@) by {
        assert(!is_for_host(all[i]));
    }
}

// ---------------------------------------------------------------------------
// Pipelines.
// ---------------------------------------------------------------------------

/// Stopping a pipeline, released or not, hands its capture thread exactly one more
/// command, which is to exit, and its processing thread nothing. Its own barrier is met
/// once more exactly if it was not met before, and then after the exit command. The
/// handles to join, the channels and the status are those of the pipeline.
pub proof fn law_stop_tells_the_capture_thread_to_exit<D, H>(
    pipeline: PipelineModel<D, H>,
    stopped: StoppedPipeline<D, H>,
)
    requires
        stopped.remains_of(pipeline),
    ensures
        sent_commands(stopped.tx_command_cap).len() == pipeline.commands.len() + 1,
        sent_commands(stopped.tx_command_cap).last().0 is Exit,
        sent_commands(stopped.tx_command_cap).drop_last() == pipeline.commands,
        sent_updates(stopped.tx_pipeconf) == pipeline.updates,
        pipeline.released ==> stopped.barrier.meetings() == pipeline.meetings,
        !pipeline.released ==> {
            &&& stopped.barrier.meetings().len() == pipeline.meetings.len() + 1
            &&& stopped.barrier.meetings().drop_last() == pipeline.meetings
            &&& stopped.barrier.meetings().last() == sent_commands(stopped.tx_command_cap)
        },
        stopped.barrier.place() == pipeline.place,
        stopped.barrier.parties() == pipeline.parties,
        stopped.pb_handle == pipeline.pb_handle,
        stopped.cap_handle == pipeline.cap_handle,
        command_end(stopped.tx_command_cap) == pipeline.rx_command,
        update_end(stopped.tx_pipeconf) == pipeline.rx_update,
        stopped.rx_status == pipeline.rx_status,
        stopped.status == pipeline.status,
{
    assert(sent_commands(stopped.tx_command_cap).drop_last() =~= pipeline.commands);
    if !pipeline.released {
        assert(stopped.barrier.meetings().drop_last() =~= pipeline.meetings);
    }
}

/// Stopping all pipelines stops each of them, released or not: every capture thread got
/// one more command, to exit, and the threads of each were joined by its own handles
/// while all later pipelines were as they had been.
pub proof fn law_stopping_all_stops_each<D, H, F: Fn(&Session<D, H>, H, H)>(
    before: Seq<PipelineModel<D, H>>,
    join: F,
    remains: Seq<StoppedPipeline<D, H>>,
    left: Seq<Session<D, H>>,
)
    requires
        Session::joined_all(before, join, remains, left),
    ensures
        remains.len() == before.len(),
        left.len() == before.len(),
        forall|i: int|
            0 <= i < before.len() ==> {
                let stopped = #[trigger] remains[i];
                &&& stopped.remains_of(before[i])
                &&& sent_commands(stopped.tx_command_cap).len() == before[i].commands.len() + 1
                &&& sent_commands(stopped.tx_command_cap).last().0 is Exit
                &&& call_ensures(join, (&left[i], before[i].pb_handle, before[i].cap_handle), ())
                &&& left[i].pipelines() == before.skip(i + 1)
            },
{
    assert forall|i: int| 0 <= i < before.len() implies {
        let stopped = #[trigger] remains[i];
        &&& stopped.remains_of(before[i])
        &&& sent_commands(stopped.tx_command_cap).len() == before[i].commands.len() + 1
        &&& sent_commands(stopped.tx_command_cap).last().0 is Exit
        &&& call_ensures(join, (&left[i], before[i].pb_handle, before[i].cap_handle), ())
        &&& left[i].pipelines() == before.skip(i + 1)
    } by {
        law_stop_tells_the_capture_thread_to_exit(before[i], remains[i]);
    }
}

/// That all pipelines were stopped means that there are remains of each, joined.
pub proof fn law_stopped_all_means_joined_all<D, H, F: Fn(&Session<D, H>, H, H)>(
    before: Seq<PipelineModel<D, H>>,
    join: F,
)
    requires
        Session::stopped_all(before, join),
    ensures
        exists|remains: Seq<StoppedPipeline<D, H>>, left: Seq<Session<D, H>>| #[trigger]
            Session::joined_all(before, join, remains, left),
{
}

/// A pipeline meets its barrier when it is released exactly if both its threads are
/// ready and it was not met before. That is the one thing that changes, and it is then
/// past the barrier.
pub proof fn law_release_meets_the_barrier<D, H>(pipeline: PipelineModel<D, H>)
    ensures
        ({
            let after = pipeline.released_if_ready();
            let meets = pipeline.playback_ready && pipeline.capture_ready && !pipeline.released;
            &&& after.released == (pipeline.released || (pipeline.playback_ready
                && pipeline.capture_ready))
            &&& after.meetings.len() == pipeline.meetings.len() + if meets {
                1int
            } else {
                0int
            }
            &&& meets ==> after.meetings == pipeline.meetings.push(pipeline.commands)
            &&& !meets ==> after == pipeline
            &&& after == (PipelineModel {
                released: after.released,
                meetings: after.meetings,
                ..pipeline
            })
        }),
{
}

/// Handing an update to a processing thread, or a command to a capture thread, adds
/// exactly that to what it was handed and changes nothing else.
pub proof fn law_sending_adds_one_message<D, H>(
    pipeline: PipelineModel<D, H>,
    change: ChangeModel,
    config: ConfigModel,
    taken: bool,
    command: CommandMessage,
    after: PipelineModel<D, H>,
)
    ensures
        got_update(pipeline, pipeline.updated(change, config, taken), change, config, taken),
        after.got_command(pipeline, command) ==> {
            &&& after.commands.len() == pipeline.commands.len() + 1
            &&& after.commands.last().0 == command
            &&& after.commands.drop_last() == pipeline.commands
            &&& after == (PipelineModel { commands: after.commands, ..pipeline })
        },
{
    let updates = pipeline.updates.push(((change, config), taken));
    assert(updates.drop_last() =~= pipeline.updates);
    if after.got_command(pipeline, command) {
        assert(after.commands.drop_last() =~= pipeline.commands);
    }
}

/// A valid pipeline has met its barrier exactly once if it is past it and never
/// otherwise, is past it only with both its threads ready, shares it with three other
/// threads, and never has to wait to send.
pub proof fn law_valid_pipeline<D, H>(pipeline: PipelineModel<D, H>)
    requires
        pipeline.wf(),
    ensures
        pipeline.released ==> pipeline.meetings.len() == 1,
        !pipeline.released ==> pipeline.meetings.len() == 0,
        pipeline.released ==> pipeline.playback_ready && pipeline.capture_ready,
        pipeline.parties == 4,
        pipeline.command_limit is None,
        pipeline.update_limit is None,
{
}

/// A pipeline with the handles of its threads is what it was without, with exactly these
/// handles, each in its place.
pub proof fn law_attaching_keeps_the_pipeline<D, H>(
    pipeline: PipelineModel<D, ()>,
    pb_handle: H,
    cap_handle: H,
)
    ensures
        ({
            let after = pipeline.attached(pb_handle, cap_handle);
            &&& after.pb_handle == pb_handle
            &&& after.cap_handle == cap_handle
            &&& after.device_group == pipeline.device_group
            &&& after.commands == pipeline.commands
            &&& after.updates == pipeline.updates
            &&& after.meetings == pipeline.meetings
            &&& after.playback_ready == pipeline.playback_ready
            &&& after.capture_ready == pipeline.capture_ready
            &&& after.released == pipeline.released
            &&& after.place == pipeline.place
            &&& after.parties == pipeline.parties
            &&& after.command_limit == pipeline.command_limit
            &&& after.update_limit == pipeline.update_limit
            &&& after.rx_status == pipeline.rx_status
            &&& after.rx_command == pipeline.rx_command
            &&& after.rx_update == pipeline.rx_update
            &&& after.status == pipeline.status
        }),
{
}

/// A pipeline that was wired up carries audio from capture over processing to playback,
/// within the limit; commands to capture, updates to processing and reports of both
/// device threads to the supervisor, without a limit; and one barrier of four is shared
/// by all. Nothing was sent, nobody is ready, and nothing was released.
pub proof fn law_wiring<D>(
    setup: PipelineSetup<D>,
    limit: usize,
    device_group: usize,
    status: StatusStructs<D>,
)
    requires
        setup.audio_wired(limit),
        setup.control_wired(),
        setup.barrier_shared(),
        fresh_pipeline(setup.pipeline@, device_group, status),
    ensures
        audio_end(setup.capture.tx_cap) == setup.processing.rx_cap,
        audio_end(setup.processing.tx_pb) == setup.playback.rx_pb,
        audio_limit(setup.capture.tx_cap) == Some(limit),
        audio_limit(setup.processing.tx_pb) == Some(limit),
        setup.pipeline@.rx_command == setup.capture.rx_command_cap,
        setup.pipeline@.rx_update == setup.processing.rx_pipeconf,
        status_end(setup.playback.tx_status) == setup.pipeline@.rx_status,
        status_end(setup.capture.tx_status) == setup.pipeline@.rx_status,
        status_limit(setup.playback.tx_status) is None,
        status_limit(setup.capture.tx_status) is None,
        setup.pipeline@.command_limit is None,
        setup.pipeline@.update_limit is None,
        meeting_place(*setup.processing.barrier) == setup.pipeline@.place,
        meeting_place(*setup.playback.barrier) == setup.pipeline@.place,
        meeting_place(*setup.capture.barrier) == setup.pipeline@.place,
        parties(*setup.processing.barrier) == 4,
        parties(*setup.playback.barrier) == 4,
        parties(*setup.capture.barrier) == 4,
        setup.pipeline@.parties == 4,
        setup.pipeline@.meetings.len() == 0,
        setup.pipeline@.device_group == device_group,
        setup.pipeline@.status == status,
        setup.pipeline@.commands.len() == 0,
        setup.pipeline@.updates.len() == 0,
        !setup.pipeline@.playback_ready,
        !setup.pipeline@.capture_ready,
        !setup.pipeline@.released,
{
}

// ---------------------------------------------------------------------------
// The engine.
// ---------------------------------------------------------------------------

/// The numbers that others rely on.
pub proof fn law_numbers()
    ensures
        EXIT_OK == 0,
        EXIT_BAD_CONFIG == 101,
        EXIT_PROCESSING_ERROR == 102,
        EXIT_FORCED == 103,
        NUM_FADERS == 5,
        MAIN_FADER == 0,
        COMMAND_QUEUE_LIMIT == 10,
        BARRIER_PARTIES == 4,
{
}

/// Between two sessions the engine receives whenever commands are queued. With none
/// queued it starts a session if there is a configuration, and otherwise waits for a
/// command if it is to wait, or quits cleanly.
pub proof fn law_between_sessions(has_config: bool, has_commands: bool, wait: bool)
    ensures
        has_commands ==> idle_spec(has_config, has_commands, wait) is Receive,
        !has_commands && has_config ==> idle_spec(has_config, has_commands, wait) is Start,
        !has_commands && !has_config && wait ==> idle_spec(
            has_config,
            has_commands,
            wait,
        ) is Receive,
        !has_commands && !has_config && !wait ==> idle_spec(has_config, has_commands, wait)
            == Idle::Quit(0),
{
}

/// A configuration that is received between two sessions becomes the active one, a stop
/// leaves none active, and both make the engine look again. A request to quit, and a
/// queue that is closed, store nothing and make it quit cleanly. The previous
/// configuration is never touched.
pub proof fn law_command_between_sessions(
    before: ConfigStores,
    message: Result<ControllerModel, Disconnected>,
)
    ensures
        ({
            let after = stores_after_command(before, message);
            &&& after.previous == before.previous
            &&& after.together == before.together
            &&& after.active_place == before.active_place
            &&& after.previous_place == before.previous_place
            &&& match message {
                Ok(ControllerModel::ConfigChanged(config)) => {
                    &&& after.active == before.active.push(Some(config))
                    &&& quit_on_command(message) is None
                },
                Ok(ControllerModel::Stop) => {
                    &&& after.active == before.active.push(None)
                    &&& quit_on_command(message) is None
                },
                Ok(ControllerModel::Exit) => {
                    &&& after.active == before.active
                    &&& quit_on_command(message) == Some(0i32)
                },
                Err(_) => {
                    &&& after.active == before.active
                    &&& quit_on_command(message) == Some(0i32)
                },
            }
        }),
{
}

/// One look of the engine takes one command and answers it if commands are queued, or if
/// there is neither a configuration nor a reason to quit; otherwise it takes none and
/// stores nothing, and starts a session if there is a configuration, or quits cleanly.
pub proof fn law_one_look(
    before: IdleState,
    found: Option<ConfigModel>,
    has_commands: bool,
    wait: bool,
    message: Result<ControllerModel, Disconnected>,
)
    ensures
        ({
            let (after, waited) = waited_spec(before, found, has_commands, wait, message);
            if has_commands || (found is None && wait) {
                &&& after.taken == before.taken.push(message)
                &&& match message {
                    Ok(ControllerModel::ConfigChanged(config)) => {
                        &&& waited is Again
                        &&& after.stores == (ConfigStores {
                            active: before.stores.active.push(Some(config)),
                            ..before.stores
                        })
                    },
                    Ok(ControllerModel::Stop) => {
                        &&& waited is Again
                        &&& after.stores == (ConfigStores {
                            active: before.stores.active.push(None),
                            ..before.stores
                        })
                    },
                    Ok(ControllerModel::Exit) => {
                        &&& waited == Waited::Quit(0)
                        &&& after.stores == before.stores
                    },
                    Err(_) => {
                        &&& waited == Waited::Quit(0)
                        &&& after.stores == before.stores
                    },
                }
            } else {
                &&& after == before
                &&& waited == if found is Some {
                    Waited::Start
                } else {
                    Waited::Quit(0)
                }
            }
        }),
{
}

/// What a look rests on was observed of the active cell and of the command queue: the
/// configuration, whether there are commands, and the command that was received, which
/// was the oldest.
pub proof fn law_look_rests_on_what_was_observed(
    engine: &Engine,
    rx_command: Receiver<ControllerMessage>,
    found: Option<ConfigModel>,
    has_commands: bool,
    message: Result<ControllerModel, Disconnected>,
)
    requires
        engine.observed(rx_command, found, has_commands, message),
    ensures
        found_in(*engine.active_cell(), found),
        seen_empty(rx_command, !has_commands),
        has_commands || (found is None && engine.waits()) ==> exists|queue: Seq<ControllerModel>|
            #[trigger] came_out(rx_command, queue, message) && if queue.len() > 0 {
                message == Ok::<_, Disconnected>(queue[0])
            } else {
                message is Err
            },
        engine.idle_state(rx_command).stores == engine.stores(),
        engine.idle_state(rx_command).taken == taken_controls(rx_command),
{
    if has_commands || (found is None && engine.waits()) {
        let queue = choose|queue: Seq<ControllerModel>|
            came_out(rx_command, queue, message) && message == front(queue);
        assert(came_out(rx_command, queue, message));
    }
}

/// After a session the engine quits cleanly exactly if it was asked to, and with the
/// code of a processing error exactly if the session ended in one and the engine is not
/// to wait. Otherwise it goes on.
pub proof fn law_after_a_session(result: Result<ExitState, EngineError>, wait: bool)
    ensures
        after_session_spec(result, wait) == Some(0i32) <==> result == Ok::<_, EngineError>(
            ExitState::Exit,
        ),
        after_session_spec(result, wait) == Some(102i32) <==> result is Err && !wait,
        after_session_spec(result, wait) is None <==> result == Ok::<_, EngineError>(
            ExitState::Restart,
        ) || (result is Err && wait),
{
}

/// The engine refuses to start, with the code of a bad configuration, exactly if there is
/// an initial configuration that could not be read, and then queues nothing. One that
/// was read is queued as it is, and the engine runs exactly if the queue took it.
/// Without one the engine runs.
pub proof fn law_initial_configuration<E>(
    before: Seq<(ControllerModel, bool)>,
    loaded: Option<Result<Configuration, E>>,
    after: Seq<(ControllerModel, bool)>,
    startup: Startup,
)
    requires
        startup == startup_spec(loaded, after.last().1),
        initial_queued(before, loaded, after, startup),
    ensures
        match loaded {
            Some(Ok(config)) => {
                &&& after.len() == before.len() + 1
                &&& after.drop_last() == before
                &&& after.last().0 == ControllerModel::ConfigChanged(config@)
                &&& after.last().1 ==> startup is Proceed
                &&& !after.last().1 ==> startup is QueueClosed
            },
            Some(Err(_)) => after == before && startup == Startup::Quit(101),
            None => after == before && startup is Proceed,
        },
{
    if loaded matches Some(Ok(_)) {
        assert(after.drop_last() =~= before);
    }
}

/// An engine that runs starts the signals, the server exactly if it has a port, with
/// that port, and the state file exactly if there is one, in this order and each once.
/// One that does not run starts nothing.
pub proof fn law_services(startup: Startup, ws_port: Option<usize>, has_statefile: bool)
    ensures
        ({
            let services = services_spec(startup, ws_port, has_statefile);
            if startup is Proceed {
                &&& services.len() == 1 + (if ws_port is Some {
                    1int
                } else {
                    0int
                }) + (if has_statefile {
                    1int
                } else {
                    0int
                })
                &&& services[0] is Signals
                &&& ws_port is Some ==> services[1] == Service::Server(ws_port->0)
                &&& has_statefile ==> services.last() is StateFile
            } else {
                services.len() == 0
            }
        }),
{
}

/// Each of the five faders, in order, is set to its own volume and its own mute.
pub proof fn law_faders(volumes: Seq<u32>, mutes: Seq<bool>)
    ensures
        faders_spec(volumes, mutes).len() == 5,
        forall|i: int|
            0 <= i < 5 ==> {
                let setting: FaderSetting = #[trigger] faders_spec(volumes, mutes)[i];
                &&& setting.fader == i
                &&& setting.volume == volumes[i]
                &&& setting.mute == mutes[i]
            },
{
}

/// A session that an engine began withdrew any request to shut down, runs what was found
/// in the active cell, is at the beginning of its startup without pipelines, and works
/// on the cells and the run status of the engine. If nothing was found, the engine quits.
pub proof fn law_begun_session<D, H, F: Fn(bool)>(
    engine: &Engine,
    set_shutdown_requested: F,
    result: Result<Session<D, H>, ExitState>,
)
    requires
        engine.started(set_shutdown_requested, result),
    ensures
        call_ensures(set_shutdown_requested, (false,), ()),
        match result {
            Ok(session) => {
                &&& found_in(*engine.active_cell(), Some(session.active()))
                &&& session.starting()
                &&& session.pipelines().len() == 0
                &&& session.stores() == engine.stores()
                &&& session.reasons() == engine.reasons()
                &&& session.status_place() == engine.status_place()
            },
            Err(exit) => exit is Exit && found_in(*engine.active_cell(), None),
        },
{
}

/// Two engines share what they work on exactly if both cells and the run status are the
/// same, and so it is with an engine and a session.
pub proof fn law_sharing<D, H>(engine: &Engine, other: &Engine, session: &Session<D, H>)
    ensures
        engine.shares_with(other) <==> engine.stores().active_place == other.stores().active_place
            && engine.stores().previous_place == other.stores().previous_place
            && engine.status_place() == other.status_place(),
        engine.runs(session) <==> session.stores().active_place == engine.stores().active_place
            && session.stores().previous_place == engine.stores().previous_place
            && session.status_place() == engine.status_place(),
{
}

/// Recording the end of playback leaves `Done` where no reason stood, and the reason that
/// stood otherwise. The first group, and no other, reports into the state of the process.
pub proof fn law_done_and_sources(found: StopModel, group: usize)
    ensures
        found is NotStopped ==> reason_when_done(found) is Done,
        !(found is NotStopped) ==> reason_when_done(found) == found,
        source_of(group) is Process <==> group == 0,
        source_of(group) is Fresh <==> group != 0,
{
}

// ---------------------------------------------------------------------------
// Values and what is said of them.
// ---------------------------------------------------------------------------

/// A status message is spoken of as what it is, with what it carries.
pub proof fn law_status_messages_are_spoken_of_as_they_are(
    message: StatusMessage,
    received: Result<StatusMessage, Disconnected>,
)
    ensures
        match message {
            StatusMessage::PlaybackReady => message@ is PlaybackReady,
            StatusMessage::CaptureReady => message@ is CaptureReady,
            StatusMessage::PlaybackError(text) => message@ == StatusModel::PlaybackError(text@),
            StatusMessage::CaptureError(text) => message@ == StatusModel::CaptureError(text@),
            StatusMessage::PlaybackFormatChange(rate) => message@
                == StatusModel::PlaybackFormatChange(rate),
            StatusMessage::CaptureFormatChange(rate) => message@
                == StatusModel::CaptureFormatChange(rate),
            StatusMessage::PlaybackDone => message@ is PlaybackDone,
            StatusMessage::CaptureDone => message@ is CaptureDone,
            StatusMessage::SetSpeed(speed) => message@ == StatusModel::SetSpeed(speed),
            StatusMessage::SetVolume(volume) => message@ == StatusModel::SetVolume(volume),
            StatusMessage::SetMute(mute) => message@ == StatusModel::SetMute(mute),
        },
        match received {
            Ok(m) => status_model(received) == Ok::<_, Disconnected>(m@),
            Err(_) => status_model(received) is Err,
        },
{
}

/// A command of the controller is spoken of as what it is, with what it carries.
pub proof fn law_commands_are_spoken_of_as_they_are(
    message: ControllerMessage,
    received: Result<ControllerMessage, Disconnected>,
)
    ensures
        match message {
            ControllerMessage::ConfigChanged(config) => message@
                == ControllerModel::ConfigChanged((*config)@),
            ControllerMessage::Stop => message@ is Stop,
            ControllerMessage::Exit => message@ is Exit,
        },
        match received {
            Ok(m) => control_model(received) == Ok::<_, Disconnected>(m@),
            Err(_) => control_model(received) is Err,
        },
{
}

/// An event is spoken of as what it is, with the pipeline that it comes from.
pub proof fn law_events_are_spoken_of_as_they_are(event: SupervisorEvent)
    ensures
        match event {
            SupervisorEvent::Control(message) => event@ == EventModel::Control(
                control_model(message),
            ),
            SupervisorEvent::Status(index, message) => event@ == EventModel::Status(
                index,
                status_model(message),
            ),
        },
{
}

/// A stop reason is spoken of as what it is, with what it carries.
pub proof fn law_stop_reasons_are_spoken_of_as_they_are(reason: StopReason)
    ensures
        match reason {
            StopReason::NotStopped => reason@ is NotStopped,
            StopReason::Done => reason@ is Done,
            StopReason::CaptureError(text) => reason@ == StopModel::CaptureError(text@),
            StopReason::PlaybackError(text) => reason@ == StopModel::PlaybackError(text@),
            StopReason::UnknownError(text) => reason@ == StopModel::UnknownError(text@),
            StopReason::CaptureFormatChange(rate) => reason@ == StopModel::CaptureFormatChange(
                rate,
            ),
            StopReason::PlaybackFormatChange(rate) => reason@ == StopModel::PlaybackFormatChange(
                rate,
            ),
        },
{
}

/// An effect, and an answer, is spoken of as what it is, with what it carries.
pub proof fn law_effects_are_spoken_of_as_they_are(
    effect: Effect,
    reaction: Reaction,
    effects: Seq<Effect>,
)
    ensures
        match effect {
            Effect::SetStopReason(reason) => effect@ == EffectModel::SetStopReason(reason@),
            Effect::RecordDone => effect@ is RecordDone,
            Effect::StopPipelines => effect@ is StopPipelines,
            Effect::RetireConfig(config) => effect@ == EffectModel::RetireConfig(config@),
            Effect::RememberConfig(config) => effect@ == EffectModel::RememberConfig(config@),
            Effect::ActivateConfig(config) => effect@ == EffectModel::ActivateConfig(config@),
            Effect::CaptureInactive => effect@ is CaptureInactive,
            Effect::ResetLoads => effect@ is ResetLoads,
            Effect::CompareConfig(config) => effect@ == EffectModel::CompareConfig(config@),
            Effect::RefreshChannels { index, device_group } => effect@ == (
            EffectModel::RefreshChannels { index, device_group }),
            Effect::SetTargetVolume { index, fader, volume } => effect@ == (
            EffectModel::SetTargetVolume { index, fader, volume }),
            Effect::SetMute { index, fader, mute } => effect@ == (EffectModel::SetMute {
                index,
                fader,
                mute,
            }),
        },
        effect_models(effects).len() == effects.len(),
        forall|i: int|
            0 <= i < effects.len() ==> #[trigger] effect_models(effects)[i] == effects[i]@,
        reaction@.effects.len() == reaction.effects@.len(),
        forall|i: int|
            0 <= i < reaction.effects@.len() ==> #[trigger] reaction@.effects[i]
                == reaction.effects@[i]@,
        reaction@.outcome == reaction.outcome,
{
}

/// A configuration, and how two of them differ, is spoken of as what it is, with its
/// text, its device groups and all its names in order.
pub proof fn law_configurations_are_spoken_of_as_they_are(
    config: Configuration,
    optional: Option<Configuration>,
    devices: Devices,
    change: ConfigChange,
    list: Seq<String>,
)
    ensures
        config@.document == config.document@,
        config@.devices == config.devices@,
        devices@ == devices.groups@,
        optional is None <==> config_model(optional) is None,
        optional matches Some(c) ==> config_model(optional) == Some(c@),
        names(list).len() == list.len(),
        forall|i: int| 0 <= i < list.len() ==> #[trigger] names(list)[i] == list[i]@,
        match change {
            ConfigChange::FilterParameters { filters, mixers, processors } => change@ == (
            ChangeModel::FilterParameters {
                filters: names(filters@),
                mixers: names(mixers@),
                processors: names(processors@),
            }),
            ConfigChange::MixerParameters => change@ is MixerParameters,
            ConfigChange::Pipeline => change@ is Pipeline,
            ConfigChange::Devices => change@ is Devices,
            ConfigChange::Unchanged => change@ is Unchanged,
        },
        takes_effect_live(change@) == is_live(change@),
{
}

} // verus!

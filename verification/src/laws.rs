//! What holds of sessions and of the engine as a whole, whatever messages come
//! and in whatever order.

use crate::channels::{front, picked, standing, Watch};
use crate::config::{ChangeModel, ConfigModel, Configuration};
use crate::engine::{
    after_session_spec, idle_spec, quit_on_command, services_spec, startup_spec,
    stores_after_command, waited_spec, Engine, Idle, IdleState, Service, Startup, Waited,
    EXIT_BAD_CONFIG, EXIT_OK, EXIT_PROCESSING_ERROR,
};
use crate::engine_pipeline::{PipelineModel, StoppedPipeline};
use crate::messages::{
    ControllerMessage, ControllerModel, Disconnected, EngineError, ExitState, StatusModel,
    StopModel,
};
use crate::session::{
    change_step, control_step, group_after, is_for_host, possible, reasons_after, reasons_after_all,
    status_step, step, stores_after, stores_after_all, takes_effect_live, EffectModel, EventModel,
    GroupState, ReactionModel, Session, SessionState, THREADS_GONE,
};
use crate::shared::{reason_when_done, ConfigStores};
use crossbeam_channel::{Receiver, SelectedOperation};
use vstd::prelude::*;

verus! {

/// What drives a session on: an event, together with whether further controller
/// commands were queued, or the answer to how a new configuration differs.
pub enum Input {
    Event(EventModel, bool),
    Change(ChangeModel, ConfigModel),
}

/// What a session becomes, and what it answers, on an input.
pub open spec fn next(s: SessionState, input: Input) -> (SessionState, ReactionModel) {
    match input {
        Input::Event(event, more) => step(s, event, more),
        Input::Change(change, config) => change_step(s, change, config),
    }
}

/// Whether an input can come. A configuration is compared only on a command.
pub open spec fn can_come(s: SessionState, input: Input) -> bool {
    match input {
        Input::Event(event, _) => possible(s, event),
        Input::Change(_, _) => !s.starting,
    }
}

/// A session in which nothing happened yet, with a pipeline for each of the
/// device groups.
pub open spec fn fresh_session(device_groups: Seq<usize>, active: ConfigModel) -> SessionState {
    SessionState {
        groups: Seq::new(
            device_groups.len(),
            |i: int|
                GroupState {
                    device_group: device_groups[i],
                    playback_ready: false,
                    capture_ready: false,
                    released: false,
                },
        ),
        starting: true,
        active,
    }
}

/// A session to which pipelines were added that have heard nothing from their
/// threads yet is one in which nothing happened: what holds of every run of a
/// fresh session holds of it.
pub proof fn law_new_session_is_fresh<D, H>(session: &Session<D, H>)
    requires
        session.starting(),
        forall|i: int|
            0 <= i < session.pipelines().len() ==> {
                let pipeline = #[trigger] session.pipelines()[i];
                !pipeline.playback_ready && !pipeline.capture_ready && !pipeline.released
            },
    ensures
        session.state() == fresh_session(
            Seq::new(
                session.pipelines().len(),
                |i: int| session.pipelines()[i].device_group,
            ),
            session.active(),
        ),
{
    assert(session.state() =~= fresh_session(
        Seq::new(session.pipelines().len(), |i: int| session.pipelines()[i].device_group),
        session.active(),
    ));
}

/// The device groups of a configuration, in order.
pub open spec fn all_groups(config: ConfigModel) -> Seq<usize> {
    Seq::new(config.devices.len(), |i: int| i as usize)
}

/// Once no group is left to get a pipeline, there is one pipeline per device group
/// of the configuration, in order: a session whose pipelines have heard nothing yet
/// is a fresh one of all groups.
pub proof fn law_every_group_has_its_pipeline<D, H>(session: &Session<D, H>)
    requires
        session.covers_first_groups(),
        group_after(session.pipelines().len(), session.active()) is None,
        session.starting(),
        forall|i: int|
            0 <= i < session.pipelines().len() ==> {
                let pipeline = #[trigger] session.pipelines()[i];
                !pipeline.playback_ready && !pipeline.capture_ready && !pipeline.released
            },
    ensures
        session.pipelines().len() == session.active().devices.len(),
        forall|i: int|
            0 <= i < session.pipelines().len() ==> (#[trigger] session.pipelines()[i]).device_group
                == i,
        session.state() == fresh_session(all_groups(session.active()), session.active()),
{
    law_new_session_is_fresh(session);
    assert(Seq::new(
        session.pipelines().len(),
        |i: int| session.pipelines()[i].device_group,
    ) =~= all_groups(session.active()));
}

/// The state of a session after a run of inputs.
pub open spec fn after(s: SessionState, inputs: Seq<Input>) -> SessionState
    decreases inputs.len(),
{
    if inputs.len() == 0 {
        s
    } else {
        next(after(s, inputs.drop_last()), inputs.last()).0
    }
}

/// Whether a run of inputs can come.
pub open spec fn can_run(s: SessionState, inputs: Seq<Input>) -> bool
    decreases inputs.len(),
{
    inputs.len() == 0 || {
        &&& can_run(s, inputs.drop_last())
        &&& can_come(after(s, inputs.drop_last()), inputs.last())
    }
}

/// The input is this message from the pipeline at `index`.
pub open spec fn is_status(input: Input, index: int, message: StatusModel) -> bool {
    match input {
        Input::Event(EventModel::Status(i, Ok(m)), _) => i == index && m == message,
        _ => false,
    }
}

/// A run of inputs holds this message from the pipeline at `index`.
pub open spec fn heard(inputs: Seq<Input>, index: int, message: StatusModel) -> bool {
    exists|i: int| 0 <= i < inputs.len() && #[trigger] is_status(inputs[i], index, message)
}

/// In a run of inputs, both device threads of the pipeline at `index` say that
/// they are ready.
pub open spec fn both_ready(inputs: Seq<Input>, index: int) -> bool {
    &&& heard(inputs, index, StatusModel::PlaybackReady)
    &&& heard(inputs, index, StatusModel::CaptureReady)
}

/// A message that was heard in a run is either in its beginning or its last
/// input.
proof fn lemma_heard_step(inputs: Seq<Input>, index: int, message: StatusModel)
    requires
        inputs.len() > 0,
    ensures
        heard(inputs, index, message) == (heard(inputs.drop_last(), index, message) || is_status(
            inputs.last(),
            index,
            message,
        )),
{
    let rest = inputs.drop_last();
    if heard(rest, index, message) {
        let i = choose|i: int| 0 <= i < rest.len() && #[trigger] is_status(rest[i], index, message);
        assert(is_status(inputs[i], index, message));
    }
    if is_status(inputs.last(), index, message) {
        assert(is_status(inputs[inputs.len() - 1], index, message));
    }
    if heard(inputs, index, message) {
        let i = choose|i: int|
            0 <= i < inputs.len() && #[trigger] is_status(inputs[i], index, message);
        if i < rest.len() {
            assert(is_status(rest[i], index, message));
        }
    }
}

/// A group is as far as its messages say: each device thread is ready once it
/// said so, and the startup barrier is released exactly when both are.
pub open spec fn as_heard(group: GroupState, inputs: Seq<Input>, index: int) -> bool {
    &&& group.playback_ready == heard(inputs, index, StatusModel::PlaybackReady)
    &&& group.capture_ready == heard(inputs, index, StatusModel::CaptureReady)
    &&& group.released == (group.playback_ready && group.capture_ready)
}

/// The startup barrier of a group is released once both its playback and its
/// capture thread have said that they are ready, and not before.
pub proof fn law_released_once_both_ready(
    device_groups: Seq<usize>,
    active: ConfigModel,
    inputs: Seq<Input>,
)
    requires
        can_run(fresh_session(device_groups, active), inputs),
    ensures
        after(fresh_session(device_groups, active), inputs).groups.len() == device_groups.len(),
        forall|i: int|
            0 <= i < device_groups.len() ==> {
                let group = #[trigger] after(
                    fresh_session(device_groups, active),
                    inputs,
                ).groups[i];
                &&& group.device_group == device_groups[i]
                &&& as_heard(group, inputs, i)
            },
    decreases inputs.len(),
{
    let s = fresh_session(device_groups, active);
    if inputs.len() > 0 {
        let rest = inputs.drop_last();
        law_released_once_both_ready(device_groups, active, rest);
        let before = after(s, rest);
        let now = after(s, inputs);
        assert forall|i: int| 0 <= i < device_groups.len() implies {
            let group = #[trigger] now.groups[i];
            &&& group.device_group == device_groups[i]
            &&& as_heard(group, inputs, i)
        } by {
            lemma_heard_step(inputs, i, StatusModel::PlaybackReady);
            lemma_heard_step(inputs, i, StatusModel::CaptureReady);
            assert(as_heard(before.groups[i], rest, i));
        }
    }
}

/// Startup is over exactly when the startup barrier of every group is released.
pub proof fn law_started_once_all_released(
    device_groups: Seq<usize>,
    active: ConfigModel,
    inputs: Seq<Input>,
)
    requires
        device_groups.len() > 0,
        can_run(fresh_session(device_groups, active), inputs),
    ensures
        after(fresh_session(device_groups, active), inputs).starting == !after(
            fresh_session(device_groups, active),
            inputs,
        ).all_released(),
    decreases inputs.len(),
{
    let s = fresh_session(device_groups, active);
    law_released_once_both_ready(device_groups, active, inputs);
    if inputs.len() > 0 {
        let rest = inputs.drop_last();
        law_released_once_both_ready(device_groups, active, rest);
        law_started_once_all_released(device_groups, active, rest);
        let before = after(s, rest);
        let now = after(s, inputs);
        if before.all_released() {
            assert forall|i: int| 0 <= i < now.groups.len() implies (
            #[trigger] now.groups[i]).released by {
                assert(before.groups[i].released);
            }
        }
        if now.groups == before.groups {
            assert(now.all_released() == before.all_released());
        }
    } else {
        assert(!s.groups[0].released);
    }
}

/// While a controller command can come, every group has started: both its device
/// threads have said that they are ready, and its barrier is released.
pub proof fn law_commands_wait_for_startup(
    device_groups: Seq<usize>,
    active: ConfigModel,
    inputs: Seq<Input>,
    message: Result<ControllerModel, Disconnected>,
)
    requires
        device_groups.len() > 0,
        can_run(fresh_session(device_groups, active), inputs),
        possible(after(fresh_session(device_groups, active), inputs), EventModel::Control(message)),
    ensures
        after(fresh_session(device_groups, active), inputs).all_released(),
        forall|i: int| 0 <= i < device_groups.len() ==> #[trigger] both_ready(inputs, i),
{
    law_released_once_both_ready(device_groups, active, inputs);
    law_started_once_all_released(device_groups, active, inputs);
    let s = after(fresh_session(device_groups, active), inputs);
    assert forall|i: int| 0 <= i < device_groups.len() implies #[trigger] both_ready(
        inputs,
        i,
    ) by {
        assert(s.groups[i].released);
    }
}

/// While a controller command can come in a session of all groups of a
/// configuration, every one of these groups has started.
pub proof fn law_commands_wait_for_every_group(
    config: ConfigModel,
    inputs: Seq<Input>,
    message: Result<ControllerModel, Disconnected>,
)
    requires
        config.devices.len() > 0,
        can_run(fresh_session(all_groups(config), config), inputs),
        possible(
            after(fresh_session(all_groups(config), config), inputs),
            EventModel::Control(message),
        ),
    ensures
        after(fresh_session(all_groups(config), config), inputs).groups.len()
            == config.devices.len(),
        forall|i: int|
            0 <= i < config.devices.len() ==> {
                let group = #[trigger] after(
                    fresh_session(all_groups(config), config),
                    inputs,
                ).groups[i];
                &&& group.device_group == i as usize
                &&& group.released
                &&& both_ready(inputs, i)
            },
{
    law_released_once_both_ready(all_groups(config), config, inputs);
    law_commands_wait_for_startup(all_groups(config), config, inputs, message);
}

/// No command is taken out of the control channel before startup is over, and then
/// each command that is taken is the oldest in the channel.
pub proof fn law_commands_are_taken_oldest_first<D, H>(
    session: &Session<D, H>,
    rx_ctrl: Receiver<ControllerMessage>,
    message: Result<ControllerModel, Disconnected>,
)
    requires
        session.brought(rx_ctrl, EventModel::Control(message)),
    ensures
        !session.starting(),
        exists|oper: SelectedOperation<'_>|
            picked(oper) == Watch::Control(rx_ctrl) && message == front(#[trigger] standing(oper)),
{
    let oper = choose|oper: SelectedOperation<'_>|
        session.brought_by(rx_ctrl, EventModel::Control(message), oper);
    assert(message == front(standing(oper)));
}

/// It does not matter in which order the device threads become ready: two runs in
/// which the same threads said so leave every group, and startup, as far.
pub proof fn law_startup_order_is_irrelevant(
    device_groups: Seq<usize>,
    active: ConfigModel,
    one: Seq<Input>,
    other: Seq<Input>,
)
    requires
        device_groups.len() > 0,
        can_run(fresh_session(device_groups, active), one),
        can_run(fresh_session(device_groups, active), other),
        forall|i: int, message: StatusModel|
            message is PlaybackReady || message is CaptureReady ==> heard(one, i, message) == heard(
                other,
                i,
                message,
            ),
    ensures
        after(fresh_session(device_groups, active), one).groups == after(
            fresh_session(device_groups, active),
            other,
        ).groups,
        after(fresh_session(device_groups, active), one).starting == after(
            fresh_session(device_groups, active),
            other,
        ).starting,
{
    let s = after(fresh_session(device_groups, active), one);
    let t = after(fresh_session(device_groups, active), other);
    law_released_once_both_ready(device_groups, active, one);
    law_released_once_both_ready(device_groups, active, other);
    law_started_once_all_released(device_groups, active, one);
    law_started_once_all_released(device_groups, active, other);
    assert forall|i: int| 0 <= i < s.groups.len() implies #[trigger] s.groups[i] == t.groups[i] by {
        assert(as_heard(s.groups[i], one, i));
        assert(as_heard(t.groups[i], other, i));
    }
    assert(s.groups =~= t.groups);
    assert(s.all_released() == t.all_released());
}

/// Once startup is over, it stays over.
pub proof fn law_started_stays_started(s: SessionState, input: Input)
    requires
        !s.starting,
    ensures
        !next(s, input).0.starting,
{
}

/// A ready message that comes when startup is over changes nothing.
pub proof fn law_late_ready_changes_nothing(
    device_groups: Seq<usize>,
    active: ConfigModel,
    inputs: Seq<Input>,
    index: usize,
    message: StatusModel,
)
    requires
        can_run(fresh_session(device_groups, active), inputs),
        !after(fresh_session(device_groups, active), inputs).starting,
        index < device_groups.len(),
        message is PlaybackReady || message is CaptureReady,
    ensures
        status_step(after(fresh_session(device_groups, active), inputs), index, Ok(message)) == (
            after(fresh_session(device_groups, active), inputs),
            ReactionModel { effects: seq![], outcome: None },
        ),
{
    let s = after(fresh_session(device_groups, active), inputs);
    law_released_once_both_ready(device_groups, active, inputs);
    law_started_once_all_released(device_groups, active, inputs);
    assert(as_heard(s.groups[index as int], inputs, index as int));
    assert(s.groups[index as int].released);
    let t = status_step(s, index, Ok(message)).0;
    assert(t.groups =~= s.groups);
    assert(t =~= s);
}

/// How often an effect occurs in a list.
pub open spec fn occurrences(effects: Seq<EffectModel>, effect: EffectModel) -> nat
    decreases effects.len(),
{
    if effects.len() == 0 {
        0
    } else {
        occurrences(effects.drop_last(), effect) + if effects.last() == effect {
            1nat
        } else {
            0nat
        }
    }
}

/// An effect that is not in a list occurs never.
proof fn lemma_absent(effects: Seq<EffectModel>, effect: EffectModel)
    requires
        forall|i: int| 0 <= i < effects.len() ==> #[trigger] effects[i] != effect,
    ensures
        occurrences(effects, effect) == 0,
    decreases effects.len(),
{
    if effects.len() > 0 {
        lemma_absent(effects.drop_last(), effect);
    }
}

/// An effect that is in a list at one place occurs once.
proof fn lemma_once(effects: Seq<EffectModel>, effect: EffectModel, place: int)
    requires
        0 <= place < effects.len(),
        effects[place] == effect,
        forall|i: int| 0 <= i < effects.len() && i != place ==> #[trigger] effects[i] != effect,
    ensures
        occurrences(effects, effect) == 1,
    decreases effects.len(),
{
    if place == effects.len() - 1 {
        lemma_absent(effects.drop_last(), effect);
    } else {
        lemma_once(effects.drop_last(), effect, place);
    }
}

/// How often an effect occurs in all answers to a run of inputs.
pub open spec fn occurrences_in_run(
    s: SessionState,
    inputs: Seq<Input>,
    effect: EffectModel,
) -> nat
    decreases inputs.len(),
{
    if inputs.len() == 0 {
        0
    } else {
        occurrences_in_run(s, inputs.drop_last(), effect) + occurrences(
            next(after(s, inputs.drop_last()), inputs.last()).1.effects,
            effect,
        )
    }
}

/// The stop reason is cleared exactly once in a session, when startup is over.
pub proof fn law_stop_reason_cleared_once(
    device_groups: Seq<usize>,
    active: ConfigModel,
    inputs: Seq<Input>,
)
    requires
        can_run(fresh_session(device_groups, active), inputs),
    ensures
        occurrences_in_run(
            fresh_session(device_groups, active),
            inputs,
            EffectModel::SetStopReason(StopModel::NotStopped),
        ) == if after(fresh_session(device_groups, active), inputs).starting {
            0nat
        } else {
            1nat
        },
    decreases inputs.len(),
{
    let s = fresh_session(device_groups, active);
    let clear = EffectModel::SetStopReason(StopModel::NotStopped);
    if inputs.len() > 0 {
        let rest = inputs.drop_last();
        law_stop_reason_cleared_once(device_groups, active, rest);
        let before = after(s, rest);
        let (now, reaction) = next(before, inputs.last());
        if before.starting && !now.starting {
            lemma_once(reaction.effects, clear, 0);
        } else {
            lemma_absent(reaction.effects, clear);
        }
    }
}

/// A session that ends other than in an error stops its pipelines, once, and one
/// that goes on or ends in an error does not.
pub proof fn law_end_stops_the_pipelines_once(s: SessionState, input: Input)
    ensures
        occurrences(next(s, input).1.effects, EffectModel::StopPipelines) == match next(
            s,
            input,
        ).1.outcome {
            Some(Ok(_)) => 1nat,
            _ => 0nat,
        },
{
    let reaction = next(s, input).1;
    let stop = EffectModel::StopPipelines;
    match reaction.outcome {
        Some(Ok(_)) => {
            if reaction.effects[0] == stop {
                lemma_once(reaction.effects, stop, 0);
            } else if reaction.effects[1] == stop {
                lemma_once(reaction.effects, stop, 1);
            } else {
                lemma_once(reaction.effects, stop, 2);
            }
        },
        _ => {
            lemma_absent(reaction.effects, stop);
        },
    }
}

/// A session asks the engine to quit exactly when the controller asked for it,
/// and ends in an error exactly when no controller is left.
pub proof fn law_quits_only_on_request(s: SessionState, input: Input)
    ensures
        next(s, input).1.outcome == Some(Ok::<ExitState, EngineError>(ExitState::Exit)) <==> (
        input matches Input::Event(EventModel::Control(Ok(message)), _) && message is Exit),
        (next(s, input).1.outcome matches Some(result) && result is Err) <==> (
        input matches Input::Event(EventModel::Control(message), _) && message is Err),
{
}

/// Effects that store nothing leave the configuration cells alone.
proof fn lemma_stores_nothing(before: ConfigStores, effects: Seq<EffectModel>)
    requires
        forall|i: int, stores: ConfigStores|
            0 <= i < effects.len() ==> #[trigger] stores_after(stores, effects[i]) == stores,
    ensures
        stores_after_all(before, effects) == before,
    decreases effects.len(),
{
    if effects.len() > 0 {
        let rest = effects.drop_last();
        assert forall|i: int, stores: ConfigStores| 0 <= i < rest.len() implies
            #[trigger] stores_after(stores, rest[i]) == stores by {
            assert(stores_after(stores, effects[i]) == stores);
        }
        lemma_stores_nothing(before, rest);
        assert(stores_after(before, effects[effects.len() - 1]) == before);
    }
}

/// Effects of which one stores something store that.
proof fn lemma_stores_one(before: ConfigStores, effects: Seq<EffectModel>, place: int)
    requires
        0 <= place < effects.len(),
        forall|i: int, stores: ConfigStores|
            0 <= i < effects.len() && i != place ==> #[trigger] stores_after(stores, effects[i])
                == stores,
    ensures
        stores_after_all(before, effects) == stores_after(before, effects[place]),
    decreases effects.len(),
{
    let rest = effects.drop_last();
    assert forall|i: int, stores: ConfigStores|
        0 <= i < rest.len() && i != place implies #[trigger] stores_after(stores, rest[i])
        == stores by {
        assert(stores_after(stores, effects[i]) == stores);
    }
    if place == effects.len() - 1 {
        lemma_stores_nothing(before, rest);
    } else {
        lemma_stores_one(before, rest, place);
        assert(stores_after(
            stores_after_all(before, rest),
            effects[effects.len() - 1],
        ) == stores_after_all(before, rest));
    }
}

/// No configuration is lost. When a session ends, the one that ran is remembered
/// as the previous one and none is left active, except that a request to quit
/// leaves the active one alone, and that a change of devices makes the new
/// configuration the active one.
pub proof fn law_configuration_after_the_end(s: SessionState, input: Input, before: ConfigStores)
    requires
        next(s, input).1.outcome matches Some(result) && result is Ok,
    ensures
        stores_after_all(before, next(s, input).1.effects) == match input {
            Input::Change(_, config) => ConfigStores {
                active: before.active.push(Some(config)),
                ..before
            },
            Input::Event(EventModel::Control(Ok(ControllerModel::Exit)), _) => ConfigStores {
                previous: before.previous.push(Some(s.active)),
                ..before
            },
            _ => ConfigStores {
                active: before.active.push(None),
                previous: before.previous.push(Some(s.active)),
                together: before.together.push((None, Some(s.active))),
                ..before
            },
        },
{
    let effects = next(s, input).1.effects;
    match input {
        Input::Event(EventModel::Status(_, Ok(StatusModel::PlaybackDone)), _) => {
            lemma_stores_one(before, effects, 1);
        },
        Input::Event(EventModel::Status(_, _), _) => {
            lemma_stores_one(before, effects, 2);
        },
        _ => {
            lemma_stores_one(before, effects, 1);
        },
    }
}

/// While a session goes on, the configuration cells follow the configuration
/// that runs: a configuration that is taken over becomes the active one, and
/// otherwise nothing is stored. A session that ends in an error stores nothing.
pub proof fn law_active_configuration_is_the_running_one(
    s: SessionState,
    input: Input,
    before: ConfigStores,
)
    requires
        !(next(s, input).1.outcome matches Some(result) && result is Ok),
    ensures
        ({
            let (now, reaction) = next(s, input);
            match input {
                Input::Change(change, config) if takes_effect_live(change) => {
                    &&& now.active == config
                    &&& stores_after_all(before, reaction.effects) == (ConfigStores {
                        active: before.active.push(Some(config)),
                        ..before
                    })
                },
                _ => {
                    &&& now.active == s.active
                    &&& stores_after_all(before, reaction.effects) == before
                },
            }
        }),
{
    let effects = next(s, input).1.effects;
    match input {
        Input::Change(change, config) if takes_effect_live(change) => {
            lemma_stores_one(before, effects, 0);
        },
        _ => {
            lemma_stores_nothing(before, effects);
        },
    }
}

/// The stop reason that an effect leaves where it finds `found`.
pub open spec fn reason_after(found: StopModel, effect: EffectModel) -> StopModel {
    match effect {
        EffectModel::SetStopReason(reason) => reason,
        EffectModel::RecordDone => reason_when_done(found),
        _ => found,
    }
}

/// The stop reason that a list of effects leaves where it finds `found`.
pub open spec fn reason_after_all(found: StopModel, effects: Seq<EffectModel>) -> StopModel
    decreases effects.len(),
{
    if effects.len() == 0 {
        found
    } else {
        reason_after(reason_after_all(found, effects.drop_last()), effects.last())
    }
}

/// The first of some effects decides on the stop reason, if none of the others
/// touches it.
proof fn lemma_reason_of_first(found: StopModel, effects: Seq<EffectModel>)
    requires
        effects.len() > 0,
        forall|i: int, reason: StopModel|
            1 <= i < effects.len() ==> #[trigger] reason_after(reason, effects[i]) == reason,
    ensures
        reason_after_all(found, effects) == reason_after(found, effects[0]),
    decreases effects.len(),
{
    let rest = effects.drop_last();
    if rest.len() > 0 {
        assert forall|i: int, reason: StopModel| 1 <= i < rest.len() implies
            #[trigger] reason_after(reason, rest[i]) == reason by {
            assert(reason_after(reason, effects[i]) == reason);
        }
        lemma_reason_of_first(found, rest);
        assert(reason_after(
            reason_after_all(found, rest),
            effects[effects.len() - 1],
        ) == reason_after_all(found, rest));
    } else {
        assert(reason_after_all(found, rest) == found);
    }
}

/// A session that a device ends leaves a stop reason behind: that of the device,
/// or, when playback has finished, that it is done, unless a reason stood before.
pub proof fn law_end_by_a_device_is_recorded(
    s: SessionState,
    index: usize,
    message: Result<StatusModel, Disconnected>,
    found: StopModel,
)
    requires
        status_step(s, index, message).1.outcome is Some,
    ensures
        reason_after_all(found, status_step(s, index, message).1.effects) !is NotStopped,
        reason_after_all(found, status_step(s, index, message).1.effects) == match message {
            Ok(StatusModel::PlaybackError(text)) => StopModel::PlaybackError(text),
            Ok(StatusModel::CaptureError(text)) => StopModel::CaptureError(text),
            Ok(StatusModel::PlaybackFormatChange(rate)) => StopModel::PlaybackFormatChange(rate),
            Ok(StatusModel::CaptureFormatChange(rate)) => StopModel::CaptureFormatChange(rate),
            Ok(_) => reason_when_done(found),
            Err(_) => StopModel::UnknownError(THREADS_GONE@),
        },
{
    lemma_reason_of_first(found, status_step(s, index, message).1.effects);
}

/// What the controller asks for leaves the stop reason alone.
pub proof fn law_controller_leaves_the_stop_reason(s: SessionState, input: Input, found: StopModel)
    requires
        !(input matches Input::Event(event, _) && event is Status),
    ensures
        reason_after_all(found, next(s, input).1.effects) == found,
{
    let effects = next(s, input).1.effects;
    if effects.len() > 0 {
        lemma_reason_of_first(found, effects);
    }
}

/// An update that finds the stop reason as the one before left it.
pub open spec fn undisturbed(
    updates: Seq<(StopModel, StopModel)>,
    start: int,
    found: StopModel,
) -> bool {
    forall|i: int|
        start <= i < updates.len() ==> (#[trigger] updates[i]).0 == if i == start {
            found
        } else {
            updates[i - 1].1
        }
}

/// The stop reason that stands once effects were carried out is the one that they
/// lead to, as long as no other thread changes it in between.
pub proof fn law_recorded_reason_is_the_one_left(
    before: Seq<(StopModel, StopModel)>,
    effects: Seq<EffectModel>,
    now: Seq<(StopModel, StopModel)>,
    found: StopModel,
)
    requires
        reasons_after_all(before, effects, now),
        undisturbed(now, before.len() as int, found),
    ensures
        now.len() >= before.len(),
        reason_after_all(found, effects) == if now.len() == before.len() {
            found
        } else {
            now.last().1
        },
    decreases effects.len(),
{
    if effects.len() > 0 {
        let last = effects.last();
        if last is SetStopReason || last is RecordDone {
            let between = now.drop_last();
            assert(reasons_after(between, last, now));
            assert(now.len() == between.len() + 1);
            assert forall|i: int| before.len() <= i < between.len() implies (
            #[trigger] between[i]).0 == if i == before.len() {
                found
            } else {
                between[i - 1].1
            } by {
                assert(now[i].0 == if i == before.len() { found } else { now[i - 1].1 });
            }
            law_recorded_reason_is_the_one_left(before, effects.drop_last(), between, found);
            assert(now.last() == now[now.len() - 1]);
        } else {
            law_recorded_reason_is_the_one_left(before, effects.drop_last(), now, found);
        }
    }
}

/// Effects can be carried out in pieces: what one list stores and then another is
/// what the two in a row store. An effect for the host stores nothing.
pub proof fn law_effects_store_in_order(
    before: ConfigStores,
    first: Seq<EffectModel>,
    second: Seq<EffectModel>,
)
    ensures
        stores_after_all(before, first + second) == stores_after_all(
            stores_after_all(before, first),
            second,
        ),
        forall|effect: EffectModel|
            is_for_host(effect) ==> #[trigger] stores_after(before, effect) == before,
    decreases second.len(),
{
    if second.len() == 0 {
        assert(first + second =~= first);
    } else {
        assert((first + second).drop_last() =~= first + second.drop_last());
        law_effects_store_in_order(before, first, second.drop_last());
    }
}

/// A new configuration that comes while further commands are queued is dropped.
pub proof fn law_queued_commands_come_first(s: SessionState, config: ConfigModel)
    ensures
        control_step(s, Ok(ControllerModel::ConfigChanged(config)), true) == (ReactionModel {
            effects: seq![],
            outcome: None,
        }),
{
}

/// The engine runs a session exactly when there is a configuration and no command
/// is queued, and with neither it quits exactly when it is not to wait.
pub proof fn law_engine_between_sessions(has_config: bool, has_commands: bool, wait: bool)
    ensures
        idle_spec(has_config, has_commands, wait) is Start <==> has_config && !has_commands,
        idle_spec(has_config, has_commands, wait) is Quit <==> !has_config && !has_commands
            && !wait,
{
}

/// An engine that is to wait quits only if it is asked to or if nobody is left to
/// ask: neither the lack of a configuration nor an error of a session makes it
/// quit.
pub proof fn law_waiting_engine_quits_only_on_request(
    has_config: bool,
    has_commands: bool,
    result: Result<ExitState, EngineError>,
    message: Result<ControllerModel, Disconnected>,
)
    ensures
        idle_spec(has_config, has_commands, true) !is Quit,
        after_session_spec(result, true) is Some <==> result == Ok::<_, EngineError>(
            ExitState::Exit,
        ),
        quit_on_command(message) is Some <==> message is Err || message->Ok_0 is Exit,
{
}

/// The exit code tells a processing error from everything else, and the code of a
/// forced exit is never used once the engine runs.
pub proof fn law_exit_codes(
    has_config: bool,
    has_commands: bool,
    wait: bool,
    result: Result<ExitState, EngineError>,
    message: Result<ControllerModel, Disconnected>,
)
    ensures
        idle_spec(has_config, has_commands, wait) matches Idle::Quit(code) ==> code == EXIT_OK,
        quit_on_command(message) matches Some(code) ==> code == EXIT_OK,
        after_session_spec(result, wait) matches Some(code) ==> code == if result is Ok {
            EXIT_OK
        } else {
            EXIT_PROCESSING_ERROR
        },
{
}

/// What the engine does when a session has ended, if nobody else has stored a
/// configuration or queued a command: after a change of devices it runs the new
/// configuration; after a request to quit it quits; after any other end it waits
/// for a command or, if it is not to wait, quits without an error.
pub proof fn law_engine_after_a_session(
    s: SessionState,
    input: Input,
    before: ConfigStores,
    wait: bool,
)
    requires
        next(s, input).1.outcome matches Some(result) && result is Ok,
    ensures
        ({
            let reaction = next(s, input).1;
            let quit = after_session_spec(reaction.outcome->0, wait);
            let active = stores_after_all(before, reaction.effects).active.last();
            match input {
                Input::Change(_, config) => {
                    &&& quit is None
                    &&& active == Some(config)
                    &&& idle_spec(active is Some, false, wait) is Start
                },
                Input::Event(EventModel::Control(Ok(ControllerModel::Exit)), _) => quit == Some(
                    EXIT_OK,
                ),
                _ => {
                    &&& quit is None
                    &&& active is None
                    &&& idle_spec(active is Some, false, wait) == if wait {
                        Idle::Receive
                    } else {
                        Idle::Quit(EXIT_OK)
                    }
                },
            }
        }),
{
    law_configuration_after_the_end(s, input, before);
}

/// What a list of commands between two sessions stores in the configuration cells.
pub open spec fn stores_after_commands(
    before: ConfigStores,
    commands: Seq<ControllerModel>,
) -> ConfigStores
    decreases commands.len(),
{
    if commands.len() == 0 {
        before
    } else {
        stores_after_command(
            stores_after_commands(before, commands.drop_last()),
            Ok(commands.last()),
        )
    }
}

/// The configuration that a command between two sessions leaves active.
pub open spec fn left_active(command: ControllerModel) -> Option<ConfigModel> {
    match command {
        ControllerModel::ConfigChanged(config) => Some(config),
        _ => None,
    }
}

/// Of the configurations and stops that are queued between two sessions, the last
/// decides: it is what is left active, whatever came before it. None of them makes
/// the engine quit or touches the previous configuration.
pub proof fn law_last_queued_command_decides(before: ConfigStores, commands: Seq<ControllerModel>)
    requires
        commands.len() > 0,
        forall|i: int|
            0 <= i < commands.len() ==> (#[trigger] commands[i] is ConfigChanged
                || commands[i] is Stop),
    ensures
        stores_after_commands(before, commands).active == before.active + Seq::new(
            commands.len(),
            |i: int| left_active(commands[i]),
        ),
        stores_after_commands(before, commands).active.last() == left_active(commands.last()),
        stores_after_commands(before, commands) == (ConfigStores {
            active: stores_after_commands(before, commands).active,
            ..before
        }),
        forall|i: int|
            0 <= i < commands.len() ==> quit_on_command(Ok(#[trigger] commands[i])) is None,
    decreases commands.len(),
{
    let rest = commands.drop_last();
    assert(commands.last() == commands[commands.len() - 1]);
    if rest.len() > 0 {
        assert forall|i: int| 0 <= i < rest.len() implies (#[trigger] rest[i] is ConfigChanged
            || rest[i] is Stop) by {
            assert(rest[i] == commands[i]);
        }
        law_last_queued_command_decides(before, rest);
    } else {
        assert(stores_after_commands(before, rest) == before);
    }
    assert(stores_after_commands(before, rest).active =~= before.active + Seq::new(
        rest.len(),
        |i: int| left_active(rest[i]),
    ));
    assert(stores_after_commands(before, commands).active =~= before.active + Seq::new(
        commands.len(),
        |i: int| left_active(commands[i]),
    ));
}

/// One look of the engine at the configuration and the command queue: which
/// configuration it found, whether it saw commands, and what it received, in case it
/// had to.
pub struct Look {
    pub found: Option<ConfigModel>,
    pub has_commands: bool,
    pub message: Result<ControllerModel, Disconnected>,
}

/// What a look comes to.
pub open spec fn look_step(before: IdleState, look: Look, wait: bool) -> (IdleState, Waited) {
    waited_spec(before, look.found, look.has_commands, wait, look.message)
}

/// What the engine has done after some looks in a row.
pub open spec fn after_looks(before: IdleState, looks: Seq<Look>, wait: bool) -> IdleState
    decreases looks.len(),
{
    if looks.len() == 0 {
        before
    } else {
        look_step(after_looks(before, looks.drop_last(), wait), looks.last(), wait).0
    }
}

/// Every look made the engine look again: none of them started a session or quit.
pub open spec fn all_again(before: IdleState, looks: Seq<Look>, wait: bool) -> bool
    decreases looks.len(),
{
    looks.len() == 0 || {
        &&& all_again(before, looks.drop_last(), wait)
        &&& look_step(after_looks(before, looks.drop_last(), wait), looks.last(), wait).1
            == Waited::Again
    }
}

/// The commands that were received in some looks.
pub open spec fn received(looks: Seq<Look>) -> Seq<ControllerModel> {
    Seq::new(looks.len(), |i: int| looks[i].message->Ok_0)
}

/// Between two sessions every command that is taken out of the queue is answered,
/// once and in the order in which it was taken: as long as the engine looks again,
/// each look took one command, a configuration or a stop, and what is stored is what
/// these commands, in order, store.
pub proof fn law_taken_commands_are_answered_in_order(
    before: IdleState,
    looks: Seq<Look>,
    wait: bool,
)
    requires
        all_again(before, looks, wait),
    ensures
        after_looks(before, looks, wait).taken == before.taken + received(looks).map_values(
            |command: ControllerModel| Ok::<ControllerModel, Disconnected>(command),
        ),
        after_looks(before, looks, wait).stores == stores_after_commands(
            before.stores,
            received(looks),
        ),
        forall|i: int|
            0 <= i < looks.len() ==> (#[trigger] received(looks)[i] is ConfigChanged || received(
                looks,
            )[i] is Stop),
    decreases looks.len(),
{
    let all = received(looks).map_values(
        |command: ControllerModel| Ok::<ControllerModel, Disconnected>(command),
    );
    if looks.len() > 0 {
        let rest = looks.drop_last();
        law_taken_commands_are_answered_in_order(before, rest, wait);
        let first = received(rest).map_values(
            |command: ControllerModel| Ok::<ControllerModel, Disconnected>(command),
        );
        let last = looks.last().message;
        assert(received(looks).drop_last() =~= received(rest));
        assert(last is Ok && received(looks).last() == last->Ok_0);
        assert(all =~= first.push(last));
        assert((before.taken + first).push(last) =~= before.taken + all);
        assert forall|i: int| 0 <= i < looks.len() implies (#[trigger] received(
            looks,
        )[i] is ConfigChanged || received(looks)[i] is Stop) by {
            if i < rest.len() {
                assert(received(rest)[i] is ConfigChanged || received(rest)[i] is Stop);
            }
        }
    } else {
        assert(before.taken + all =~= before.taken);
    }
}

/// Of the commands that were taken between two sessions, the last decides what runs:
/// when the engine then finds what it stored itself and sees no further command, it
/// runs that configuration, or, after a stop, waits for a command or, if it is not to
/// wait, quits without an error.
pub proof fn law_last_taken_command_runs(before: IdleState, looks: Seq<Look>, wait: bool, next: Look)
    requires
        looks.len() > 0,
        all_again(before, looks, wait),
        next.found == after_looks(before, looks, wait).stores.active.last(),
        !next.has_commands,
    ensures
        next.found == left_active(received(looks).last()),
        received(looks).last() is ConfigChanged ==> look_step(
            after_looks(before, looks, wait),
            next,
            wait,
        ) == (after_looks(before, looks, wait), Waited::Start),
        received(looks).last() is Stop && !wait ==> look_step(
            after_looks(before, looks, wait),
            next,
            wait,
        ) == (after_looks(before, looks, wait), Waited::Quit(EXIT_OK)),
        received(looks).last() is Stop && wait ==> idle_spec(
            next.found is Some,
            next.has_commands,
            wait,
        ) is Receive,
{
    law_taken_commands_are_answered_in_order(before, looks, wait);
    law_last_queued_command_decides(before.stores, received(looks));
    assert(received(looks)[looks.len() - 1] is ConfigChanged || received(looks)[looks.len()
        - 1] is Stop);
}

/// A request to quit that is taken between two sessions makes the engine quit with a
/// clean exit code, and so does a queue that nobody is left to send into. No session
/// was run for any command before it, it stores nothing, and nothing behind it is
/// taken.
pub proof fn law_exit_between_sessions_quits(
    before: IdleState,
    looks: Seq<Look>,
    wait: bool,
    next: Look,
)
    requires
        all_again(before, looks, wait),
        idle_spec(next.found is Some, next.has_commands, wait) is Receive,
        next.message is Err || next.message->Ok_0 is Exit,
    ensures
        ({
            let idle = after_looks(before, looks, wait);
            look_step(idle, next, wait) == (
                IdleState { taken: idle.taken.push(next.message), ..idle },
                Waited::Quit(EXIT_OK),
            )
        }),
{
}

/// The exit code for a bad configuration comes exactly when the initial configuration
/// could not be read. No service is started then, and no command or session ever
/// gives that code later.
pub proof fn law_bad_initial_configuration_starts_nothing<E>(
    loaded: Option<Result<Configuration, E>>,
    taken: bool,
    ws_port: Option<usize>,
    has_statefile: bool,
    wait: bool,
)
    ensures
        startup_spec(loaded, taken) == Startup::Quit(EXIT_BAD_CONFIG) <==> (loaded matches Some(
            result,
        ) && result is Err),
        startup_spec(loaded, taken) is Quit ==> services_spec(
            startup_spec(loaded, taken),
            ws_port,
            has_statefile,
        ) == Seq::<Service>::empty(),
        forall|before: IdleState, look: Look|
            (#[trigger] look_step(before, look, wait)).1 != Waited::Quit(EXIT_BAD_CONFIG),
        forall|result: Result<ExitState, EngineError>|
            #[trigger] after_session_spec(result, wait) != Some(EXIT_BAD_CONFIG),
{
}

/// All sessions of an engine work on the same configuration cells and the same run
/// status: what one leaves there, the next one finds, unless another thread changes
/// it.
pub proof fn law_sessions_share_their_cells<D, H>(
    before: &Engine,
    one: &Session<D, H>,
    now: &Engine,
    other: &Session<D, H>,
)
    requires
        before.runs(one),
        now.shares_with(before),
        now.runs(other),
    ensures
        one.stores().active_place == other.stores().active_place,
        one.stores().previous_place == other.stores().previous_place,
        one.status_place() == other.status_place(),
{
}

/// A pipeline that is past its startup barrier stays as it is when it is released
/// again, and so does one of which some device thread is not ready yet.
pub proof fn law_release_happens_once<D, H>(pipeline: PipelineModel<D, H>)
    ensures
        pipeline.released ==> pipeline.released_if_ready() == pipeline,
        !(pipeline.playback_ready && pipeline.capture_ready) ==> pipeline.released_if_ready()
            == pipeline,
        pipeline.released_if_ready().released_if_ready() == pipeline.released_if_ready(),
{
}

/// What the supervisor does to a pipeline on its way through startup.
pub enum StartupStep {
    PlaybackReady,
    CaptureReady,
    Release,
}

/// A pipeline after a step of startup.
pub open spec fn pipeline_step<D, H>(
    pipeline: PipelineModel<D, H>,
    step: StartupStep,
) -> PipelineModel<D, H> {
    match step {
        StartupStep::PlaybackReady => PipelineModel { playback_ready: true, ..pipeline },
        StartupStep::CaptureReady => PipelineModel { capture_ready: true, ..pipeline },
        StartupStep::Release => pipeline.released_if_ready(),
    }
}

/// A pipeline after some steps of startup.
pub open spec fn pipeline_after<D, H>(
    pipeline: PipelineModel<D, H>,
    steps: Seq<StartupStep>,
) -> PipelineModel<D, H>
    decreases steps.len(),
{
    if steps.len() == 0 {
        pipeline
    } else {
        pipeline_step(pipeline_after(pipeline, steps.drop_last()), steps.last())
    }
}

/// Startup takes a pipeline past its own barrier once both its device threads are
/// ready, in whichever order they became so and however often it was tried before,
/// with a single wait; until then it does not wait. Nothing but readiness, release
/// and that wait ever changes.
pub proof fn law_startup_meets_the_barrier_once<D, H>(
    pipeline: PipelineModel<D, H>,
    steps: Seq<StartupStep>,
)
    requires
        pipeline.wf(),
    ensures
        ({
            let now = pipeline_after(pipeline, steps);
            let released = now.released_if_ready();
            &&& now.wf()
            &&& now.playback_ready == (pipeline.playback_ready || steps.contains(
                StartupStep::PlaybackReady,
            ))
            &&& now.capture_ready == (pipeline.capture_ready || steps.contains(
                StartupStep::CaptureReady,
            ))
            &&& released.released == (now.playback_ready && now.capture_ready)
            &&& released.meetings.len() == if released.released { 1nat } else { 0nat }
            &&& now == (PipelineModel {
                playback_ready: now.playback_ready,
                capture_ready: now.capture_ready,
                released: now.released,
                meetings: now.meetings,
                ..pipeline
            })
        }),
    decreases steps.len(),
{
    if steps.len() > 0 {
        let rest = steps.drop_last();
        law_startup_meets_the_barrier_once(pipeline, rest);
        assert(steps =~= rest.push(steps.last()));
        assert forall|step: StartupStep| #[trigger]
            steps.contains(step) == (rest.contains(step) || steps.last() == step) by {
            if rest.contains(step) {
                let i = choose|i: int| 0 <= i < rest.len() && rest[i] == step;
                assert(steps[i] == step);
            }
            if steps.last() == step {
                assert(steps[steps.len() - 1] == step);
            }
            if steps.contains(step) {
                let i = choose|i: int| 0 <= i < steps.len() && steps[i] == step;
                if i < rest.len() {
                    assert(rest[i] == step);
                }
            }
        }
    }
}

/// Over its whole life, from its start over any steps of startup until it was told
/// to stop, the startup barrier of a pipeline is met exactly once through the handle
/// that the pipeline holds. If that happens only on stopping, the exit command was handed over before.
pub proof fn law_barrier_is_met_once_in_a_life<D, H>(
    pipeline: PipelineModel<D, H>,
    steps: Seq<StartupStep>,
    stopped: StoppedPipeline<D, H>,
)
    requires
        pipeline.wf(),
        !pipeline.released,
        stopped.remains_of(pipeline_after(pipeline, steps)),
    ensures
        stopped.barrier.place() == pipeline.place,
        stopped.barrier.meetings().len() == 1,
        !pipeline_after(pipeline, steps).released ==> {
            let handed = stopped.barrier.meetings()[0];
            handed.len() == pipeline.commands.len() + 1 && handed.last().0 is Exit
        },
{
    law_startup_meets_the_barrier_once(pipeline, steps);
}

} // verus!

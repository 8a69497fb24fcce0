//! The channels of `crossbeam_channel` that tie the engine together.
//!
//! Everything here is trusted: each item states what the crate promises of the
//! function that it calls, and the rest of the library is proved from that.
//!
//! A sender is seen as the record of what went into it. `sent_commands` and its
//! siblings name the messages that were handed to `send` through one handle, in
//! order, each with whether the channel took it. A channel whose receivers are
//! all gone takes nothing. What other handles of the same channel send, and when
//! a message is read at the other end, is not part of the record.
//!
//! What comes out of a channel is up to the threads at the other end. `seen_empty`,
//! `came_out` and the names of a selected operation tell only of which channel it
//! was observed, and that a channel gives its messages out in the order in which
//! it took them.

use crate::config::{ChangeModel, ConfigChange, ConfigModel, Configuration};
use crate::messages::{
    AudioMessage, CommandMessage, ControllerMessage, ControllerModel, Disconnected, StatusMessage,
    StatusModel,
};
use crossbeam_channel::{Receiver, RecvError, Select, SelectedOperation, Sender};
use vstd::prelude::*;

verus! {

/// The sending half of a channel, as `crossbeam_channel` defines it.
#[verifier::external_type_specification]
#[verifier::external_body]
#[verifier::reject_recursive_types(T)]
pub struct ExSender<T>(Sender<T>);

/// The receiving half of a channel, as `crossbeam_channel` defines it.
#[verifier::external_type_specification]
#[verifier::external_body]
#[verifier::reject_recursive_types(T)]
pub struct ExReceiver<T>(Receiver<T>);

/// The error of a receive operation: the channel is empty and disconnected.
#[verifier::external_type_specification]
#[verifier::external_body]
pub struct ExRecvError(RecvError);

/// A list of receive operations of which one is to be selected.
#[verifier::external_type_specification]
#[verifier::external_body]
pub struct ExSelect<'a>(Select<'a>);

/// An operation that was selected and has to be completed.
#[verifier::external_type_specification]
#[verifier::external_body]
pub struct ExSelectedOperation<'a>(SelectedOperation<'a>);

/// The commands handed to the capture thread through this sender, each with
/// whether the channel took it.
pub uninterp spec fn sent_commands(tx: Sender<CommandMessage>) -> Seq<(CommandMessage, bool)>;

/// The configuration updates handed to the processing thread through this
/// sender, each with whether the channel took it.
pub uninterp spec fn sent_updates(tx: Sender<(ConfigChange, Configuration)>) -> Seq<
    ((ChangeModel, ConfigModel), bool),
>;

/// The controller commands handed to the engine through this sender, each with
/// whether the channel took it.
pub uninterp spec fn sent_controls(tx: Sender<ControllerMessage>) -> Seq<(ControllerModel, bool)>;

/// The receiver that was made together with a sender of commands.
pub uninterp spec fn command_end(tx: Sender<CommandMessage>) -> Receiver<CommandMessage>;

/// The receiver that was made together with a sender of configuration updates.
pub uninterp spec fn update_end(tx: Sender<(ConfigChange, Configuration)>) -> Receiver<
    (ConfigChange, Configuration),
>;

/// The receiver that was made together with a sender of status messages.
pub uninterp spec fn status_end(tx: Sender<StatusMessage>) -> Receiver<StatusMessage>;

/// The receiver that was made together with a sender of controller commands.
pub uninterp spec fn control_end(tx: Sender<ControllerMessage>) -> Receiver<ControllerMessage>;

/// The receiver that was made together with a sender of audio.
pub uninterp spec fn audio_end(tx: Sender<AudioMessage>) -> Receiver<AudioMessage>;

/// How many commands the channel of a sender holds at most, if there is a limit. A
/// channel without one never makes a sender wait.
pub uninterp spec fn command_limit(tx: Sender<CommandMessage>) -> Option<usize>;

/// How many configuration updates the channel of a sender holds at most, if there
/// is a limit.
pub uninterp spec fn update_limit(tx: Sender<(ConfigChange, Configuration)>) -> Option<usize>;

/// How many status messages the channel of a sender holds at most, if there is a
/// limit.
pub uninterp spec fn status_limit(tx: Sender<StatusMessage>) -> Option<usize>;

/// How many controller commands the channel of a sender holds at most, if there is
/// a limit.
pub uninterp spec fn control_limit(tx: Sender<ControllerMessage>) -> Option<usize>;

/// How many audio messages the channel of a sender holds at most, if there is a
/// limit.
pub uninterp spec fn audio_limit(tx: Sender<AudioMessage>) -> Option<usize>;

/// What was taken out of the control channel through this receiver by `recv`, in
/// order: commands, or that the channel was found empty and disconnected.
pub uninterp spec fn taken_controls(rx: Receiver<ControllerMessage>) -> Seq<
    Result<ControllerModel, Disconnected>,
>;

/// Which control channel this is a receiver of.
pub uninterp spec fn control_place(rx: Receiver<ControllerMessage>) -> int;

/// Whether a look at the control channel found it empty, or found commands in it.
/// At another time it may be found otherwise.
pub uninterp spec fn seen_empty(rx: Receiver<ControllerMessage>, empty: bool) -> bool;

/// Whether a receive operation on the control channel brought this at a time when
/// the commands of `queue` stood in it, the oldest first. A channel without room
/// has the command in it that a sender holds out.
pub uninterp spec fn came_out(
    rx: Receiver<ControllerMessage>,
    queue: Seq<ControllerModel>,
    message: Result<ControllerModel, Disconnected>,
) -> bool;

/// What is next to come out of a channel that holds these commands, or, if there is
/// none, out of one that is disconnected.
pub open spec fn front(queue: Seq<ControllerModel>) -> Result<ControllerModel, Disconnected> {
    if queue.len() > 0 {
        Ok(queue[0])
    } else {
        Err(Disconnected)
    }
}

/// A receive operation on the control channel brought this, and it was the oldest
/// command in the channel.
pub open spec fn next_came_out(
    rx: Receiver<ControllerMessage>,
    message: Result<ControllerModel, Disconnected>,
) -> bool {
    exists|queue: Seq<ControllerModel>| #[trigger]
        came_out(rx, queue, message) && message == front(queue)
}

/// A receiver that takes part in a selection.
pub enum Watch {
    Status(Receiver<StatusMessage>),
    Control(Receiver<ControllerMessage>),
}

/// The receivers that were added to a selection, in order.
pub uninterp spec fn watched(sel: Select<'_>) -> Seq<Watch>;

/// The receivers among which a selected operation was selected, in order.
pub uninterp spec fn offered(oper: SelectedOperation<'_>) -> Seq<Watch>;

/// The index of a selected operation in the selection that it came from.
pub uninterp spec fn picked_index(oper: SelectedOperation<'_>) -> usize;

/// The receiver that a selected operation was added for.
pub uninterp spec fn picked(oper: SelectedOperation<'_>) -> Watch;

/// What a selected receive operation on a status channel brings.
pub uninterp spec fn delivered_status(oper: SelectedOperation<'_>) -> Result<
    StatusModel,
    Disconnected,
>;

/// What a selected receive operation on the control channel brings.
pub uninterp spec fn delivered_control(oper: SelectedOperation<'_>) -> Result<
    ControllerModel,
    Disconnected,
>;

/// The commands that stood in the control channel when a receive operation on it
/// was selected, the oldest first. A channel without room has the command in it
/// that a sender holds out.
pub uninterp spec fn standing(oper: SelectedOperation<'_>) -> Seq<ControllerModel>;

/// Whether a bounded channel of this capacity can be laid out in memory: its
/// slots hold one message and one stamp each and take 64 bytes at most.
pub open spec fn fits_in_memory(cap: usize) -> bool {
    64 * cap <= isize::MAX
}

/// `crossbeam_channel::unbounded`, for commands: a sender through which nothing
/// was sent yet, and its receiver, without a limit.
#[verifier::external_body]
pub(crate) fn command_channel() -> (ends: (Sender<CommandMessage>, Receiver<CommandMessage>))
    ensures
        sent_commands(ends.0) == Seq::<(CommandMessage, bool)>::empty(),
        command_end(ends.0) == ends.1,
        command_limit(ends.0) == None::<usize>,
{
    crossbeam_channel::unbounded()
}

/// `crossbeam_channel::unbounded`, for configuration updates: a sender through
/// which nothing was sent yet, and its receiver, without a limit.
#[verifier::external_body]
pub(crate) fn update_channel() -> (ends: (
    Sender<(ConfigChange, Configuration)>,
    Receiver<(ConfigChange, Configuration)>,
))
    ensures
        sent_updates(ends.0) == Seq::<((ChangeModel, ConfigModel), bool)>::empty(),
        update_end(ends.0) == ends.1,
        update_limit(ends.0) == None::<usize>,
{
    crossbeam_channel::unbounded()
}

/// `crossbeam_channel::unbounded`, for status messages: a sender and its
/// receiver, without a limit.
#[verifier::external_body]
pub(crate) fn status_channel() -> (ends: (Sender<StatusMessage>, Receiver<StatusMessage>))
    ensures
        status_end(ends.0) == ends.1,
        status_limit(ends.0) == None::<usize>,
{
    crossbeam_channel::unbounded()
}

/// `crossbeam_channel::bounded`, for controller commands: a sender through which
/// nothing was sent yet, and its receiver, through which nothing was taken yet,
/// with the given capacity. It panics on a capacity that cannot be laid out in memory.
#[verifier::external_body]
pub(crate) fn control_channel(cap: usize) -> (ends: (
    Sender<ControllerMessage>,
    Receiver<ControllerMessage>,
))
    requires
        fits_in_memory(cap),
    ensures
        sent_controls(ends.0) == Seq::<(ControllerModel, bool)>::empty(),
        control_end(ends.0) == ends.1,
        control_limit(ends.0) == Some(cap),
        taken_controls(ends.1).len() == 0,
{
    crossbeam_channel::bounded(cap)
}

/// `crossbeam_channel::bounded`, for audio: a sender and its receiver, with the
/// given capacity. It panics on a capacity that cannot be laid out in memory.
#[verifier::external_body]
pub(crate) fn audio_channel(cap: usize) -> (ends: (Sender<AudioMessage>, Receiver<AudioMessage>))
    requires
        fits_in_memory(cap),
    ensures
        audio_end(ends.0) == ends.1,
        audio_limit(ends.0) == Some(cap),
{
    crossbeam_channel::bounded(cap)
}

/// `Clone::clone` of a status sender: another sender of the same channel.
#[verifier::external_body]
pub(crate) fn clone_status_sender(tx: &Sender<StatusMessage>) -> (other: Sender<StatusMessage>)
    ensures
        status_end(other) == status_end(*tx),
        status_limit(other) == status_limit(*tx),
{
    tx.clone()
}

/// `Sender::send`, for commands: hands the command over and tells whether the
/// channel took it. It does so unless every receiver is gone.
#[verifier::external_body]
pub(crate) fn send_command(tx: &mut Sender<CommandMessage>, command: CommandMessage) -> (taken:
    bool)
    ensures
        sent_commands(*final(tx)) == sent_commands(*old(tx)).push((command, taken)),
        command_end(*final(tx)) == command_end(*old(tx)),
        command_limit(*final(tx)) == command_limit(*old(tx)),
{
    tx.send(command).is_ok()
}

/// `Sender::send`, for configuration updates: hands the update over and tells
/// whether the channel took it. It does so unless every receiver is gone.
#[verifier::external_body]
pub(crate) fn send_update(
    tx: &mut Sender<(ConfigChange, Configuration)>,
    change: ConfigChange,
    configuration: Configuration,
) -> (taken: bool)
    ensures
        sent_updates(*final(tx)) == sent_updates(*old(tx)).push(
            ((change@, configuration@), taken),
        ),
        update_end(*final(tx)) == update_end(*old(tx)),
        update_limit(*final(tx)) == update_limit(*old(tx)),
{
    tx.send((change, configuration)).is_ok()
}

/// `Sender::send`, for controller commands: waits for room, hands the command
/// over and tells whether the channel took it. It does so unless every receiver
/// is gone.
#[verifier::external_body]
pub(crate) fn send_control(tx: &mut Sender<ControllerMessage>, message: ControllerMessage) -> (taken:
    bool)
    ensures
        sent_controls(*final(tx)) == sent_controls(*old(tx)).push((message@, taken)),
        control_end(*final(tx)) == control_end(*old(tx)),
        control_limit(*final(tx)) == control_limit(*old(tx)),
{
    tx.send(message).is_ok()
}

/// `Receiver::is_empty`, for controller commands: whether the channel holds none
/// at the moment of the call. Other threads send and receive, so which it is, is
/// left open; what is claimed is that it was seen of this channel.
#[verifier::external_body]
pub(crate) fn queue_is_empty(rx: &Receiver<ControllerMessage>) -> (empty: bool)
    ensures
        seen_empty(*rx, empty),
{
    rx.is_empty()
}

/// `Receiver::recv`, for controller commands: waits for a command and takes the
/// oldest, or waits for the channel to be empty and disconnected. Which command
/// comes is up to the threads that send; what is claimed is that it came out of
/// this channel, that it was the oldest there, and that it is the one thing that
/// was taken. It stays the receiver of the channel that it was.
#[verifier::external_body]
pub(crate) fn receive_control(rx: &mut Receiver<ControllerMessage>) -> (message: Result<
    ControllerMessage,
    RecvError,
>)
    ensures
        match message {
            Ok(m) => {
                &&& taken_controls(*final(rx)) == taken_controls(*old(rx)).push(Ok(m@))
                &&& exists|queue: Seq<ControllerModel>| #[trigger]
                    came_out(*old(rx), queue, Ok::<_, Disconnected>(m@)) && front(queue) == Ok::<
                        _,
                        Disconnected,
                    >(m@)
            },
            Err(_) => {
                &&& taken_controls(*final(rx)) == taken_controls(*old(rx)).push(Err(Disconnected))
                &&& exists|queue: Seq<ControllerModel>| #[trigger]
                    came_out(*old(rx), queue, Err::<ControllerModel, _>(Disconnected)) && front(
                        queue,
                    ) == Err::<ControllerModel, _>(Disconnected)
            },
        },
        control_place(*final(rx)) == control_place(*old(rx)),
{
    rx.recv()
}

/// `Select::new`: a selection without operations.
pub assume_specification<'a>[ Select::<'a>::new ]() -> (sel: Select<'a>)
    ensures
        watched(sel) == Seq::<Watch>::empty(),
;

/// `Select::recv`, for a status channel: adds the operation at the end and
/// returns its index.
#[verifier::external_body]
pub(crate) fn watch_status<'a>(sel: &mut Select<'a>, rx: &'a Receiver<StatusMessage>) -> (index:
    usize)
    ensures
        index == watched(*old(sel)).len(),
        watched(*final(sel)) == watched(*old(sel)).push(Watch::Status(*rx)),
{
    sel.recv(rx)
}

/// `Select::recv`, for the control channel: adds the operation at the end and
/// returns its index.
#[verifier::external_body]
pub(crate) fn watch_control<'a>(sel: &mut Select<'a>, rx: &'a Receiver<ControllerMessage>) -> (index:
    usize)
    ensures
        index == watched(*old(sel)).len(),
        watched(*final(sel)) == watched(*old(sel)).push(Watch::Control(*rx)),
{
    sel.recv(rx)
}

/// `Select::select`: waits until one of the operations is ready and selects it.
/// It panics on a selection without operations. Which one it selects is up to
/// the threads at the other ends.
pub assume_specification<'a>[ Select::<'a>::select ](sel: &mut Select<'a>) -> (oper:
    SelectedOperation<'a>)
    requires
        watched(*old(sel)).len() > 0,
    ensures
        picked_index(oper) < watched(*old(sel)).len(),
        picked(oper) == watched(*old(sel))[picked_index(oper) as int],
        offered(oper) == watched(*old(sel)),
        watched(*final(sel)) == watched(*old(sel)),
;

/// `SelectedOperation::index`: the index under which the operation was added.
pub assume_specification<'a>[ SelectedOperation::<'a>::index ](
    oper: &SelectedOperation<'a>,
) -> (index: usize)
    ensures
        index == picked_index(*oper),
;

/// `SelectedOperation::recv`, for a status channel: completes the operation
/// with the message that was selected, or with the error that the channel is
/// empty and disconnected. It panics on a receiver other than the one that was
/// selected, which it knows by its place in memory: the receiver is borrowed
/// until the operation is completed, and stays where it is. Which message it is,
/// is up to the threads that send.
#[verifier::external_body]
pub(crate) fn take_status<'a>(
    oper: SelectedOperation<'a>,
    rx: &Receiver<StatusMessage>,
) -> (message: Result<StatusMessage, RecvError>)
    requires
        picked(oper) == Watch::Status(*rx),
    ensures
        match message {
            Ok(m) => delivered_status(oper) == Ok::<_, Disconnected>(m@),
            Err(_) => delivered_status(oper) == Err::<StatusModel, _>(Disconnected),
        },
{
    oper.recv(rx)
}

/// `SelectedOperation::recv`, for the control channel: completes the operation
/// with the message that was selected, which is the oldest in the channel, or with
/// the error that the channel is empty and disconnected. It panics on a receiver other than the one that was
/// selected, which it knows by its place in memory: the receiver is borrowed
/// until the operation is completed, and stays where it is. Which message it is,
/// is up to the threads that send.
#[verifier::external_body]
pub(crate) fn take_control<'a>(
    oper: SelectedOperation<'a>,
    rx: &Receiver<ControllerMessage>,
) -> (message: Result<ControllerMessage, RecvError>)
    requires
        picked(oper) == Watch::Control(*rx),
    ensures
        match message {
            Ok(m) => delivered_control(oper) == Ok::<_, Disconnected>(m@),
            Err(_) => delivered_control(oper) == Err::<ControllerModel, _>(Disconnected),
        },
        match message {
            Ok(m) => front(standing(oper)) == Ok::<_, Disconnected>(m@),
            Err(_) => front(standing(oper)) == Err::<ControllerModel, _>(Disconnected),
        },
{
    oper.recv(rx)
}

} // verus!

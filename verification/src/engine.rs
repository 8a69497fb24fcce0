//! The engine around the sessions: what it starts with, when it waits for a
//! configuration, when it runs a session, and with which exit code it quits.

use crate::channels::{
    control_channel, control_end, control_limit, control_place, next_came_out, queue_is_empty,
    receive_control, seen_empty, send_control, sent_controls, taken_controls,
};
use crate::config::{ConfigModel, Configuration};
use crate::messages::{
    ControllerMessage, ControllerModel, Disconnected, EngineError, ExitState, StopModel,
};
use crate::session::{control_model, Session};
use crate::shared::{
    config_model, found_in, status_place, status_updates, ConfigStores, ProcessingStatus,
    SharedConfigs,
};
use crossbeam_channel::{Receiver, Sender};
use parking_lot::{Mutex, RwLock};
use std::sync::Arc;
use vstd::prelude::*;

verus! {

/// Process exit code: clean exit.
pub const EXIT_OK: i32 = 0;

/// Process exit code: configuration error on startup.
pub const EXIT_BAD_CONFIG: i32 = 101;

/// Process exit code: unrecoverable processing error.
pub const EXIT_PROCESSING_ERROR: i32 = 102;

/// Process exit code: forced exit (e.g. repeated restarts exceeded limit).
pub const EXIT_FORCED: i32 = 103;

/// The number of faders.
pub const NUM_FADERS: usize = 5;

/// How many controller commands may be queued.
pub const COMMAND_QUEUE_LIMIT: usize = 10;

/// Top-level configuration of the engine.
#[derive(Debug)]
pub struct EngineConfig {
    /// Path to the initial configuration file, or `None` to start in standby.
    pub configname: Option<String>,
    /// Path to the state file for persisting volume and mute across restarts.
    pub statefilename: Option<String>,
    /// Initial volume of each fader, as the bit pattern of an `f32` in dB.
    pub initial_volumes: [u32; 5],
    /// Initial mute state for each fader.
    pub initial_mutes: [bool; 5],
    /// If `true`, wait for a configuration rather than quit when there is none.
    pub wait: bool,
    /// WebSocket server port.
    pub ws_port: Option<usize>,
    /// WebSocket server bind address.
    pub ws_address: String,
    /// Path to TLS certificate for the secure WebSocket server.
    pub ws_cert: Option<String>,
    /// Password for the TLS certificate.
    pub ws_pass: Option<String>,
}

/// What a fader is set to when the engine starts.
#[derive(Clone, Copy, Debug, PartialEq, Eq, Structural)]
pub struct FaderSetting {
    pub fader: usize,
    /// Target and current volume, as the bit pattern of an `f32` in dB.
    pub volume: u32,
    pub mute: bool,
}

/// What each fader is set to with these volumes and mutes, in order.
pub open spec fn faders_spec(volumes: Seq<u32>, mutes: Seq<bool>) -> Seq<FaderSetting> {
    Seq::new(
        NUM_FADERS as nat,
        |i: int| FaderSetting { fader: i as usize, volume: volumes[i], mute: mutes[i] },
    )
}

impl EngineConfig {
    /// What each fader is set to when the engine starts, in order.
    pub fn initial_faders(&self) -> (settings: Vec<FaderSetting>)
        ensures
            settings@ == faders_spec(self.initial_volumes@, self.initial_mutes@),
    {
        let mut settings: Vec<FaderSetting> = Vec::new();
        let mut fader: usize = 0;
        while fader < NUM_FADERS
            invariant
                fader <= NUM_FADERS,
                settings@ == Seq::new(
                    fader as nat,
                    |i: int|
                        FaderSetting {
                            fader: i as usize,
                            volume: self.initial_volumes@[i],
                            mute: self.initial_mutes@[i],
                        },
                ),
            decreases NUM_FADERS - fader,
        {
            settings.push(
                FaderSetting {
                    fader,
                    volume: self.initial_volumes[fader],
                    mute: self.initial_mutes[fader],
                },
            );
            fader += 1;
        }
        assert(settings@ =~= faders_spec(self.initial_volumes@, self.initial_mutes@));
        settings
    }
}

/// Opens the queue of controller commands.
pub fn command_queue() -> (ends: (Sender<ControllerMessage>, Receiver<ControllerMessage>))
    ensures
        sent_controls(ends.0) == Seq::<(ControllerModel, bool)>::empty(),
        control_end(ends.0) == ends.1,
        control_limit(ends.0) == Some(COMMAND_QUEUE_LIMIT),
        taken_controls(ends.1).len() == 0,
{
    control_channel(COMMAND_QUEUE_LIMIT)
}

/// How the engine goes on once it tried to read its initial configuration.
#[derive(Clone, Copy, Debug, PartialEq, Eq, Structural)]
pub enum Startup {
    /// The engine runs.
    Proceed,
    /// The engine quits with an exit code.
    Quit(i32),
    /// The command queue has no receiver.
    QueueClosed,
}

/// How the engine goes on with what reading its initial configuration gave, if
/// `taken` tells whether the queue takes a command.
pub open spec fn startup_spec<E>(loaded: Option<Result<Configuration, E>>, taken: bool) -> Startup {
    match loaded {
        Some(Ok(_)) => if taken {
            Startup::Proceed
        } else {
            Startup::QueueClosed
        },
        Some(Err(_)) => Startup::Quit(EXIT_BAD_CONFIG),
        None => Startup::Proceed,
    }
}

/// The initial configuration, if there is one, was handed to the command queue, and
/// the engine proceeds exactly if the queue took it.
pub open spec fn initial_queued<E>(
    before: Seq<(ControllerModel, bool)>,
    loaded: Option<Result<Configuration, E>>,
    after: Seq<(ControllerModel, bool)>,
    startup: Startup,
) -> bool {
    match loaded {
        Some(Ok(config)) => after == before.push(
            (ControllerModel::ConfigChanged(config@), startup == Startup::Proceed),
        ),
        _ => after == before,
    }
}

/// Queues the initial configuration as the first command. `loaded` is what
/// reading it gave, or `None` if the engine starts without one.
pub fn queue_initial_config<E>(
    tx_command: &mut Sender<ControllerMessage>,
    loaded: Option<Result<Configuration, E>>,
) -> (startup: Startup)
    ensures
        control_end(*final(tx_command)) == control_end(*old(tx_command)),
        control_limit(*final(tx_command)) == control_limit(*old(tx_command)),
        startup == startup_spec(loaded, sent_controls(*final(tx_command)).last().1),
        initial_queued(
            sent_controls(*old(tx_command)),
            loaded,
            sent_controls(*final(tx_command)),
            startup,
        ),
{
    match loaded {
        Some(Ok(config)) => {
            if send_control(tx_command, ControllerMessage::ConfigChanged(Box::new(config))) {
                Startup::Proceed
            } else {
                Startup::QueueClosed
            }
        },
        Some(Err(_)) => Startup::Quit(EXIT_BAD_CONFIG),
        None => Startup::Proceed,
    }
}

/// A part of the program that runs beside the sessions.
#[derive(Clone, Copy, Debug, PartialEq, Eq, Structural)]
pub enum Service {
    /// The thread that turns process signals into commands.
    Signals,
    /// The WebSocket server, with its port.
    Server(usize),
    /// The thread that saves the state file.
    StateFile,
}

/// The services that are started, in order: none unless the engine runs, and then
/// the signals, the server if it has a port, and the state file if there is one.
pub open spec fn services_spec(
    startup: Startup,
    ws_port: Option<usize>,
    has_statefile: bool,
) -> Seq<Service> {
    if startup == Startup::Proceed {
        seq![Service::Signals] + (match ws_port {
            Some(port) => seq![Service::Server(port)],
            None => seq![],
        }) + (if has_statefile {
            seq![Service::StateFile]
        } else {
            seq![]
        })
    } else {
        seq![]
    }
}

impl EngineConfig {
    /// The services that are to be started, in order.
    pub fn services(&self, startup: Startup) -> (services: Vec<Service>)
        ensures
            services@ == services_spec(startup, self.ws_port, self.statefilename is Some),
    {
        let mut services: Vec<Service> = Vec::new();
        if let Startup::Proceed = startup {
            services.push(Service::Signals);
            if let Some(port) = self.ws_port {
                services.push(Service::Server(port));
            }
            if self.statefilename.is_some() {
                services.push(Service::StateFile);
            }
        }
        assert(services@ =~= services_spec(startup, self.ws_port, self.statefilename is Some));
        services
    }
}

/// What the engine does between two sessions.
#[derive(Clone, Copy, Debug, PartialEq, Eq, Structural)]
pub enum Idle {
    /// Run a session with the active configuration.
    Start,
    /// Quit with an exit code.
    Quit(i32),
    /// Wait for a command.
    Receive,
}

/// What the engine does between two sessions: it runs the active configuration
/// unless commands are queued, which come first. With neither, it quits unless
/// it is to wait.
pub open spec fn idle_spec(has_config: bool, has_commands: bool, wait: bool) -> Idle {
    if has_commands {
        Idle::Receive
    } else if has_config {
        Idle::Start
    } else if wait {
        Idle::Receive
    } else {
        Idle::Quit(EXIT_OK)
    }
}

/// Decides what the engine does between two sessions.
pub fn idle(has_config: bool, has_commands: bool, wait: bool) -> (decision: Idle)
    ensures
        decision == idle_spec(has_config, has_commands, wait),
{
    if has_config && !has_commands {
        return Idle::Start;
    }
    if !wait && !has_commands {
        return Idle::Quit(EXIT_OK);
    }
    Idle::Receive
}

/// What a command between two sessions stores in the configuration cells.
pub open spec fn stores_after_command(
    before: ConfigStores,
    message: Result<ControllerModel, Disconnected>,
) -> ConfigStores {
    match message {
        Ok(ControllerModel::ConfigChanged(config)) => ConfigStores {
            active: before.active.push(Some(config)),
            ..before
        },
        Ok(ControllerModel::Stop) => ConfigStores { active: before.active.push(None), ..before },
        _ => before,
    }
}

/// The exit code that a command between two sessions makes the engine quit with,
/// if it does.
pub open spec fn quit_on_command(message: Result<ControllerModel, Disconnected>) -> Option<i32> {
    match message {
        Ok(ControllerModel::ConfigChanged(_)) => None,
        Ok(ControllerModel::Stop) => None,
        _ => Some(EXIT_OK),
    }
}

/// Answers a command that came between two sessions. Returns the exit code if
/// the engine quits.
pub fn on_idle_command(
    configs: &mut SharedConfigs,
    message: Result<ControllerMessage, Disconnected>,
) -> (quit: Option<i32>)
    requires
        old(configs).wf(),
    ensures
        final(configs).wf(),
        final(configs)@ == stores_after_command(old(configs)@, control_model(message)),
        quit == quit_on_command(control_model(message)),
{
    match message {
        Ok(ControllerMessage::ConfigChanged(new_conf)) => {
            configs.activate(*new_conf);
            None
        },
        Ok(ControllerMessage::Stop) => {
            configs.deactivate();
            None
        },
        Ok(ControllerMessage::Exit) => Some(EXIT_OK),
        Err(_) => Some(EXIT_OK),
    }
}

/// What came of one look at the configuration and the command queue.
#[derive(Clone, Copy, Debug, PartialEq, Eq, Structural)]
pub enum Waited {
    /// A session is to run.
    Start,
    /// The engine quits with an exit code.
    Quit(i32),
    /// A command was answered: look again.
    Again,
}

/// What the engine has done between two sessions: what it stored in the
/// configuration cells, and what it took out of the command queue.
#[verifier::ext_equal]
pub struct IdleState {
    pub stores: ConfigStores,
    pub taken: Seq<Result<ControllerModel, Disconnected>>,
}

/// What one look at the configuration and the command queue comes to, if `found`
/// is the active configuration, and `message` what is received in case the engine
/// has to wait for a command: that one is taken and answered, and no other.
pub open spec fn waited_spec(
    before: IdleState,
    found: Option<ConfigModel>,
    has_commands: bool,
    wait: bool,
    message: Result<ControllerModel, Disconnected>,
) -> (IdleState, Waited) {
    match idle_spec(found is Some, has_commands, wait) {
        Idle::Start => (before, Waited::Start),
        Idle::Quit(code) => (before, Waited::Quit(code)),
        Idle::Receive => (
            IdleState {
                stores: stores_after_command(before.stores, message),
                taken: before.taken.push(message),
            },
            match quit_on_command(message) {
                Some(code) => Waited::Quit(code),
                None => Waited::Again,
            },
        ),
    }
}

/// What all sessions of an engine share: the configuration cells and the run
/// status.
#[derive(Debug)]
pub struct Engine {
    configs: SharedConfigs,
    run_status: Arc<RwLock<ProcessingStatus>>,
    wait: bool,
}

impl Engine {
    /// What is said of an engine is said of what it holds.
    proof fn law_views_show_what_is_held(&self)
        ensures
            self.stores() == self.configs@,
            self.active_cell() == self.configs.active_cell(),
            self.reasons() == status_updates(*self.run_status),
            self.status_place() == status_place(*self.run_status),
            self.waits() == self.wait,
    {
    }

    /// What the engine stored in the configuration cells.
    pub closed spec fn stores(&self) -> ConfigStores {
        self.configs@
    }

    /// The cell of the active configuration.
    pub closed spec fn active_cell(&self) -> Arc<Mutex<Option<Configuration>>> {
        self.configs.active_cell()
    }

    /// The updates that the engine made of the run status.
    pub closed spec fn reasons(&self) -> Seq<(StopModel, StopModel)> {
        status_updates(*self.run_status)
    }

    /// Which run status the sessions share.
    pub closed spec fn status_place(&self) -> int {
        status_place(*self.run_status)
    }

    /// Whether the engine waits for a configuration rather than quit when there is
    /// none.
    pub closed spec fn waits(&self) -> bool {
        self.wait
    }

    /// The configuration cells are different ones.
    pub open spec fn wf(&self) -> bool {
        self.stores().active_place != self.stores().previous_place
    }

    /// The configuration cells and the run status are the same as those of `other`.
    pub open spec fn shares_with(&self, other: &Engine) -> bool {
        &&& self.stores().active_place == other.stores().active_place
        &&& self.stores().previous_place == other.stores().previous_place
        &&& self.status_place() == other.status_place()
    }

    /// A session works on the configuration cells and the run status of this engine.
    pub open spec fn runs<D, H>(&self, session: &Session<D, H>) -> bool {
        &&& session.stores().active_place == self.stores().active_place
        &&& session.stores().previous_place == self.stores().previous_place
        &&& session.status_place() == self.status_place()
    }

    /// What the engine has done between two sessions, with the commands that it took
    /// out of `rx_command`.
    pub open spec fn idle_state(&self, rx_command: Receiver<ControllerMessage>) -> IdleState {
        IdleState { stores: self.stores(), taken: taken_controls(rx_command) }
    }

    /// `found` was found in the active cell, whether there are commands was seen of
    /// `rx_command`, and, if the engine then has to wait for one, `message` came out
    /// of it as the oldest.
    pub open spec fn observed(
        &self,
        rx_command: Receiver<ControllerMessage>,
        found: Option<ConfigModel>,
        has_commands: bool,
        message: Result<ControllerModel, Disconnected>,
    ) -> bool {
        &&& found_in(*self.active_cell(), found)
        &&& seen_empty(rx_command, !has_commands)
        &&& idle_spec(found is Some, has_commands, self.waits()) is Receive ==> next_came_out(
            rx_command,
            message,
        )
    }

    /// An engine with the given run status, and without an active or a previous
    /// configuration.
    pub fn new(run_status: Arc<RwLock<ProcessingStatus>>, wait: bool) -> (engine: Engine)
        ensures
            engine.wf(),
            engine.stores().active == seq![None::<ConfigModel>],
            engine.stores().previous == seq![None::<ConfigModel>],
            engine.stores().together.len() == 0,
            engine.reasons() == status_updates(*run_status),
            engine.status_place() == status_place(*run_status),
            engine.waits() == wait,
    {
        Engine { configs: SharedConfigs::new(), run_status, wait }
    }

    /// The configuration cells.
    pub fn configs(&self) -> (configs: &SharedConfigs)
        ensures
            configs@ == self.stores(),
            configs.active_cell() == self.active_cell(),
    {
        &self.configs
    }

    /// Looks once at the configuration and the command queue, and answers a command
    /// if it has to wait for one. Whether there is a configuration, whether commands
    /// are queued and which one comes is up to other threads: the configuration is
    /// that of the active cell, and the commands are those of `rx_command`, which it
    /// takes oldest first. The command that it takes is the one that it answers, and
    /// it takes no other.
    pub fn wait_for_config(&mut self, rx_command: &mut Receiver<ControllerMessage>) -> (waited:
        Waited)
        requires
            old(self).wf(),
        ensures
            final(self).wf(),
            final(self).shares_with(old(self)),
            final(self).reasons() == old(self).reasons(),
            final(self).waits() == old(self).waits(),
            control_place(*final(rx_command)) == control_place(*old(rx_command)),
            exists|
                found: Option<ConfigModel>,
                has_commands: bool,
                message: Result<ControllerModel, Disconnected>,
            |
                {
                    &&& #[trigger] old(self).observed(
                        *old(rx_command),
                        found,
                        has_commands,
                        message,
                    )
                    &&& (final(self).idle_state(*final(rx_command)), waited) == waited_spec(
                        old(self).idle_state(*old(rx_command)),
                        found,
                        has_commands,
                        old(self).waits(),
                        message,
                    )
                },
    {
        let active = self.configs.load_active();
        let ghost found = config_model(active);
        let has_commands = !queue_is_empty(rx_command);
        let ghost mut answered = Err::<ControllerModel, Disconnected>(Disconnected);
        let waited = match idle(active.is_some(), has_commands, self.wait) {
            Idle::Start => Waited::Start,
            Idle::Quit(code) => Waited::Quit(code),
            Idle::Receive => {
                let message: Result<ControllerMessage, Disconnected> = match receive_control(
                    rx_command,
                ) {
                    Ok(message) => Ok(message),
                    Err(_) => Err(Disconnected),
                };
                proof {
                    answered = control_model(message);
                }
                match on_idle_command(&mut self.configs, message) {
                    Some(code) => Waited::Quit(code),
                    None => Waited::Again,
                }
            },
        };
        assert(old(self).observed(*old(rx_command), found, has_commands, answered));
        waited
    }

    /// `result` is what came of it when this engine began a session.
    pub open spec fn started<D, H, F: Fn(bool)>(
        &self,
        set_shutdown_requested: F,
        result: Result<Session<D, H>, ExitState>,
    ) -> bool {
        &&& call_ensures(set_shutdown_requested, (false,), ())
        &&& match result {
            Ok(session) => {
                &&& session.wf()
                &&& session.pipelines().len() == 0
                &&& session.covers_first_groups()
                &&& session.starting()
                &&& found_in(*self.active_cell(), Some(session.active()))
                &&& session.stores() == self.stores()
                &&& session.reasons() == self.reasons()
                &&& self.runs(&session)
            },
            Err(exit) => {
                &&& found_in(*self.active_cell(), None)
                &&& exit == ExitState::Exit
            },
        }
    }

    /// Begins a session on the configuration cells and the run status of the engine,
    /// or quits if there is no configuration. A request to shut down that an earlier
    /// session left behind is withdrawn: `set_shutdown_requested` is told that there
    /// is none.
    pub fn start_session<D, H, F: Fn(bool)>(&self, set_shutdown_requested: F) -> (result: Result<
        Session<D, H>,
        ExitState,
    >)
        requires
            self.wf(),
            call_requires(set_shutdown_requested, (false,)),
        ensures
            self.started(set_shutdown_requested, result),
    {
        set_shutdown_requested(false);
        Session::open(self.configs.clone(), self.run_status.clone())
    }
}

/// The exit code with which the engine quits after a session, if it does.
pub open spec fn after_session_spec(
    result: Result<ExitState, EngineError>,
    wait: bool,
) -> Option<i32> {
    match result {
        Err(_) => if wait {
            None
        } else {
            Some(EXIT_PROCESSING_ERROR)
        },
        Ok(ExitState::Exit) => Some(EXIT_OK),
        Ok(ExitState::Restart) => None,
    }
}

/// Decides whether the engine quits after a session, and with which exit code.
pub fn after_session(result: &Result<ExitState, EngineError>, wait: bool) -> (quit: Option<i32>)
    ensures
        quit == after_session_spec(*result, wait),
{
    match result {
        Err(_) => if wait {
            None
        } else {
            Some(EXIT_PROCESSING_ERROR)
        },
        Ok(ExitState::Exit) => Some(EXIT_OK),
        Ok(ExitState::Restart) => None,
    }
}

} // verus!

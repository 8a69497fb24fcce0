//! The state that the engine shares with other threads: the active and the
//! previous configuration behind `parking_lot` mutexes, the reason of the last
//! stop behind a `parking_lot` lock, and the startup barrier of the standard
//! library.
//!
//! Other threads write these cells too, so what a read finds stays open; `found_in`
//! tells only in which cell it was found. What is pinned down is what is written.
//! `stored_configs` and `status_updates` name the writes that were made through
//! one handle, in order, and `meetings` the times that a handle was waited on. A
//! clone of a handle carries on the record of the handle that it was cloned from.

use crate::channels::sent_commands;
use crate::config::{ConfigModel, Configuration};
use crate::messages::{CommandMessage, StopModel, StopReason};
use crossbeam_channel::Sender;
use parking_lot::lock_api;
use parking_lot::{Mutex, RwLock};
use std::sync::{Arc, Barrier};
use vstd::prelude::*;

verus! {

/// A mutex of `lock_api`, from which `parking_lot` makes its own.
#[verifier::external_type_specification]
#[verifier::external_body]
#[verifier::reject_recursive_types(R)]
#[verifier::reject_recursive_types(T)]
pub struct ExMutex<R, T: ?Sized>(lock_api::Mutex<R, T>);

/// The raw mutex of `parking_lot`.
#[verifier::external_type_specification]
#[verifier::external_body]
pub struct ExRawMutex(parking_lot::RawMutex);

/// A reader-writer lock of `lock_api`, from which `parking_lot` makes its own.
#[verifier::external_type_specification]
#[verifier::external_body]
#[verifier::reject_recursive_types(R)]
#[verifier::reject_recursive_types(T)]
pub struct ExRwLock<R, T: ?Sized>(lock_api::RwLock<R, T>);

/// The raw reader-writer lock of `parking_lot`.
#[verifier::external_type_specification]
#[verifier::external_body]
pub struct ExRawRwLock(parking_lot::RawRwLock);

/// A barrier of the standard library.
#[verifier::external_type_specification]
#[verifier::external_body]
pub struct ExBarrier(Barrier);

/// What was put into a configuration cell through this handle, and through the one
/// that it was cloned from before that, in order, from what it was made with on.
pub uninterp spec fn stored_configs(cell: Mutex<Option<Configuration>>) -> Seq<Option<ConfigModel>>;

/// Whether a configuration cell held this when it was read through this handle.
/// Other threads store into it, so that it may have held one thing at one time
/// and another at another.
pub uninterp spec fn found_in(
    cell: Mutex<Option<Configuration>>,
    config: Option<ConfigModel>,
) -> bool;

/// What was stored in two configuration cells in one step, in order: in the first
/// and in the second.
pub uninterp spec fn stored_together(
    first: Mutex<Option<Configuration>>,
    second: Mutex<Option<Configuration>>,
) -> Seq<(Option<ConfigModel>, Option<ConfigModel>)>;

/// Which configuration cell this is a handle of. A thread that locks one of two
/// different cells can still lock the other.
pub uninterp spec fn cell_place(cell: Mutex<Option<Configuration>>) -> int;

/// The updates of the run status that were made through this handle, and through
/// the one that it was cloned from before that, in order: the stop reason that was
/// found and the one that was left.
pub uninterp spec fn status_updates(cell: RwLock<ProcessingStatus>) -> Seq<(StopModel, StopModel)>;

/// Which run status this is a handle of.
pub uninterp spec fn status_place(cell: RwLock<ProcessingStatus>) -> int;

/// How many threads have to wait on a barrier before it lets them pass.
pub uninterp spec fn parties(barrier: Barrier) -> usize;

/// Which barrier this is a handle of.
pub uninterp spec fn meeting_place(barrier: Barrier) -> int;

/// The times that this handle of a barrier, or the one that it was cloned from
/// before that, was waited on, in order: for each, what had been handed to the
/// capture thread when the wait began.
pub uninterp spec fn meetings(barrier: Barrier) -> Seq<Seq<(CommandMessage, bool)>>;

/// `Mutex::new` of `parking_lot`, twice: two different cells without a
/// configuration, into which nothing was stored since.
#[verifier::external_body]
fn empty_cells() -> (cells: (
    Arc<Mutex<Option<Configuration>>>,
    Arc<Mutex<Option<Configuration>>>,
))
    ensures
        cell_place(*cells.0) != cell_place(*cells.1),
        stored_configs(*cells.0) == seq![None::<ConfigModel>],
        stored_configs(*cells.1) == seq![None::<ConfigModel>],
        stored_together(*cells.0, *cells.1).len() == 0,
{
    (Arc::new(Mutex::new(None)), Arc::new(Mutex::new(None)))
}

/// `Mutex::lock` of `parking_lot`: waits for the cell and copies what it holds.
/// Other threads store into it, so which configuration that is, if any, is left
/// open; what is claimed is that it was found in this cell.
#[verifier::external_body]
fn load_config(cell: &Arc<Mutex<Option<Configuration>>>) -> (config: Option<
    Configuration,
>)
    ensures
        found_in(**cell, config_model(config)),
{
    cell.lock().clone()
}

/// `Mutex::lock` of `parking_lot`: waits for the cell and stores a value in it.
/// It stays the cell that it was, and nothing is stored in another in that step.
#[verifier::external_body]
fn store_config(
    cell: &mut Arc<Mutex<Option<Configuration>>>,
    config: Option<Configuration>,
)
    ensures
        stored_configs(**final(cell)) == stored_configs(**old(cell)).push(config_model(config)),
        cell_place(**final(cell)) == cell_place(**old(cell)),
        forall|other: Mutex<Option<Configuration>>|
            #![trigger stored_together(**final(cell), other)]
            stored_together(**final(cell), other) == stored_together(**old(cell), other),
        forall|other: Mutex<Option<Configuration>>|
            #![trigger stored_together(other, **final(cell))]
            stored_together(other, **final(cell)) == stored_together(other, **old(cell)),
{
    *cell.lock() = config;
}

/// `Mutex::lock` of `parking_lot`: waits for the first cell, then for the
/// second, and stores a value in each before it lets go of either, so that no
/// other thread sees only one of the two stores. On one and the same cell it
/// would wait for itself.
#[verifier::external_body]
fn store_two_configs(
    first: &mut Arc<Mutex<Option<Configuration>>>,
    second: &mut Arc<Mutex<Option<Configuration>>>,
    in_first: Option<Configuration>,
    in_second: Option<Configuration>,
)
    requires
        cell_place(**old(first)) != cell_place(**old(second)),
    ensures
        cell_place(**final(first)) == cell_place(**old(first)),
        cell_place(**final(second)) == cell_place(**old(second)),
        stored_configs(**final(first)) == stored_configs(**old(first)).push(config_model(in_first)),
        stored_configs(**final(second)) == stored_configs(**old(second)).push(
            config_model(in_second),
        ),
        stored_together(**final(first), **final(second)) == stored_together(
            **old(first),
            **old(second),
        ).push((config_model(in_first), config_model(in_second))),
{
    let mut first_guard = first.lock();
    let mut second_guard = second.lock();
    *first_guard = in_first;
    *second_guard = in_second;
}

/// `RwLock::write` of `parking_lot`: waits for the lock and sets the stop reason.
#[verifier::external_body]
pub(crate) fn write_stop_reason(cell: &mut Arc<RwLock<ProcessingStatus>>, reason: StopReason)
    ensures
        status_updates(**final(cell)).len() == status_updates(**old(cell)).len() + 1,
        status_updates(**final(cell)).drop_last() == status_updates(**old(cell)),
        status_updates(**final(cell)).last().1 == reason@,
        status_place(**final(cell)) == status_place(**old(cell)),
{
    cell.write().stop_reason = reason;
}

/// `RwLock::upgradable_read` and `RwLockUpgradableReadGuard::with_upgraded` of
/// `parking_lot`: waits for the lock and runs [`mark_done`] on the status while
/// no other thread can read or write it.
#[verifier::external_body]
pub(crate) fn update_when_done(cell: &mut Arc<RwLock<ProcessingStatus>>)
    ensures
        status_updates(**final(cell)).len() == status_updates(**old(cell)).len() + 1,
        status_updates(**final(cell)).drop_last() == status_updates(**old(cell)),
        status_updates(**final(cell)).last().1 == reason_when_done(
            status_updates(**final(cell)).last().0,
        ),
        status_place(**final(cell)) == status_place(**old(cell)),
{
    cell.upgradable_read().with_upgraded(|status| mark_done(status));
}

/// `Barrier::new`: a barrier for the given number of threads, on which nobody
/// waited yet.
pub assume_specification[ Barrier::new ](n: usize) -> (barrier: Barrier)
    ensures
        parties(barrier) == n,
        meetings(barrier) == Seq::<Seq<(CommandMessage, bool)>>::empty(),
;

/// `Barrier::wait`: waits until as many threads wait as the barrier has parties.
/// When the others come, and whether this one leads, is left open. It stays the
/// barrier that it was. The sender of commands is shown for the record only: it is
/// borrowed, so that nothing is sent through it during the wait.
#[allow(unused_variables)]
#[verifier::external_body]
fn meet(barrier: &mut Arc<Barrier>, tx_command: &Sender<CommandMessage>)
    ensures
        meetings(**final(barrier)) == meetings(**old(barrier)).push(sent_commands(*tx_command)),
        meeting_place(**final(barrier)) == meeting_place(**old(barrier)),
        parties(**final(barrier)) == parties(**old(barrier)),
{
    barrier.wait();
}

/// The supervisor's own handle of a startup barrier. It cannot be cloned: the
/// handles that it deals out are for other threads, and nothing in the library
/// waits through them.
#[derive(Debug)]
pub struct StartupBarrier {
    barrier: Arc<Barrier>,
}

impl StartupBarrier {
    /// What is said of a startup barrier is said of the handle that is held.
    proof fn law_view_shows_what_is_held(&self)
        ensures
            self.place() == meeting_place(*self.barrier),
            self.parties() == parties(*self.barrier),
            self.meetings() == meetings(*self.barrier),
    {
    }

    /// Which barrier this is.
    pub closed spec fn place(&self) -> int {
        meeting_place(*self.barrier)
    }

    /// How many threads meet at it.
    pub closed spec fn parties(&self) -> usize {
        parties(*self.barrier)
    }

    /// The times that it was met through this handle, each with the commands that
    /// the capture thread had been handed by then.
    pub closed spec fn meetings(&self) -> Seq<Seq<(CommandMessage, bool)>> {
        meetings(*self.barrier)
    }

    /// A new barrier that nobody met yet.
    pub fn new(count: usize) -> (barrier: StartupBarrier)
        ensures
            barrier.parties() == count,
            barrier.meetings() == Seq::<Seq<(CommandMessage, bool)>>::empty(),
    {
        StartupBarrier { barrier: Arc::new(Barrier::new(count)) }
    }

    /// A handle of the same barrier for another thread.
    pub fn handle(&self) -> (handle: Arc<Barrier>)
        ensures
            meeting_place(*handle) == self.place(),
            parties(*handle) == self.parties(),
    {
        self.barrier.clone()
    }

    /// Meets the barrier, after what was sent through `tx_command` so far.
    pub fn meet(&mut self, tx_command: &Sender<CommandMessage>)
        ensures
            final(self).meetings() == old(self).meetings().push(sent_commands(*tx_command)),
            final(self).place() == old(self).place(),
            final(self).parties() == old(self).parties(),
    {
        meet(&mut self.barrier, tx_command);
    }
}

/// The mathematical value of an optional configuration.
pub open spec fn config_model(config: Option<Configuration>) -> Option<ConfigModel> {
    match config {
        Some(config) => Some(config@),
        None => None,
    }
}

/// The run status of the engine.
#[derive(Debug)]
pub struct ProcessingStatus {
    pub stop_reason: StopReason,
}

/// The stop reason once playback has finished: a reason that was recorded
/// before stays.
pub open spec fn reason_when_done(found: StopModel) -> StopModel {
    if found is NotStopped {
        StopModel::Done
    } else {
        found
    }
}

/// Records that playback has finished, unless a stop reason stands already.
pub fn mark_done(status: &mut ProcessingStatus)
    ensures
        final(status).stop_reason@ == reason_when_done(old(status).stop_reason@),
{
    match status.stop_reason {
        StopReason::NotStopped => {
            status.stop_reason = StopReason::Done;
        },
        _ => {},
    }
}

/// The configuration cells that a session shares with the rest of the engine:
/// a handle of each.
#[derive(Debug)]
pub struct SharedConfigs {
    active: Arc<Mutex<Option<Configuration>>>,
    previous: Arc<Mutex<Option<Configuration>>>,
}

/// What was stored in the two configuration cells through one pair of handles.
pub struct ConfigStores {
    pub active: Seq<Option<ConfigModel>>,
    pub previous: Seq<Option<ConfigModel>>,
    /// The stores that were made in both cells in one step.
    pub together: Seq<(Option<ConfigModel>, Option<ConfigModel>)>,
    /// Which cell holds the active configuration.
    pub active_place: int,
    /// Which cell holds the previous configuration.
    pub previous_place: int,
}

impl View for SharedConfigs {
    type V = ConfigStores;

    closed spec fn view(&self) -> ConfigStores {
        ConfigStores {
            active: stored_configs(*self.active),
            previous: stored_configs(*self.previous),
            together: stored_together(*self.active, *self.previous),
            active_place: cell_place(*self.active),
            previous_place: cell_place(*self.previous),
        }
    }
}

impl SharedConfigs {
    /// What is said of the cells is said of the handles that are held.
    proof fn law_view_shows_what_is_held(&self)
        ensures
            self@.active == stored_configs(*self.active),
            self@.previous == stored_configs(*self.previous),
            self@.together == stored_together(*self.active, *self.previous),
            self@.active_place == cell_place(*self.active),
            self@.previous_place == cell_place(*self.previous),
            self.active_cell() == self.active,
            self.previous_cell() == self.previous,
    {
    }

    /// The two cells are different ones.
    pub open spec fn wf(&self) -> bool {
        self@.active_place != self@.previous_place
    }

    /// The cell of the configuration that runs or is to run next.
    pub closed spec fn active_cell(&self) -> Arc<Mutex<Option<Configuration>>> {
        self.active
    }

    /// The cell of the configuration that ran before.
    pub closed spec fn previous_cell(&self) -> Arc<Mutex<Option<Configuration>>> {
        self.previous
    }

    /// Two cells without a configuration.
    pub fn new() -> (configs: SharedConfigs)
        ensures
            configs.wf(),
            configs@.active == seq![None::<ConfigModel>],
            configs@.previous == seq![None::<ConfigModel>],
            configs@.together.len() == 0,
    {
        let (active, previous) = empty_cells();
        SharedConfigs { active, previous }
    }

    /// A handle of the cell of the active configuration.
    pub fn active(&self) -> (cell: Arc<Mutex<Option<Configuration>>>)
        ensures
            cell == self.active_cell(),
    {
        self.active.clone()
    }

    /// A handle of the cell of the previous configuration.
    pub fn previous(&self) -> (cell: Arc<Mutex<Option<Configuration>>>)
        ensures
            cell == self.previous_cell(),
    {
        self.previous.clone()
    }

    /// A copy of the active configuration, if there is one at the moment. Other
    /// threads store into the cell, so which one it is stays open.
    pub(crate) fn load_active(&self) -> (config: Option<Configuration>)
        ensures
            found_in(*self.active_cell(), config_model(config)),
    {
        load_config(&self.active)
    }

    /// Makes a configuration the active one.
    pub fn activate(&mut self, config: Configuration)
        requires
            old(self).wf(),
        ensures
            final(self).wf(),
            final(self)@ == (ConfigStores {
                active: old(self)@.active.push(Some(config@)),
                ..old(self)@
            }),
    {
        store_config(&mut self.active, Some(config));
    }

    /// Leaves no configuration active.
    pub fn deactivate(&mut self)
        requires
            old(self).wf(),
        ensures
            final(self).wf(),
            final(self)@ == (ConfigStores {
                active: old(self)@.active.push(None),
                ..old(self)@
            }),
    {
        store_config(&mut self.active, None);
    }

    /// Remembers a configuration as the previous one and leaves the active one
    /// as it is.
    pub fn remember(&mut self, config: Configuration)
        requires
            old(self).wf(),
        ensures
            final(self).wf(),
            final(self)@ == (ConfigStores {
                previous: old(self)@.previous.push(Some(config@)),
                ..old(self)@
            }),
    {
        store_config(&mut self.previous, Some(config));
    }

    /// Leaves no configuration active and remembers the given one as the
    /// previous one, in one step.
    pub fn retire(&mut self, config: Configuration)
        requires
            old(self).wf(),
        ensures
            final(self).wf(),
            final(self)@ == (ConfigStores {
                active: old(self)@.active.push(None),
                previous: old(self)@.previous.push(Some(config@)),
                together: old(self)@.together.push((None, Some(config@))),
                ..old(self)@
            }),
    {
        store_two_configs(&mut self.active, &mut self.previous, None, Some(config));
    }
}

impl Clone for SharedConfigs {
    /// Another pair of handles of the same cells.
    fn clone(&self) -> (other: Self)
        ensures
            other@ == self@,
            other.active_cell() == self.active_cell(),
            other.previous_cell() == self.previous_cell(),
    {
        SharedConfigs { active: self.active.clone(), previous: self.previous.clone() }
    }
}

/// The status that a pipeline reports into: the run status of the whole engine,
/// and what its own device threads keep.
#[derive(Debug)]
pub struct StatusStructs<D> {
    pub status: Arc<RwLock<ProcessingStatus>>,
    pub devices: D,
}

impl<D> StatusStructs<D> {
    /// Status with the same run status and other device state.
    pub fn new_with_shared_run_status(&self, devices: D) -> (other: StatusStructs<D>)
        ensures
            other.status == self.status,
            other.devices == devices,
    {
        StatusStructs { status: self.status.clone(), devices }
    }
}

/// Where the device state of a group's status comes from.
#[derive(Clone, Copy, Debug, PartialEq, Eq, Structural)]
pub enum StatusSource {
    /// The state that lives as long as the process and that clients look at.
    Process,
    /// State of its own.
    Fresh,
}

/// The first group reports into the state that lives as long as the process,
/// every other group into state of its own.
pub open spec fn source_of(group: usize) -> StatusSource {
    if group == 0 {
        StatusSource::Process
    } else {
        StatusSource::Fresh
    }
}

/// Where the device state of a group's status comes from.
pub fn status_source(group: usize) -> (source: StatusSource)
    ensures
        source == source_of(group),
{
    if group == 0 {
        StatusSource::Process
    } else {
        StatusSource::Fresh
    }
}

} // verus!

//! The store that holds the active schedule, and the operation that replaces
//! it.
//!
//! The store is an owned state object. Reading borrows it; replacing needs it
//! exclusively, so a reader sees the schedule before a replacement or after
//! it, never a mixture. A program that shares the store between threads puts
//! it behind a lock and lends it out from there.

use vstd::prelude::*;
use vstd::string::StringExecFns;
use crate::moment::LocalMoment;
use crate::settings::{default_schedule, ScheduleModel, ScheduleSettings};
use crate::trigger::fires_at;

verus! {

/// Holds the schedule that is in force.
pub struct ScheduleStore {
    current: ScheduleSettings,
}

impl View for ScheduleStore {
    type V = ScheduleModel;

    closed spec fn view(&self) -> ScheduleModel {
        self.current@
    }
}

/// The schedule held after `updates` have replaced the schedule `initial`,
/// one after the other.
pub open spec fn after_updates(initial: ScheduleModel, updates: Seq<ScheduleModel>) -> ScheduleModel
    decreases updates.len(),
{
    if updates.len() == 0 {
        initial
    } else {
        replaced(after_updates(initial, updates.drop_last()), updates.last())
    }
}

/// The schedule held after `new_config` has replaced `held`: the new one,
/// whole. Nothing of `held` is kept.
pub open spec fn replaced(held: ScheduleModel, new_config: ScheduleModel) -> ScheduleModel {
    new_config
}

impl ScheduleStore {
    /// A store holding the default schedule.
    pub fn new() -> (store: Self)
        ensures
            store@ == default_schedule(),
    {
        ScheduleStore { current: ScheduleSettings::default() }
    }

    /// A copy of the schedule in force.
    pub fn read(&self) -> (snapshot: ScheduleSettings)
        ensures
            snapshot@ == self@,
    {
        self.current.clone()
    }

    /// Puts `new_config` in the place of the schedule in force.
    ///
    /// No input is refused: the new schedule is stored as it is, readable
    /// time or not. With the store borrowed exclusively nothing can go wrong,
    /// so the outcome is always `Ok`; the `Result` leaves room for the
    /// caller's own failure to get hold of the store.
    pub fn replace(&mut self, new_config: ScheduleSettings) -> (outcome: Result<(), String>)
        ensures
            outcome is Ok,
            final(self)@ == replaced(old(self)@, new_config@),
    {
        self.current = new_config;
        Ok(())
    }
}

/// Replaces the schedule in force by `new_config`. Later evaluations of the
/// schedule see the new one.
pub fn update_schedule(store: &mut ScheduleStore, new_config: ScheduleSettings) -> (outcome: Result<
    (),
    String,
>)
    ensures
        outcome is Ok,
        final(store)@ == replaced(old(store)@, new_config@),
{
    store.replace(new_config)
}

/// The error that an update reports when the store could not be had because
/// the lock around it is broken; `cause` is the lock's own description.
pub fn lock_failure_message(cause: &str) -> (message: String)
    ensures
        message@ == "Failed to update schedule settings: "@ + cause@,
{
    let mut message = String::from_str("Failed to update schedule settings: ");
    message.append(cause);
    message
}

/// Reading the store right after an update gives the new schedule, and an
/// evaluation right after an update is an evaluation of the new schedule;
/// the schedule held before plays no part.
pub proof fn lemma_update_then_read(held: ScheduleModel, new_config: ScheduleModel, now: LocalMoment)
    ensures
        replaced(held, new_config) == new_config,
        fires_at(replaced(held, new_config), now) == fires_at(new_config, now),
{
}

/// Whatever updates have run, in whatever order they were committed, the
/// store holds one schedule whole: the last one committed, or the initial one
/// where none was. It never holds a mixture of two.
pub proof fn lemma_updates_keep_schedule_whole(initial: ScheduleModel, updates: Seq<ScheduleModel>)
    ensures
        updates.len() == 0 ==> after_updates(initial, updates) == initial,
        updates.len() > 0 ==> after_updates(initial, updates) == updates.last(),
{
}

} // verus!

//! The poller's cycle: wait, read the clock, evaluate the stored schedule,
//! deliver the event if there is one. Waiting and delivering are the
//! caller's; reading and evaluating are here.

use vstd::prelude::*;
use crate::moment::{read_local_clock, LocalMoment};
use crate::store::ScheduleStore;
use crate::trigger::{evaluate, is_outcome_of, TriggerEvent};

verus! {

/// Seconds that the poller waits between two evaluations of the schedule.
pub const POLL_INTERVAL_SECONDS: u64 = 60;

/// Name of the event under which a trigger is delivered to its listener.
pub const TRIGGER_EVENT_NAME: &'static str = "schedule-trigger";

/// One evaluation of the stored schedule at the moment `now`.
pub fn poll_at(store: &ScheduleStore, now: &LocalMoment) -> (outcome: Option<TriggerEvent>)
    ensures
        is_outcome_of(outcome, store@, *now),
        !store@.enabled ==> outcome is None,
        !store@.active_days().contains(now.weekday) ==> outcome is None,
        store@.fire_time() is None ==> outcome is None,
{
    let config = store.read();
    evaluate(&config, now)
}

/// One cycle of the poller: reads the local clock, takes a snapshot of the
/// stored schedule and evaluates it.
///
/// Which moment the clock gives is not known beforehand; whatever it is, the
/// outcome is the evaluation of the stored schedule at that moment.
pub fn poll(store: &ScheduleStore) -> (outcome: Option<TriggerEvent>)
    ensures
        exists|now: LocalMoment| now.in_calendar_range() && #[trigger] is_outcome_of(outcome, store@, now),
        !store@.enabled ==> outcome is None,
        store@.fire_time() is None ==> outcome is None,
{
    let now = read_local_clock();
    poll_at(store, &now)
}

} // verus!

//! The decision whether a moment fires the schedule, and the event that a
//! firing produces.

use vstd::prelude::*;
use crate::labels::{
    date_label, date_label_of, lemma_time_label_reads_back, time_label, time_label_of,
};
use crate::moment::LocalMoment;
use crate::settings::{ScheduleModel, ScheduleSettings};
use crate::time_text::time_of;

verus! {

/// Mathematical value of a trigger event.
pub struct TriggerModel {
    pub timestamp_millis: int,
    pub date_label: Seq<char>,
    pub time_label: Seq<char>,
}

/// The notification that the schedule fired: "generate the report now".
#[derive(Debug, PartialEq, Eq)]
pub struct TriggerEvent {
    /// The firing instant, in milliseconds since the Unix epoch.
    pub timestamp_millis: i64,
    /// The local calendar date of the firing, as `YYYY-MM-DD`.
    pub date_label: String,
    /// The local time of the firing, as `HH:MM`.
    pub time_label: String,
}

impl View for TriggerEvent {
    type V = TriggerModel;

    open spec fn view(&self) -> TriggerModel {
        TriggerModel {
            timestamp_millis: self.timestamp_millis as int,
            date_label: self.date_label@,
            time_label: self.time_label@,
        }
    }
}

impl Clone for TriggerEvent {
    fn clone(&self) -> (copy: Self)
        ensures
            copy@ == self@,
    {
        TriggerEvent {
            timestamp_millis: self.timestamp_millis,
            date_label: self.date_label.clone(),
            time_label: self.time_label.clone(),
        }
    }
}

/// The schedule `config` fires at the moment `now`: it is switched on, the
/// weekday is one of its days, and its time reads as the moment's hour and
/// minute.
pub open spec fn fires_at(config: ScheduleModel, now: LocalMoment) -> bool {
    &&& config.enabled
    &&& config.active_days().contains(now.weekday)
    &&& config.fire_time() == Some((now.hour, now.minute))
}

/// The event that a firing at the moment `now` produces.
pub open spec fn event_at(now: LocalMoment) -> TriggerModel {
    TriggerModel {
        timestamp_millis: now.timestamp_millis as int,
        date_label: date_label_of(now.year as int, now.month as nat, now.day as nat),
        time_label: time_label_of(now.hour as nat, now.minute as nat),
    }
}

/// `outcome` is what one evaluation of `config` at `now` has to yield: the
/// event of `now` where the schedule fires, nothing where it does not.
pub open spec fn is_outcome_of(
    outcome: Option<TriggerEvent>,
    config: ScheduleModel,
    now: LocalMoment,
) -> bool {
    match outcome {
        Some(event) => fires_at(config, now) && event@ == event_at(now),
        None => !fires_at(config, now),
    }
}

/// A schedule has one time of day: two moments at which it fires agree in
/// hour and minute.
pub proof fn lemma_fires_at_one_time(config: ScheduleModel, a: LocalMoment, b: LocalMoment)
    requires
        fires_at(config, a),
        fires_at(config, b),
    ensures
        a.hour == b.hour,
        a.minute == b.minute,
{
}

/// The time label of a firing reads back as the schedule's own time.
pub proof fn lemma_event_label_is_fire_time(config: ScheduleModel, now: LocalMoment)
    requires
        fires_at(config, now),
    ensures
        time_of(event_at(now).time_label) == config.fire_time(),
{
    lemma_time_label_reads_back(now.hour, now.minute);
}

/// Decides whether the schedule `config` fires at the moment `now`.
///
/// A schedule that is switched off never fires; nor does one whose days leave
/// out the moment's weekday; nor one whose time cannot be read. An unreadable
/// time is no error: it is a schedule that matches no moment.
pub fn should_fire(config: &ScheduleSettings, now: &LocalMoment) -> (fire: bool)
    ensures
        fire == fires_at(config@, *now),
        !config.enabled ==> !fire,
        !config@.active_days().contains(now.weekday) ==> !fire,
        config@.fire_time() is None ==> !fire,
{
    if !config.enabled {
        false
    } else if !config.is_active_on(now.weekday) {
        false
    } else {
        match config.fire_time() {
            Some((hour, minute)) => now.hour == hour && now.minute == minute,
            None => false,
        }
    }
}

/// Builds the event of a firing at the moment `now`.
pub fn trigger_event(now: &LocalMoment) -> (event: TriggerEvent)
    ensures
        event@ == event_at(*now),
{
    TriggerEvent {
        timestamp_millis: now.timestamp_millis,
        date_label: date_label(now.year, now.month, now.day),
        time_label: time_label(now.hour, now.minute),
    }
}

/// One evaluation of the schedule: the event to deliver where `config` fires
/// at `now`, and `None` where it does not.
pub fn evaluate(config: &ScheduleSettings, now: &LocalMoment) -> (outcome: Option<TriggerEvent>)
    ensures
        is_outcome_of(outcome, config@, *now),
        !config.enabled ==> outcome is None,
        !config@.active_days().contains(now.weekday) ==> outcome is None,
        config@.fire_time() is None ==> outcome is None,
{
    if should_fire(config, now) {
        Some(trigger_event(now))
    } else {
        None
    }
}

} // verus!

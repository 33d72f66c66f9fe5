//! Recurring report schedule: the configured schedule, the store that holds
//! it, and the decision whether a given minute fires a trigger.

pub mod labels;
pub mod moment;
pub mod poller;
pub mod settings;
pub mod store;
pub mod time_text;
pub mod trigger;

pub use crate::moment::LocalMoment;
pub use crate::poller::{poll, poll_at, POLL_INTERVAL_SECONDS, TRIGGER_EVENT_NAME};
pub use crate::settings::ScheduleSettings;
pub use crate::store::{update_schedule, ScheduleStore};
pub use crate::trigger::{evaluate, should_fire, TriggerEvent};

//! The schedule a user configures: an on/off switch, a time of day and a set
//! of weekdays.

use vstd::prelude::*;
use crate::time_text::{decimal_value, lemma_time_of_parts, number_of, parse_time, time_of};

verus! {

/// Mathematical value of a schedule.
pub struct ScheduleModel {
    pub enabled: bool,
    pub time: Seq<char>,
    pub days: Seq<u8>,
}

impl ScheduleModel {
    /// The hour and minute at which the schedule fires, where its time can be
    /// read.
    pub open spec fn fire_time(self) -> Option<(u32, u32)> {
        time_of(self.time)
    }

    /// The weekdays on which the schedule applies.
    pub open spec fn active_days(self) -> Set<u8> {
        self.days.to_set()
    }

    /// The schedule names a time of the 24-hour clock and days of the week:
    /// its time reads as an hour up to 23 and a minute up to 59, and each of
    /// its days is one of 0 to 6.
    pub open spec fn well_formed(self) -> bool {
        &&& self.fire_time() matches Some((hour, minute)) && hour <= 23 && minute <= 59
        &&& forall|day: u8| self.active_days().contains(day) ==> day <= 6
    }
}

/// Schedule settings for automated report generation.
#[derive(Debug)]
pub struct ScheduleSettings {
    pub enabled: bool,
    /// Time of day as text, hour and minute separated by a colon, e.g. "18:00".
    pub time: String,
    /// Weekdays on which the schedule applies: 0 = Sunday, ..., 6 = Saturday.
    pub days: Vec<u8>,
}

impl View for ScheduleSettings {
    type V = ScheduleModel;

    open spec fn view(&self) -> ScheduleModel {
        ScheduleModel { enabled: self.enabled, time: self.time@, days: self.days@ }
    }
}

/// The schedule a fresh installation starts with: switched off, 18:00,
/// Monday to Friday.
pub open spec fn default_schedule() -> ScheduleModel {
    ScheduleModel { enabled: false, time: seq!['1', '8', ':', '0', '0'], days: seq![1u8, 2u8, 3u8, 4u8, 5u8] }
}

/// The default schedule is well formed; its time reads as 18:00.
pub proof fn lemma_default_schedule_well_formed()
    ensures
        default_schedule().fire_time() == Some((18u32, 0u32)),
        default_schedule().active_days() =~= set![1u8, 2u8, 3u8, 4u8, 5u8],
        default_schedule().well_formed(),
{
    let hour_text = seq!['1', '8'];
    let minute_text = seq!['0', '0'];
    assert(default_schedule().time =~= hour_text + seq![':'] + minute_text);
    lemma_time_of_parts(hour_text, minute_text);
    assert(number_of(hour_text) == Some(18u32)) by {
        reveal_with_fuel(decimal_value, 3);
        assert(hour_text.drop_last() =~= seq!['1']);
        assert(hour_text.drop_last().drop_last() =~= Seq::<char>::empty());
    }
    assert(number_of(minute_text) == Some(0u32)) by {
        reveal_with_fuel(decimal_value, 3);
        assert(minute_text.drop_last() =~= seq!['0']);
        assert(minute_text.drop_last().drop_last() =~= Seq::<char>::empty());
    }
}

impl ScheduleSettings {
    /// The hour and minute at which the schedule fires, or `None` where its
    /// time cannot be read.
    pub fn fire_time(&self) -> (time: Option<(u32, u32)>)
        ensures
            time == self@.fire_time(),
    {
        parse_time(self.time.as_str())
    }

    /// Whether the schedule applies on the weekday `day`.
    pub fn is_active_on(&self, day: u8) -> (active: bool)
        ensures
            active == self@.active_days().contains(day),
    {
        let mut i: usize = 0;
        while i < self.days.len()
            invariant
                i <= self.days.len(),
                forall|j: int| 0 <= j < i ==> self.days@[j] != day,
            decreases self.days.len() - i,
        {
            if self.days[i] == day {
                return true;
            }
            i = i + 1;
        }
        false
    }

    /// Whether the schedule is well formed. Nothing in this library asks for
    /// it: a schedule that is not well formed is stored and evaluated like any
    /// other, and simply never fires where its time cannot be read or names
    /// no minute of the day. A caller that wants to refuse such input checks
    /// here first.
    pub fn is_well_formed(&self) -> (ok: bool)
        ensures
            ok == self@.well_formed(),
    {
        match self.fire_time() {
            Some((hour, minute)) => {
                if hour > 23 || minute > 59 {
                    return false;
                }
            },
            None => {
                return false;
            },
        }
        let mut i: usize = 0;
        while i < self.days.len()
            invariant
                i <= self.days.len(),
                self@.fire_time() matches Some((hour, minute)) && hour <= 23 && minute <= 59,
                forall|j: int| 0 <= j < i ==> #[trigger] self.days@[j] <= 6,
            decreases self.days.len() - i,
        {
            if self.days[i] > 6 {
                assert(self@.active_days().contains(self.days@[i as int]));
                return false;
            }
            i = i + 1;
        }
        assert forall|day: u8| self@.active_days().contains(day) implies day <= 6 by {
            let j = choose|j: int| 0 <= j < self.days@.len() && self.days@[j] == day;
            assert(self.days@[j] <= 6);
        }
        true
    }
}

impl Default for ScheduleSettings {
    fn default() -> (settings: Self)
        ensures
            settings@ == default_schedule(),
            settings@.well_formed(),
    {
        proof {
            lemma_default_schedule_well_formed();
        }
        let time: &str = "18:00";
        proof {
            reveal_strlit("18:00");
            assert(time@ =~= seq!['1', '8', ':', '0', '0']);
        }
        let mut days: Vec<u8> = Vec::new();
        days.push(1);
        days.push(2);
        days.push(3);
        days.push(4);
        days.push(5);
        assert(days@ =~= seq![1u8, 2u8, 3u8, 4u8, 5u8]);
        ScheduleSettings { enabled: false, time: time.to_owned(), days }
    }
}

impl Clone for ScheduleSettings {
    fn clone(&self) -> (copy: Self)
        ensures
            copy@ == self@,
    {
        ScheduleSettings { enabled: self.enabled, time: self.time.clone(), days: self.days.clone() }
    }
}

} // verus!

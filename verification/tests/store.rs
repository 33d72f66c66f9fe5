use schedule_trigger::poller::{poll, poll_at, POLL_INTERVAL_SECONDS, TRIGGER_EVENT_NAME};
use schedule_trigger::store::lock_failure_message;
use schedule_trigger::{update_schedule, LocalMoment, ScheduleSettings, ScheduleStore};

fn schedule(enabled: bool, time: &str, days: &[u8]) -> ScheduleSettings {
    ScheduleSettings { enabled, time: time.to_string(), days: days.to_vec() }
}

fn wednesday(hour: u32, minute: u32) -> LocalMoment {
    LocalMoment {
        timestamp_millis: 1_715_731_200_000 + i64::from(hour) * 3_600_000 + i64::from(minute) * 60_000,
        year: 2024,
        month: 5,
        day: 15,
        hour,
        minute,
        weekday: 3,
    }
}

fn assert_holds(store: &ScheduleStore, enabled: bool, time: &str, days: &[u8]) {
    let snapshot = store.read();
    assert_eq!(snapshot.enabled, enabled);
    assert_eq!(snapshot.time, time);
    assert_eq!(snapshot.days, days);
}

#[test]
fn new_store_holds_the_default_schedule() {
    let store = ScheduleStore::new();
    assert_holds(&store, false, "18:00", &[1, 2, 3, 4, 5]);
}

#[test]
fn read_after_update_sees_the_new_schedule() {
    let mut store = ScheduleStore::new();
    assert_eq!(update_schedule(&mut store, schedule(true, "07:30", &[0, 6])), Ok(()));
    assert_holds(&store, true, "07:30", &[0, 6]);
}

#[test]
fn replace_keeps_nothing_of_the_schedule_before() {
    let mut store = ScheduleStore::new();
    assert_eq!(store.replace(schedule(true, "07:30", &[0, 6])), Ok(()));
    assert_eq!(store.replace(schedule(false, "", &[])), Ok(()));
    assert_holds(&store, false, "", &[]);
}

#[test]
fn update_accepts_any_input() {
    let mut store = ScheduleStore::new();
    assert_eq!(update_schedule(&mut store, schedule(true, "abc", &[9, 200])), Ok(()));
    assert_holds(&store, true, "abc", &[9, 200]);
    assert_eq!(update_schedule(&mut store, schedule(true, "25:99", &[])), Ok(()));
    assert_holds(&store, true, "25:99", &[]);
}

#[test]
fn after_many_updates_the_store_holds_the_last_one_whole() {
    let mut store = ScheduleStore::new();
    for round in 0u32..200 {
        let enabled = round % 2 == 0;
        let time = format!("{:02}:{:02}", round % 24, round % 60);
        let days: Vec<u8> = (0..(round % 8) as u8).collect();
        assert_eq!(update_schedule(&mut store, schedule(enabled, &time, &days)), Ok(()));
        assert_holds(&store, enabled, &time, &days);
    }
}

#[test]
fn snapshot_is_not_touched_by_a_later_update() {
    let mut store = ScheduleStore::new();
    let before = store.read();
    assert_eq!(update_schedule(&mut store, schedule(true, "07:30", &[0])), Ok(()));
    assert!(!before.enabled);
    assert_eq!(before.time, "18:00");
    assert_eq!(before.days, vec![1, 2, 3, 4, 5]);
}

#[test]
fn evaluation_after_update_uses_the_new_schedule() {
    let mut store = ScheduleStore::new();
    assert_eq!(poll_at(&store, &wednesday(18, 0)), None);
    assert_eq!(update_schedule(&mut store, schedule(true, "18:00", &[1, 2, 3, 4, 5])), Ok(()));
    let event = poll_at(&store, &wednesday(18, 0)).unwrap();
    assert_eq!(event.time_label, "18:00");
    assert_eq!(event.date_label, "2024-05-15");
    assert_eq!(poll_at(&store, &wednesday(18, 1)), None);
    assert_eq!(update_schedule(&mut store, schedule(true, "18:01", &[3])), Ok(()));
    assert_eq!(poll_at(&store, &wednesday(18, 0)), None);
    assert_eq!(poll_at(&store, &wednesday(18, 1)).unwrap().time_label, "18:01");
}

#[test]
fn store_behind_a_lock_is_updated_and_read_whole() {
    let shared = std::sync::Mutex::new(ScheduleStore::new());
    {
        let mut store = shared.lock().unwrap();
        assert_eq!(update_schedule(&mut store, schedule(true, "12:00", &[2, 4])), Ok(()));
    }
    let snapshot = shared.lock().unwrap().read();
    assert!(snapshot.enabled);
    assert_eq!(snapshot.time, "12:00");
    assert_eq!(snapshot.days, vec![2, 4]);
}

#[test]
fn lock_failure_message_names_the_cause() {
    assert_eq!(
        lock_failure_message("poisoned lock: another task failed inside"),
        "Failed to update schedule settings: poisoned lock: another task failed inside"
    );
    assert_eq!(lock_failure_message(""), "Failed to update schedule settings: ");
}

#[test]
fn poller_waits_sixty_seconds_and_names_its_event() {
    assert_eq!(POLL_INTERVAL_SECONDS, 60);
    assert_eq!(TRIGGER_EVENT_NAME, "schedule-trigger");
}

#[test]
fn poll_of_a_disabled_schedule_is_silent() {
    let store = ScheduleStore::new();
    assert_eq!(poll(&store), None);
}

#[test]
fn poll_of_an_unreadable_time_is_silent() {
    let mut store = ScheduleStore::new();
    assert_eq!(update_schedule(&mut store, schedule(true, "abc", &[0, 1, 2, 3, 4, 5, 6])), Ok(()));
    assert_eq!(poll(&store), None);
}

#[test]
fn poll_fires_for_the_minute_the_clock_shows() {
    // A minute may end between reading the clock here and inside `poll`; then
    // the reading is taken again.
    for _ in 0..3 {
        let before = chrono::Local::now();
        let time = before.format("%H:%M").to_string();
        let mut store = ScheduleStore::new();
        assert_eq!(update_schedule(&mut store, schedule(true, &time, &[0, 1, 2, 3, 4, 5, 6])), Ok(()));
        let outcome = poll(&store);
        let after = chrono::Local::now();
        if after.format("%H:%M").to_string() != time {
            continue;
        }
        let event = outcome.unwrap();
        assert_eq!(event.time_label, time);
        assert_eq!(event.date_label, before.format("%Y-%m-%d").to_string());
        assert!(before.timestamp_millis() <= event.timestamp_millis);
        assert!(event.timestamp_millis <= after.timestamp_millis());
        return;
    }
    panic!("the clock crossed a minute boundary three times in a row");
}

#[test]
fn poll_is_silent_on_every_day_but_today() {
    for _ in 0..3 {
        let before = chrono::Local::now();
        let time = before.format("%H:%M").to_string();
        let today = chrono::Datelike::weekday(&before).num_days_from_sunday() as u8;
        let other_days: Vec<u8> = (0u8..7).filter(|day| *day != today).collect();
        let mut store = ScheduleStore::new();
        assert_eq!(update_schedule(&mut store, schedule(true, &time, &other_days)), Ok(()));
        let silent = poll(&store);
        assert_eq!(update_schedule(&mut store, schedule(true, &time, &[today])), Ok(()));
        let fired = poll(&store);
        let after = chrono::Local::now();
        if after.format("%H:%M").to_string() != time
            || chrono::Datelike::weekday(&after) != chrono::Datelike::weekday(&before)
        {
            continue;
        }
        assert_eq!(silent, None);
        assert!(fired.is_some());
        return;
    }
    panic!("the clock crossed a minute boundary three times in a row");
}

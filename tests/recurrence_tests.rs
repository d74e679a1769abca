use mail_automation::clock::{hour_of_day, in_business_hours, weekday_from_monday};
use mail_automation::recurrence::{
    calculate_next_occurrence, get_next_occurrences, validate_cron_pattern, RecurrenceError,
    LATEST_INSTANT,
};
use mail_automation::scheduler::{
    complete_firing, FiringError, ItemStatus, ScheduledItem, SchedulerState, StartOutcome,
};

const JAN_31_2024: i64 = 1706659200;
const FEB_01_2024: i64 = 1706745600;
const NOW: i64 = 1760000000;
const DAY: i64 = 86400;

#[test]
fn test_simple_patterns() {
    let now = NOW;
    assert!(calculate_next_occurrence("daily", now, now).is_ok());
    assert!(calculate_next_occurrence("weekly", now, now).is_ok());
    assert!(calculate_next_occurrence("monthly", now, now).is_ok());
    assert!(calculate_next_occurrence("yearly", now, now).is_ok());
}

#[test]
fn test_next_occurrences() {
    let occurrences = get_next_occurrences("daily", 3, NOW).unwrap();
    assert_eq!(occurrences.len(), 3);
    for i in 1..occurrences.len() {
        let diff = occurrences[i] - occurrences[i - 1];
        assert_eq!(diff / DAY, 1);
    }
}

#[test]
fn daily_after_last_day_of_january() {
    assert_eq!(calculate_next_occurrence("daily", JAN_31_2024, NOW), Ok(FEB_01_2024));
}

#[test]
fn preset_offsets_are_fixed() {
    let t = JAN_31_2024;
    assert_eq!(calculate_next_occurrence("weekly", t, NOW), Ok(t + 7 * DAY));
    assert_eq!(calculate_next_occurrence("monthly", t, NOW), Ok(t + 30 * DAY));
    assert_eq!(calculate_next_occurrence("yearly", t, NOW), Ok(t + 365 * DAY));
}

#[test]
fn presets_strictly_increase_when_repeated() {
    for pattern in ["daily", "weekly", "monthly", "yearly"] {
        let mut t = JAN_31_2024;
        for _ in 0..5 {
            let n = calculate_next_occurrence(pattern, t, NOW).unwrap();
            assert!(n > t);
            t = n;
        }
    }
}

#[test]
fn preset_names_are_exact() {
    assert_eq!(calculate_next_occurrence("Daily", 0, NOW), Err(RecurrenceError::InvalidPattern));
    assert_eq!(calculate_next_occurrence("", 0, NOW), Err(RecurrenceError::InvalidPattern));
}

#[test]
fn preset_past_latest_instant_is_out_of_range() {
    assert_eq!(
        calculate_next_occurrence("daily", LATEST_INSTANT - 10, NOW),
        Err(RecurrenceError::OutOfRange)
    );
    assert_eq!(get_next_occurrences("yearly", 3, LATEST_INSTANT - 400 * DAY), Err(RecurrenceError::OutOfRange));
}

#[test]
fn calendar_expression_fires_after_now() {
    // Every day at 09:00:00.
    let next = calculate_next_occurrence("0 0 9 * * *", 0, JAN_31_2024).unwrap();
    assert_eq!(next, JAN_31_2024 + 9 * 3600);
    let list = get_next_occurrences("0 0 9 * * *", 3, JAN_31_2024).unwrap();
    assert!(list[0] > JAN_31_2024);
    assert_eq!(list, vec![JAN_31_2024 + 9 * 3600, FEB_01_2024 + 9 * 3600, FEB_01_2024 + DAY + 9 * 3600]);
}

#[test]
fn test_cron_validation() {
    assert!(validate_cron_pattern("0 0 9 * * MON-FRI"));
    assert!(validate_cron_pattern("@daily"));
    assert!(validate_cron_pattern("0 0 0 1 * *"));
    assert!(!validate_cron_pattern("0 0 1 * *"));
    assert!(!validate_cron_pattern("invalid pattern"));
    assert_eq!(
        calculate_next_occurrence("invalid pattern", 0, NOW),
        Err(RecurrenceError::InvalidPattern)
    );
    assert_eq!(get_next_occurrences("invalid pattern", 2, NOW), Err(RecurrenceError::InvalidPattern));
}

#[test]
fn calendar_expression_without_future_occurrence() {
    assert_eq!(
        calculate_next_occurrence("0 0 0 1 1 * 2020", 0, NOW),
        Err(RecurrenceError::NoUpcomingOccurrence)
    );
    assert_eq!(get_next_occurrences("0 0 0 1 1 * 2020", 2, NOW), Ok(vec![]));
}

#[test]
fn zero_occurrences_requested() {
    assert_eq!(get_next_occurrences("weekly", 0, NOW), Ok(vec![]));
}

#[test]
fn weekday_and_hour() {
    // 1970-01-01 was a Thursday.
    assert_eq!(weekday_from_monday(0), 4);
    // 2024-01-06 was a Saturday.
    assert_eq!(weekday_from_monday(1704499200 + 12 * 3600), 6);
    assert_eq!(hour_of_day(JAN_31_2024 + 17 * 3600 + 59), 17);
    // Before the epoch: 1969-12-31 23:00, a Wednesday.
    assert_eq!(weekday_from_monday(-3600), 3);
    assert_eq!(hour_of_day(-3600), 23);
    assert!(in_business_hours(JAN_31_2024 + 9 * 3600));
    assert!(in_business_hours(JAN_31_2024 + 16 * 3600 + 3599));
    assert!(!in_business_hours(JAN_31_2024 + 17 * 3600));
    // Monday 2024-01-08, 17:30.
    assert!(!in_business_hours(1704672000 + 17 * 3600 + 1800));
    assert!(!in_business_hours(JAN_31_2024 + 18 * 3600));
    assert!(!in_business_hours(JAN_31_2024 + 8 * 3600));
    assert!(!in_business_hours(1704499200 + 12 * 3600));
}

fn item(pattern: Option<&str>) -> ScheduledItem {
    ScheduledItem {
        id: 7,
        user_id: 3,
        template_id: Some(11),
        recipient_list: vec!["a@x.com".to_string(), "b@x.com".to_string()],
        scheduled_time: JAN_31_2024,
        recurrence_pattern: pattern.map(|p| p.to_string()),
        status: ItemStatus::Pending,
        created_at: JAN_31_2024 - DAY,
    }
}

#[test]
fn weekly_item_firing_schedules_one_more() {
    let it = item(Some("weekly"));
    let r = complete_firing(&it, &Ok(()), NOW);
    assert_eq!(r.status, ItemStatus::Sent);
    let next = r.next.expect("a next item");
    assert_eq!(next.scheduled_time, JAN_31_2024 + 7 * DAY);
    assert_eq!(next.user_id, 3);
    assert_eq!(next.template_id, Some(11));
    assert_eq!(next.recipient_list, it.recipient_list);
    assert_eq!(next.recurrence_pattern.as_deref(), Some("weekly"));
    // The fired item itself keeps its time.
    assert_eq!(it.scheduled_time, JAN_31_2024);
}

#[test]
fn failed_firing_is_terminal_without_next() {
    let it = item(Some("daily"));
    let r = complete_firing(&it, &Err(FiringError::Transport("refused".to_string())), NOW);
    assert_eq!(r.status, ItemStatus::Failed);
    assert!(r.next.is_none());
}

#[test]
fn one_shot_and_invalid_patterns_schedule_nothing() {
    let r = complete_firing(&item(None), &Ok(()), NOW);
    assert_eq!(r.status, ItemStatus::Sent);
    assert!(r.next.is_none());
    let r = complete_firing(&item(Some("fortnightly")), &Ok(()), NOW);
    assert_eq!(r.status, ItemStatus::Sent);
    assert!(r.next.is_none());
}

#[test]
fn starting_twice_spawns_one_poller() {
    let mut s = SchedulerState::new();
    let first = s.start();
    assert_eq!(first, StartOutcome::SpawnPoller { generation: 1 });
    assert_eq!(s.start(), StartOutcome::AlreadyRunning);
    assert!(s.should_poll(1));
    s.stop();
    assert!(!s.should_poll(1));
    // A restart before the old poller noticed: the old one still exits.
    assert_eq!(s.start(), StartOutcome::SpawnPoller { generation: 2 });
    assert!(!s.should_poll(1));
    assert!(s.should_poll(2));
}

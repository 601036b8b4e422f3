use bsds_core::dates::read_date_prefix;
use bsds_core::scheduler::{count_first, days_until_end, first_occurrences, DAILY_MEMBERSHIP_CRON, EXPIRY_REMINDER_DAYS};

fn day(text: &str) -> i32 {
    read_date_prefix(text).unwrap().unwrap()
}

#[test]
fn each_user_is_told_once() {
    let ids: Vec<String> = ["u1", "u2", "u1", "u3", "u2"].iter().map(|s| s.to_string()).collect();
    let flags = first_occurrences(&ids);
    assert_eq!(flags, vec![true, true, false, true, false]);
    assert_eq!(count_first(&flags), 3);
}

#[test]
fn no_users_no_flags() {
    let flags = first_occurrences(&Vec::new());
    assert!(flags.is_empty());
    assert_eq!(count_first(&flags), 0);
}

#[test]
fn days_left_until_membership_end() {
    let today = day("2026-03-16");
    assert_eq!(days_until_end("2026-03-31T00:00:00.000Z", today), EXPIRY_REMINDER_DAYS);
    assert_eq!(days_until_end("2026-03-16", today), 0);
    assert_eq!(days_until_end("2026-03-10", today), -6);
    assert_eq!(days_until_end("2027-03-16", today), 365);
}

#[test]
fn unreadable_end_date_counts_as_today() {
    let today = day("2026-03-16");
    assert_eq!(days_until_end("not a date", today), 0);
    assert_eq!(days_until_end("", today), 0);
}

#[test]
fn daily_run_schedule() {
    assert_eq!(DAILY_MEMBERSHIP_CRON, "0 5 2 * * *");
}

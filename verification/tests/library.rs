use birthday_notifier::config::{resolve_target, CsvSettings, DateFormat, NotifyTarget};
use birthday_notifier::datekey::get_date_str;
use birthday_notifier::dates::{compute_keys, date_plus_days, is_valid_ymd, today_utc};
use birthday_notifier::formatter::{birthday_prefix, slack_format, warning_prefix};
use birthday_notifier::matcher::{match_dates, BirthdayRow};
use birthday_notifier::plan::{plan_run, plan_today, plan_upcoming};

fn row(date: &str, tag: &str) -> BirthdayRow {
    BirthdayRow { date: date.to_string(), tag: tag.to_string() }
}

fn month_day_dash() -> CsvSettings {
    CsvSettings { date_separator: '-', date_format: DateFormat::MonthDay }
}

#[test]
fn date_key_month_day() {
    let key = get_date_str(3, 7, &month_day_dash());
    assert_eq!(key, "03-07");
}

#[test]
fn date_key_day_month() {
    let cfg = CsvSettings { date_separator: '-', date_format: DateFormat::DayMonth };
    let key = get_date_str(3, 7, &cfg);
    assert_eq!(key, "07-03");
}

#[test]
fn date_key_other_separator() {
    let cfg = CsvSettings { date_separator: '/', date_format: DateFormat::MonthDay };
    let key = get_date_str(12, 31, &cfg);
    assert_eq!(key, "12/31");
}

#[test]
fn rollover_dec_31_plus_one_is_jan_1() {
    let (today_key, warning_key) = compute_keys(2025, 12, 31, 1, &month_day_dash());
    assert_eq!(today_key, "12-31");
    assert_eq!(warning_key, "01-01");
}

#[test]
fn rollover_leap_year_feb() {
    let (m, d) = date_plus_days(2024, 2, 28, 1);
    assert_eq!((m, d), (2, 29));
    let (m, d) = date_plus_days(2025, 2, 28, 1);
    assert_eq!((m, d), (3, 1));
}

#[test]
fn today_is_a_valid_date() {
    let (y, m, d) = today_utc();
    assert!(is_valid_ymd(y, m, d));
}

#[test]
fn partition_groups_by_key() {
    let records = vec![
        row("03-07", "a"),
        row("03-10", "b"),
        row("05-01", "c"),
        row("03-07", "d"),
    ];
    let today = "03-07".to_string();
    let warning = "03-10".to_string();
    let (current, upcoming) = match_dates(records, &today, &warning);
    let current_tags: Vec<&str> = current.iter().map(|b| b.tag.as_str()).collect();
    let upcoming_tags: Vec<&str> = upcoming.iter().map(|b| b.tag.as_str()).collect();
    assert_eq!(current_tags, ["a", "d"]);
    assert_eq!(upcoming_tags, ["b"]);
}

#[test]
fn equal_keys_put_record_in_today_group_only() {
    let records = vec![row("03-07", "a"), row("03-07", "b")];
    let key = "03-07".to_string();
    let (current, upcoming) = match_dates(records, &key, &key);
    assert_eq!(current.len(), 2);
    assert!(upcoming.is_empty());
}

#[test]
fn matching_keeps_input_order() {
    let records = vec![
        row("01-01", "e"),
        row("01-01", "d"),
        row("02-02", "c"),
        row("01-01", "b"),
        row("02-02", "a"),
    ];
    let today = "01-01".to_string();
    let warning = "02-02".to_string();
    let (current, upcoming) = match_dates(records, &today, &warning);
    let current_tags: Vec<&str> = current.iter().map(|b| b.tag.as_str()).collect();
    let upcoming_tags: Vec<&str> = upcoming.iter().map(|b| b.tag.as_str()).collect();
    assert_eq!(current_tags, ["e", "d", "b"]);
    assert_eq!(upcoming_tags, ["c", "a"]);
}

#[test]
fn prefix_pluralization() {
    assert_eq!(birthday_prefix(1), "Happy birthday");
    assert_eq!(birthday_prefix(2), "Happy birthday to you both!");
    assert_eq!(birthday_prefix(5), "Happy birthday to you all!");
}

#[test]
fn warning_prefix_names_the_offset() {
    assert_eq!(warning_prefix(3), "Birthdays 3 days from now: ");
    assert_eq!(warning_prefix(14), "Birthdays 14 days from now: ");
    assert_eq!(warning_prefix(255), "Birthdays 255 days from now: ");
}

#[test]
fn format_single_tag() {
    let msg = slack_format(vec![row("x", "alice")], "Happy birthday");
    assert_eq!(msg, "Happy birthday<@alice>");
}

#[test]
fn format_joins_tags_with_comma() {
    let msg = slack_format(vec![row("x", "alice"), row("x", "bob")], "P");
    assert_eq!(msg, "P<@alice>, <@bob>");
    let msg = slack_format(vec![row("x", "a"), row("x", "b"), row("x", "c")], "P");
    assert_eq!(msg, "P<@a>, <@b>, <@c>");
}

#[test]
fn empty_groups_plan_nothing() {
    let today = plan_today(Vec::new(), NotifyTarget::Unconfigured);
    assert!(today.is_none());
    let upcoming = plan_upcoming(Vec::new(), 3, NotifyTarget::Unconfigured);
    assert!(upcoming.is_none());
}

#[test]
fn unconfigured_target_prints_but_never_sends() {
    let target = resolve_target(true, Some("https://hooks.example/x".to_string()), None);
    assert!(matches!(target, NotifyTarget::Unconfigured));
    let plan = plan_today(vec![row("03-07", "alice")], target).unwrap();
    assert_eq!(plan.text, "Happy birthday<@alice>");
    assert!(plan.send.is_none());
}

#[test]
fn disabled_target_is_unconfigured() {
    let target = resolve_target(
        false,
        Some("https://hooks.example/x".to_string()),
        Some("C123".to_string()),
    );
    assert!(matches!(target, NotifyTarget::Unconfigured));
}

#[test]
fn configured_target_carries_url_and_channel() {
    let target = resolve_target(
        true,
        Some("https://hooks.example/x".to_string()),
        Some("C123".to_string()),
    );
    let plan = plan_today(vec![row("03-07", "alice")], target).unwrap();
    let (url, channel) = plan.send.unwrap();
    assert_eq!(url, "https://hooks.example/x");
    assert_eq!(channel, "C123");
}

#[test]
fn end_to_end_run_plan() {
    let records = vec![row("03-07", "u1"), row("03-10", "u2")];
    let (today_plan, upcoming_plan) = plan_run(
        records,
        2025,
        3,
        7,
        3,
        &month_day_dash(),
        NotifyTarget::Unconfigured,
        NotifyTarget::Unconfigured,
    );
    let today_plan = today_plan.unwrap();
    let upcoming_plan = upcoming_plan.unwrap();
    assert_eq!(today_plan.text, "Happy birthday<@u1>");
    assert!(today_plan.send.is_none());
    assert_eq!(upcoming_plan.text, "Birthdays 3 days from now: <@u2>");
    assert!(upcoming_plan.send.is_none());
}

#[test]
fn run_plan_without_matches_is_empty() {
    let records = vec![row("06-06", "nobody")];
    let (today_plan, upcoming_plan) = plan_run(
        records,
        2025,
        3,
        7,
        3,
        &month_day_dash(),
        NotifyTarget::Unconfigured,
        NotifyTarget::Unconfigured,
    );
    assert!(today_plan.is_none());
    assert!(upcoming_plan.is_none());
}

#[test]
fn valid_ymd_checks_month_lengths() {
    assert!(is_valid_ymd(2024, 2, 29));
    assert!(!is_valid_ymd(2025, 2, 29));
    assert!(!is_valid_ymd(2025, 4, 31));
    assert!(is_valid_ymd(2025, 4, 30));
    assert!(!is_valid_ymd(2025, 13, 1));
    assert!(!is_valid_ymd(2025, 1, 0));
    assert!(!is_valid_ymd(0, 1, 1));
}

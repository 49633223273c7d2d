use hackernews_rs::age::{format_age, relative_age};

#[test]
fn age_under_a_minute_is_just_now() {
    assert_eq!(format_age(0), "just now");
    assert_eq!(format_age(59), "just now");
}

#[test]
fn age_of_one_minute() {
    assert_eq!(format_age(60), "1 min");
    assert_eq!(format_age(119), "1 min");
}

#[test]
fn age_in_minutes() {
    assert_eq!(format_age(120), "2 mins");
    assert_eq!(format_age(600), "10 mins");
    assert_eq!(format_age(3599), "59 mins");
}

#[test]
fn age_of_one_hour() {
    assert_eq!(format_age(3600), "1 hr");
    assert_eq!(format_age(7199), "1 hr");
}

#[test]
fn age_in_hours() {
    assert_eq!(format_age(7200), "2 hrs");
    assert_eq!(format_age(36000), "10 hrs");
    assert_eq!(format_age(86399), "23 hrs");
}

#[test]
fn age_of_one_day() {
    assert_eq!(format_age(86400), "1 day");
    assert_eq!(format_age(172799), "1 day");
}

#[test]
fn age_in_days() {
    assert_eq!(format_age(172800), "2 days");
    assert_eq!(format_age(86400 * 365), "365 days");
}

#[test]
fn age_of_the_largest_number_of_seconds() {
    // u64::MAX / 86400 days
    assert_eq!(format_age(u64::MAX), "213503982334601 days");
}

#[test]
fn relative_age_counts_from_creation_to_now() {
    assert_eq!(relative_age(1_000_000, 1_000_000), Some("just now".to_string()));
    assert_eq!(relative_age(1_000_000, 1_000_060), Some("1 min".to_string()));
    assert_eq!(relative_age(1_000_000, 1_003_599), Some("59 mins".to_string()));
    assert_eq!(relative_age(0, 172_800), Some("2 days".to_string()));
}

#[test]
fn relative_age_of_a_story_from_the_future_is_none() {
    assert_eq!(relative_age(1_000_001, 1_000_000), None);
    assert_eq!(relative_age(u64::MAX, 0), None);
}

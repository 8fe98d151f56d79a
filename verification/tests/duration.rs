use reaper::duration::{find_duration_matches, Duration};

#[test]
fn reads_each_unit() {
    let d = Duration::try_new("1y 2mo 3w 4d 5h 6m 7s".to_string()).unwrap();
    assert_eq!((d.years, d.months, d.weeks, d.days, d.hours, d.minutes, d.seconds), (1, 2, 3, 4, 5, 6, 7));
    assert_eq!(d.string, "1y 2mo 3w 4d 5h 6m 7s");
}

#[test]
fn later_units_win_and_blank_is_permanent() {
    let d = Duration::new("1h 2h".to_string());
    assert_eq!(d.hours, 2);
    assert!(!d.is_permanent());
    let p = Duration::new("forever".to_string());
    assert!(p.is_permanent());
}

#[test]
fn too_large_numbers_are_refused() {
    assert!(Duration::try_new("99999999999999999999999s".to_string()).is_none());
}

#[test]
fn timestamps_add_the_length() {
    let d = Duration::new("1h 30m".to_string());
    assert_eq!(d.to_unix_timestamp_from(1000), Some(1000 + 5400));
    let w = Duration::new("1w".to_string());
    assert_eq!(w.to_unix_timestamp_from(0), Some(604800));
    let y = Duration::new("1y 1mo".to_string());
    assert_eq!(y.to_unix_timestamp_from(10), Some(10 + 31536000 + 2592000));
}

#[test]
fn permanent_durations_give_zero() {
    let p = Duration::new("".to_string());
    assert_eq!(p.to_unix_timestamp_from(12345), Some(0));
    assert_eq!(p.to_unix_timestamp(), Some(0));
}

#[test]
fn timestamps_are_monotone_and_overflow_is_none() {
    let d = Duration::new("5s".to_string());
    assert!(d.to_unix_timestamp_from(10).unwrap() <= d.to_unix_timestamp_from(20).unwrap());
    assert_eq!(d.to_unix_timestamp_from(u64::MAX), None);
    let now = d.to_unix_timestamp().unwrap();
    assert!(now > 5);
}

#[test]
fn units_written_together_match_greedily() {
    // The pattern lets the text between the number and the unit run on, so
    // `1h30m` is one match: one minute.
    let d = Duration::new("1h30m".to_string());
    assert_eq!((d.hours, d.minutes), (0, 1));
}

#[test]
fn matches_are_leftmost_and_do_not_overlap() {
    let m = find_duration_matches("take 1h 2mo, then 30s");
    let got: Vec<(&str, &str)> = m.iter().map(|(a, b)| (a.as_str(), b.as_str())).collect();
    assert_eq!(got, vec![("1", "h"), ("2", "mo"), ("30", "s")]);
    // The unit is the last one before the next white space.
    let d = Duration::new("10days".to_string());
    assert_eq!((d.days, d.seconds), (0, 10));
    // `mo` wins over `m`, and the search goes on after the unit.
    let d = Duration::new("5mo3".to_string());
    assert_eq!((d.months, d.minutes), (5, 0));
}

#[test]
fn white_space_separates_number_and_unit() {
    assert!(Duration::new("2 h".to_string()).is_permanent());
    assert!(Duration::new("2\u{a0}h".to_string()).is_permanent());
    assert!(find_duration_matches("h 7").is_empty());
}

use text_editor::date::{Date, EPOCH_YEAR, SECONDS_IN_A_YEAR};

#[test]
fn a_year_has_365_days() {
    assert_eq!(SECONDS_IN_A_YEAR, 60 * 60 * 24 * 365);
    assert_eq!(EPOCH_YEAR, 1970);
}

#[test]
fn the_epoch_lies_in_1970() {
    assert_eq!(Date::from_secs(0).year(), 1970);
    assert_eq!(Date::from_secs(31_535_999).year(), 1970);
}

#[test]
fn the_year_turns_after_365_days() {
    assert_eq!(Date::from_secs(31_536_000).year(), 1971);
    assert_eq!(Date::from_secs(63_071_999).year(), 1971);
    assert_eq!(Date::from_secs(63_072_000).year(), 1972);
}

#[test]
fn years_are_counted_without_leap_days() {
    // 2023-11-14 22:13:20 UTC.
    assert_eq!(Date::from_secs(1_700_000_000).year(), 2023);
    // Thirteen leap days are missing by then, so 2024 begins on 2023-12-19.
    assert_eq!(Date::from_secs(1_702_943_999).year(), 2023);
    assert_eq!(Date::from_secs(1_702_944_000).year(), 2024);
    assert_eq!(Date::from_secs(1_704_067_200).year(), 2024);
}

#[test]
fn the_last_instant_has_a_year() {
    assert_eq!(Date::from_secs(u64::MAX).year(), 584_942_419_325);
}

#[test]
fn a_date_keeps_its_seconds() {
    assert_eq!(Date::from_secs(12_345).secs(), 12_345);
}

#[test]
fn the_year_never_runs_backwards() {
    let instants = [0u64, 1, 31_535_999, 31_536_000, 1_700_000_000, u64::MAX - 1, u64::MAX];
    for pair in instants.windows(2) {
        assert!(Date::from_secs(pair[0]).year() <= Date::from_secs(pair[1]).year());
    }
}

#[test]
fn the_clock_stands_after_the_epoch() {
    let now = Date::new().expect("the clock stands before 1970");
    assert_eq!(now.year(), 1970 + now.secs() / 31_536_000);
    assert!(now.year() >= 2023);
}

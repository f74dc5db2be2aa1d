use campus_life_events::newsletter::{
    build_newsletter_subject, compute_newsletter_ranges, in_next_week, ranges_of,
    start_of_day_utc, subject_of_week, NewsletterRanges, WEEK_MICROS,
};

const SECOND: i64 = 1_000_000;
// 2023-11-14T22:13:20Z, a Tuesday evening in Berlin.
const NOW: i64 = 1_700_000_000 * SECOND;
// Monday 2023-11-20 00:00 in Berlin.
const NEXT_MONDAY: i64 = 1_700_434_800 * SECOND;

#[test]
fn ranges_cover_the_two_weeks_after_this_one() {
    let ranges = compute_newsletter_ranges(NOW).unwrap();
    assert_eq!(ranges.next_week_start, NEXT_MONDAY);
    assert_eq!(ranges.week_after_start, NEXT_MONDAY + WEEK_MICROS);
    assert_eq!(ranges.week_after_end, NEXT_MONDAY + 2 * WEEK_MICROS);
}

#[test]
fn the_week_turns_at_midnight_in_berlin() {
    // One microsecond before Monday 2023-11-20 00:00 in Berlin is still Sunday there.
    assert_eq!(compute_newsletter_ranges(NEXT_MONDAY - 1).unwrap().next_week_start, NEXT_MONDAY);
    assert_eq!(
        compute_newsletter_ranges(NEXT_MONDAY).unwrap().next_week_start,
        NEXT_MONDAY + WEEK_MICROS
    );
    // Monday 2023-11-13 00:00 in Berlin.
    assert_eq!(
        compute_newsletter_ranges(NEXT_MONDAY - WEEK_MICROS).unwrap().next_week_start,
        NEXT_MONDAY
    );
}

#[test]
fn weeks_across_the_change_of_clocks_are_not_seven_times_24_hours() {
    // Friday 2024-03-22 12:00Z. The next Monday starts at 2024-03-24T23:00Z
    // (winter time), the one after at 2024-03-31T22:00Z (summer time).
    let ranges = compute_newsletter_ranges(1_711_108_800 * SECOND).unwrap();
    assert_eq!(ranges.next_week_start, 1_711_321_200 * SECOND);
    assert_eq!(ranges.week_after_start, 1_711_922_400 * SECOND);
    assert_eq!(ranges.week_after_start - ranges.next_week_start, WEEK_MICROS - 3_600 * SECOND);
    assert_eq!(ranges.week_after_end, ranges.week_after_start + WEEK_MICROS);
}

#[test]
fn no_ranges_beyond_the_calendar() {
    assert_eq!(compute_newsletter_ranges(i64::MAX), None);
    assert_eq!(compute_newsletter_ranges(i64::MIN), None);
    assert_eq!(ranges_of(None, Some(1)), None);
    assert_eq!(ranges_of(Some(1), None), None);
    assert_eq!(ranges_of(Some(1), Some(i64::MAX)), None);
    assert_eq!(
        ranges_of(Some(1), Some(i64::MAX - WEEK_MICROS)),
        Some(NewsletterRanges {
            next_week_start: 1,
            week_after_start: i64::MAX - WEEK_MICROS,
            week_after_end: i64::MAX,
        })
    );
}

#[test]
fn days_begin_at_midnight_in_berlin() {
    // Day 719163 is 1970-01-01, which begins at 1969-12-31T23:00Z in Berlin.
    assert_eq!(start_of_day_utc(719_163), Some(-3_600 * SECOND));
    // Day 738844 is 2023-11-20.
    assert_eq!(start_of_day_utc(738_844), Some(NEXT_MONDAY));
    assert_eq!(start_of_day_utc(i32::MAX), None);
    assert_eq!(start_of_day_utc(i32::MIN), None);
}

#[test]
fn subject_names_the_iso_week() {
    assert_eq!(
        build_newsletter_subject(NEXT_MONDAY).as_deref(),
        Some("THI Campus Live Events – Newsletter KW 47 2023")
    );
    // Monday 2024-12-30 belongs to week 1 of 2025.
    assert_eq!(
        build_newsletter_subject(1_735_513_200 * SECOND).as_deref(),
        Some("THI Campus Live Events – Newsletter KW 1 2025")
    );
    assert_eq!(build_newsletter_subject(i64::MAX), None);
    assert_eq!(subject_of_week(2026, 53), "THI Campus Live Events – Newsletter KW 53 2026");
    assert_eq!(subject_of_week(-1, 7), "THI Campus Live Events – Newsletter KW 7 -1");
}

#[test]
fn events_are_split_at_the_start_of_the_week_after() {
    let ranges = compute_newsletter_ranges(NOW).unwrap();
    assert!(in_next_week(ranges.next_week_start, &ranges));
    assert!(in_next_week(ranges.week_after_start - 1, &ranges));
    assert!(!in_next_week(ranges.week_after_start, &ranges));
    assert!(!in_next_week(ranges.week_after_end, &ranges));
}

#[test]
fn only_days_of_the_years_1_to_9999_have_a_start() {
    assert_eq!(start_of_day_utc(0), None);
    assert_eq!(start_of_day_utc(-1), None);
    assert!(start_of_day_utc(1).is_some());
    assert!(start_of_day_utc(3_652_059).is_some());
    assert_eq!(start_of_day_utc(3_652_060), None);
}

#[test]
fn no_ranges_at_the_edges_of_the_calendar() {
    // One microsecond before the year 0 and one after the year 9999.
    assert_eq!(compute_newsletter_ranges(-62_167_219_200_000_001), None);
    assert_eq!(compute_newsletter_ranges(253_402_300_800_000_000), None);
    // The weeks after the last instant of the year 9999 lie beyond it.
    assert_eq!(compute_newsletter_ranges(253_402_300_799_999_999), None);
    assert_eq!(build_newsletter_subject(253_402_300_800_000_000), None);
    assert_eq!(build_newsletter_subject(-62_167_219_200_000_001), None);
}

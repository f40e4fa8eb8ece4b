use scripture_retention_algorithm::{Frequency, Verse};

#[test]
fn new_verse_keeps_age_and_reference() {
    let verse = Verse::new(12, "Romans 8:28");
    assert_eq!(verse.weeks_in(), 12);
    assert_eq!(verse.reference(), "Romans 8:28");
}

#[test]
fn clone_is_the_same_verse() {
    let verse = Verse::new(-3, "Genesis 1:1");
    let copy = verse.clone();
    assert_eq!(copy.weeks_in(), -3);
    assert_eq!(copy.reference(), "Genesis 1:1");
}

#[test]
fn frequency_follows_the_age() {
    assert_eq!(Verse::new(-1, "a").frequency(), Frequency::NotStarted);
    assert_eq!(Verse::new(0, "a").frequency(), Frequency::Daily);
    assert_eq!(Verse::new(7, "a").frequency(), Frequency::Weekly);
    assert_eq!(Verse::new(35, "a").frequency(), Frequency::Monthly);
    assert_eq!(Verse::new(371, "a").frequency(), Frequency::Done);
}

#[test]
fn add_offset_changes_the_age_in_place() {
    let mut verse = Verse::new(5, "a");
    verse.add_offset(3);
    assert_eq!(verse.weeks_in(), 8);
    assert_eq!(verse.reference(), "a");
    verse.add_offset(-10);
    assert_eq!(verse.weeks_in(), -2);
}

#[test]
fn with_offset_leaves_the_verse_as_it_was() {
    let verse = Verse::new(5, "Psalm 1:1");
    let later = verse.with_offset(2);
    assert_eq!(later.weeks_in(), 7);
    assert_eq!(later.reference(), "Psalm 1:1");
    assert_eq!(verse.weeks_in(), 5);
    assert!(verse.is_daily());
    assert!(later.is_weekly());
}

#[test]
fn cadence_tests_agree_with_the_frequency() {
    let daily = Verse::new(6, "a");
    assert!(daily.is_daily() && !daily.is_weekly() && !daily.is_monthly());
    let weekly = Verse::new(34, "a");
    assert!(!weekly.is_daily() && weekly.is_weekly() && !weekly.is_monthly());
    let monthly = Verse::new(370, "a");
    assert!(!monthly.is_daily() && !monthly.is_weekly() && monthly.is_monthly());
    let done = Verse::new(371, "a");
    assert!(!done.is_daily() && !done.is_weekly() && !done.is_monthly());
    let waiting = Verse::new(-1, "a");
    assert!(!waiting.is_daily() && !waiting.is_weekly() && !waiting.is_monthly());
}

#[test]
fn frequency_after_some_weeks() {
    let verse = Verse::new(5, "a");
    assert_eq!(verse.frequency_after(0), Frequency::Daily);
    assert_eq!(verse.frequency_after(1), Frequency::Daily);
    assert_eq!(verse.frequency_after(2), Frequency::Weekly);
    assert_eq!(verse.frequency_after(30), Frequency::Monthly);
    assert_eq!(verse.frequency_after(366), Frequency::Done);
    assert_eq!(verse.frequency_after(-6), Frequency::NotStarted);
}

#[test]
fn frequency_after_beyond_the_range_of_ages() {
    assert_eq!(Verse::new(i64::MAX, "a").frequency_after(3), Frequency::Done);
    assert_eq!(Verse::new(i64::MAX, "a").frequency_after(i64::MAX), Frequency::Done);
    assert_eq!(Verse::new(i64::MIN, "a").frequency_after(-1), Frequency::NotStarted);
    assert_eq!(Verse::new(i64::MIN, "a").frequency_after(i64::MIN), Frequency::NotStarted);
    assert_eq!(Verse::new(i64::MAX, "a").frequency_after(i64::MIN), Frequency::NotStarted);
    assert_eq!(Verse::new(i64::MIN, "a").frequency_after(i64::MAX), Frequency::NotStarted);
}

#[test]
fn monthly_now_or_within_the_cycle() {
    // Weekly now, monthly two weeks from now.
    let turning = Verse::new(33, "a");
    assert!(!turning.will_be_monthly_this_month(0));
    assert!(!turning.will_be_monthly_this_month(1));
    assert!(turning.will_be_monthly_this_month(2));
    assert!(turning.will_be_monthly_this_month(3));
    // Monthly now, done three weeks from now: still counted.
    let leaving = Verse::new(369, "a");
    assert!(leaving.will_be_monthly_this_month(0));
    assert!(leaving.will_be_monthly_this_month(3));
    // Done already.
    assert!(!Verse::new(371, "a").will_be_monthly_this_month(3));
    // Far from monthly.
    assert!(!Verse::new(10, "a").will_be_monthly_this_month(3));
    assert!(!Verse::new(i64::MAX, "a").will_be_monthly_this_month(3));
}

#[test]
fn monthly_week_is_the_age_modulo_four() {
    assert!(Verse::new(36, "a").is_monthly_week(0));
    assert!(Verse::new(37, "a").is_monthly_week(1));
    assert!(Verse::new(38, "a").is_monthly_week(2));
    assert!(Verse::new(39, "a").is_monthly_week(3));
    assert!(!Verse::new(39, "a").is_monthly_week(0));
    assert!(!Verse::new(36, "a").is_monthly_week(4));
    // Not monthly: never, whatever the remainder.
    assert!(!Verse::new(8, "a").is_monthly_week(0));
    assert!(!Verse::new(-8, "a").is_monthly_week(0));
    assert!(!Verse::new(372, "a").is_monthly_week(0));
}

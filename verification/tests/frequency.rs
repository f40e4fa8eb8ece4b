use scripture_retention_algorithm::{Frequency, DAILY_WEEKS, MONTHLY_WEEKS, WEEKLY_WEEKS};

#[test]
fn classify_boundaries() {
    assert_eq!(Frequency::new(-1), Frequency::NotStarted);
    assert_eq!(Frequency::new(0), Frequency::Daily);
    assert_eq!(Frequency::new(6), Frequency::Daily);
    assert_eq!(Frequency::new(7), Frequency::Weekly);
    assert_eq!(Frequency::new(34), Frequency::Weekly);
    assert_eq!(Frequency::new(35), Frequency::Monthly);
    assert_eq!(Frequency::new(370), Frequency::Monthly);
    assert_eq!(Frequency::new(371), Frequency::Done);
}

#[test]
fn classify_every_age_of_each_range() {
    for weeks in -50..0 {
        assert_eq!(Frequency::new(weeks), Frequency::NotStarted);
    }
    for weeks in 0..=6 {
        assert_eq!(Frequency::new(weeks), Frequency::Daily);
    }
    for weeks in 7..=34 {
        assert_eq!(Frequency::new(weeks), Frequency::Weekly);
    }
    for weeks in 35..=370 {
        assert_eq!(Frequency::new(weeks), Frequency::Monthly);
    }
    for weeks in 371..1000 {
        assert_eq!(Frequency::new(weeks), Frequency::Done);
    }
}

#[test]
fn classify_extreme_ages() {
    assert_eq!(Frequency::new(i64::MIN), Frequency::NotStarted);
    assert_eq!(Frequency::new(i64::MAX), Frequency::Done);
}

#[test]
fn tier_lengths_are_the_named_constants() {
    assert_eq!(DAILY_WEEKS, 7);
    assert_eq!(WEEKLY_WEEKS, 28);
    assert_eq!(MONTHLY_WEEKS, 336);
    assert_eq!(Frequency::new(DAILY_WEEKS - 1), Frequency::Daily);
    assert_eq!(Frequency::new(DAILY_WEEKS), Frequency::Weekly);
    assert_eq!(Frequency::new(DAILY_WEEKS + WEEKLY_WEEKS), Frequency::Monthly);
    assert_eq!(Frequency::new(DAILY_WEEKS + WEEKLY_WEEKS + MONTHLY_WEEKS), Frequency::Done);
}

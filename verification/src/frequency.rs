//! The review cadence of a verse, decided by its age in whole weeks.

use vstd::prelude::*;

verus! {

/// Weeks during which a verse is reviewed every day.
pub const DAILY_WEEKS: i64 = 7;

/// Weeks, after the daily ones, during which a verse is reviewed once a week.
pub const WEEKLY_WEEKS: i64 = 28;

/// Weeks, after the weekly ones, during which a verse is reviewed once a cycle.
pub const MONTHLY_WEEKS: i64 = 336;

/// How often a verse is reviewed.
#[derive(PartialEq, Eq, Structural, Clone, Copy, Debug)]
pub enum Frequency {
    /// The verse has not been introduced yet.
    NotStarted,
    /// Reviewed every day.
    Daily,
    /// Reviewed on one day of every week.
    Weekly,
    /// Reviewed on one day of the four-week cycle.
    Monthly,
    /// The verse has left the schedule.
    Done,
}

/// The cadence of a verse that was introduced `age_weeks` whole weeks ago.
pub open spec fn classify(age_weeks: int) -> Frequency {
    if age_weeks < 0 {
        Frequency::NotStarted
    } else if age_weeks < DAILY_WEEKS {
        Frequency::Daily
    } else if age_weeks < DAILY_WEEKS + WEEKLY_WEEKS {
        Frequency::Weekly
    } else if age_weeks < DAILY_WEEKS + WEEKLY_WEEKS + MONTHLY_WEEKS {
        Frequency::Monthly
    } else {
        Frequency::Done
    }
}

impl Frequency {
    /// Classifies an age in whole weeks.
    pub fn new(weeks_in: i64) -> (tier: Frequency)
        ensures
            tier == classify(weeks_in as int),
            tier == Frequency::NotStarted <==> weeks_in < 0,
            tier == Frequency::Daily <==> 0 <= weeks_in <= 6,
            tier == Frequency::Weekly <==> 7 <= weeks_in <= 34,
            tier == Frequency::Monthly <==> 35 <= weeks_in <= 370,
            tier == Frequency::Done <==> 371 <= weeks_in,
    {
        if weeks_in < 0 {
            Frequency::NotStarted
        } else if weeks_in < DAILY_WEEKS {
            Frequency::Daily
        } else if weeks_in < DAILY_WEEKS + WEEKLY_WEEKS {
            Frequency::Weekly
        } else if weeks_in < DAILY_WEEKS + WEEKLY_WEEKS + MONTHLY_WEEKS {
            Frequency::Monthly
        } else {
            Frequency::Done
        }
    }
}

} // verus!

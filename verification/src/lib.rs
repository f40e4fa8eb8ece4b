//! A review schedule for memorised verses.
//!
//! Every verse is tied to the date on which it was first learnt. Its age in
//! whole weeks decides how often it is reviewed: every day at first, then once
//! a week, then once in a rotating cycle of four weeks. The library lays the
//! verses out over the seven days of each week of that cycle and answers what
//! is due on a given date.

pub mod date;
pub mod entry;
pub mod frequency;
pub mod input;
pub mod partition;
pub mod report;
pub mod schedule;
pub mod verse;

pub use date::{Date, DateError, FMT};
pub use entry::{RelativeVerseList, ScheduledVerses, VerseEntry, VerseList};
pub use frequency::{Frequency, DAILY_WEEKS, MONTHLY_WEEKS, WEEKLY_WEEKS};
pub use partition::split_into_n_parts;
pub use schedule::{
    VersesForADay, VersesForAMonth, VersesForAWeek, DAYS_PER_WEEK, WEEKS_PER_CYCLE,
};
pub use verse::Verse;

//! A verse together with its age in whole weeks on some reference date.

use crate::frequency::{classify, Frequency};
use vstd::prelude::*;
use vstd::string::StringExecFns;

verus! {

/// What a [`Verse`] stands for: the age in whole weeks, negative while the
/// verse has not been introduced, and the text of its reference.
pub struct VerseModel {
    pub weeks_in: int,
    pub reference: Seq<char>,
}

impl VerseModel {
    /// The cadence at which the verse is reviewed.
    pub open spec fn frequency(self) -> Frequency {
        classify(self.weeks_in)
    }

    /// The same verse, `weeks` weeks later.
    pub open spec fn with_offset(self, weeks: int) -> VerseModel {
        VerseModel { weeks_in: self.weeks_in + weeks, reference: self.reference }
    }

    /// Whether the verse is reviewed monthly now or will be `n` weeks from now.
    pub open spec fn will_be_monthly_this_month(self, n: int) -> bool {
        self.frequency() == Frequency::Monthly || self.with_offset(n).frequency()
            == Frequency::Monthly
    }

    /// Whether the verse is reviewed monthly and its age leaves `n` when divided by four.
    pub open spec fn is_monthly_week(self, n: int) -> bool {
        self.frequency() == Frequency::Monthly && self.weeks_in % 4 == n
    }
}

/// A verse and its age in whole weeks.
#[derive(Debug)]
pub struct Verse {
    weeks_in: i64,
    reference: String,
}

impl View for Verse {
    type V = VerseModel;

    closed spec fn view(&self) -> VerseModel {
        VerseModel { weeks_in: self.weeks_in as int, reference: self.reference@ }
    }
}

impl Clone for Verse {
    fn clone(&self) -> (copy: Verse)
        ensures
            copy == *self,
    {
        Verse { weeks_in: self.weeks_in, reference: self.reference.clone() }
    }
}

/// The models of a sequence of verses, in the same order.
pub open spec fn models(verses: Seq<Verse>) -> Seq<VerseModel> {
    verses.map_values(|verse: Verse| verse@)
}

impl Verse {
    /// A verse of the given age.
    pub fn new(weeks_in: i64, reference: &str) -> (verse: Verse)
        ensures
            verse@ == (VerseModel { weeks_in: weeks_in as int, reference: reference@ }),
    {
        Verse { weeks_in, reference: String::from_str(reference) }
    }

    /// The age in whole weeks.
    pub fn weeks_in(&self) -> (weeks: i64)
        ensures
            weeks == self@.weeks_in,
    {
        self.weeks_in
    }

    /// The text of the reference.
    pub fn reference(&self) -> (text: &str)
        ensures
            text@ == self@.reference,
    {
        self.reference.as_str()
    }

    /// The cadence at which the verse is reviewed.
    pub fn frequency(&self) -> (tier: Frequency)
        ensures
            tier == self@.frequency(),
    {
        Frequency::new(self.weeks_in)
    }

    /// Makes the verse `weeks` weeks older. The new age must be an age that
    /// a verse can hold.
    pub fn add_offset(&mut self, weeks: i64)
        requires
            i64::MIN <= old(self)@.weeks_in + weeks <= i64::MAX,
        ensures
            final(self)@ == old(self)@.with_offset(weeks as int),
    {
        self.weeks_in = self.weeks_in + weeks;
    }

    /// The same verse, `weeks` weeks older. The new age must be an age that a
    /// verse can hold.
    pub fn with_offset(&self, weeks: i64) -> (later: Verse)
        requires
            i64::MIN <= self@.weeks_in + weeks <= i64::MAX,
        ensures
            later@ == self@.with_offset(weeks as int),
    {
        let mut it = self.clone();
        it.weeks_in = it.weeks_in + weeks;
        it
    }

    /// Whether the verse is reviewed every day.
    pub fn is_daily(&self) -> (daily: bool)
        ensures
            daily == (self@.frequency() == Frequency::Daily),
    {
        self.frequency() == Frequency::Daily
    }

    /// Whether the verse is reviewed once a week.
    pub fn is_weekly(&self) -> (weekly: bool)
        ensures
            weekly == (self@.frequency() == Frequency::Weekly),
    {
        self.frequency() == Frequency::Weekly
    }

    /// Whether the verse is reviewed once in the four-week cycle.
    pub fn is_monthly(&self) -> (monthly: bool)
        ensures
            monthly == (self@.frequency() == Frequency::Monthly),
    {
        self.frequency() == Frequency::Monthly
    }

    /// The cadence that the verse will have `weeks` weeks from now.
    pub fn frequency_after(&self, weeks: i64) -> (tier: Frequency)
        ensures
            tier == self@.with_offset(weeks as int).frequency(),
    {
        match self.weeks_in.checked_add(weeks) {
            Some(later) => Frequency::new(later),
            None => if weeks < 0 {
                Frequency::NotStarted
            } else {
                Frequency::Done
            },
        }
    }

    /// Whether the verse is reviewed monthly now or will be `n` weeks from now.
    pub fn will_be_monthly_this_month(&self, n: i64) -> (monthly: bool)
        ensures
            monthly == self@.will_be_monthly_this_month(n as int),
    {
        self.is_monthly() || self.frequency_after(n) == Frequency::Monthly
    }

    /// Whether the verse is reviewed monthly and its age leaves `n` when divided by four.
    pub fn is_monthly_week(&self, n: i64) -> (this_week: bool)
        ensures
            this_week == self@.is_monthly_week(n as int),
    {
        self.is_monthly() && self.weeks_in % 4 == n
    }
}

} // verus!

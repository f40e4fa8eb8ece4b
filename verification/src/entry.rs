//! Verses by the date of their introduction, and the schedule that a list of
//! them gives on a reference date.

use crate::date::{parsed_day_number, weekday_of_day_number, weeks_between, Date, DateError, FMT};
use crate::frequency::{classify, Frequency};
use crate::schedule::{
    day_of, month_plan, DayModel, VersesForADay, VersesForAMonth, WEEKS_PER_CYCLE,
};
use crate::verse::{models, Verse, VerseModel};
use vstd::prelude::*;
use vstd::string::StringExecFns;

verus! {

/// What a [`VerseEntry`] stands for: the day number of the date on which the
/// verse was introduced, and the text of its reference.
pub struct EntryModel {
    pub date: int,
    pub reference: Seq<char>,
}

impl EntryModel {
    /// The verse as it stands on day `today`: its age is the number of whole
    /// weeks since its introduction, rounded down.
    pub open spec fn on(self, today: int) -> VerseModel {
        VerseModel { weeks_in: weeks_between(self.date, today), reference: self.reference }
    }
}

/// The verses of `entries` as they stand on day `today`, in the same order.
pub open spec fn aged(entries: Seq<EntryModel>, today: int) -> Seq<VerseModel> {
    entries.map_values(|entry: EntryModel| entry.on(today))
}

/// The week of the cycle that a list of verses is in. The first verse anchors
/// the cycle: its age modulo four is the week, and the week is 0 while that
/// verse has not been introduced or where there is no verse.
pub open spec fn week_offset(verses: Seq<VerseModel>) -> int {
    if verses.len() == 0 || verses[0].weeks_in < 0 {
        0
    } else {
        verses[0].weeks_in % (WEEKS_PER_CYCLE as int)
    }
}

/// A verse and the date on which it was introduced.
#[derive(Debug)]
pub struct VerseEntry {
    date: Date,
    reference: String,
}

impl View for VerseEntry {
    type V = EntryModel;

    closed spec fn view(&self) -> EntryModel {
        EntryModel { date: self.date@, reference: self.reference@ }
    }
}

/// The models of a sequence of entries, in the same order.
pub open spec fn entry_models(entries: Seq<VerseEntry>) -> Seq<EntryModel> {
    entries.map_values(|entry: VerseEntry| entry@)
}

impl VerseEntry {
    /// The verse `reference`, introduced on the date written in `date` in the
    /// format [`FMT`]; an error where `date` is no such date.
    pub fn new(date: &str, reference: &str) -> (entry: Result<VerseEntry, DateError>)
        ensures
            match entry {
                Ok(entry) => parsed_day_number(date@, FMT@) matches Ok(day_number) && day_number
                    == entry@.date && entry@.reference == reference@,
                Err(error) => parsed_day_number(date@, FMT@) matches Err(cause) && cause
                    == error@,
            },
    {
        match Date::parse(date) {
            Ok(date) => Ok(VerseEntry::introduced_on(date, reference)),
            Err(error) => Err(error),
        }
    }

    /// The verse `reference`, introduced on `date`.
    pub fn introduced_on(date: Date, reference: &str) -> (entry: VerseEntry)
        ensures
            entry@ == (EntryModel { date: date@, reference: reference@ }),
    {
        VerseEntry { date, reference: String::from_str(reference) }
    }

    /// The date on which the verse was introduced.
    pub fn date(&self) -> (date: Date)
        ensures
            date@ == self@.date,
    {
        self.date
    }

    /// The text of the reference.
    pub fn reference(&self) -> (text: &str)
        ensures
            text@ == self@.reference,
    {
        self.reference.as_str()
    }

    /// The age of the verse on `today` in whole weeks, rounded down; negative
    /// while the verse has not been introduced.
    pub fn weeks_in(&self, today: Date) -> (weeks: i64)
        ensures
            weeks == weeks_between(self@.date, today@),
            weeks == self@.on(today@).weeks_in,
    {
        today.weeks_since(self.date)
    }

    /// The cadence at which the verse is reviewed on `today`.
    pub fn frequency(&self, today: Date) -> (tier: Frequency)
        ensures
            tier == classify(weeks_between(self@.date, today@)),
            tier == self@.on(today@).frequency(),
    {
        Frequency::new(self.weeks_in(today))
    }

    /// The verse with its age on `today`.
    pub fn calculate_relative(&self, today: Date) -> (verse: Verse)
        ensures
            verse@ == self@.on(today@),
    {
        Verse::new(self.weeks_in(today), self.reference.as_str())
    }
}

/// The verses of `entries` with their ages on `today`, in the same order.
fn relative_to(entries: &Vec<VerseEntry>, today: Date) -> (verses: Vec<Verse>)
    ensures
        models(verses@) == aged(entry_models(entries@), today@),
{
    let mut verses: Vec<Verse> = Vec::with_capacity(entries.len());
    let mut i: usize = 0;
    while i < entries.len()
        invariant
            i <= entries.len(),
            verses.len() == i,
            forall|k: int| 0 <= k < i ==> (#[trigger] verses[k])@ == entries[k]@.on(today@),
        decreases entries.len() - i,
    {
        verses.push(entries[i].calculate_relative(today));
        i += 1;
    }
    verses
}

/// What a [`VerseList`] stands for: the day number of the reference date and
/// the entries, in order.
pub struct ListModel {
    pub today: int,
    pub references: Seq<EntryModel>,
}

/// A list of verses, each with the date of its introduction, and a reference date.
#[derive(Debug)]
pub struct VerseList {
    today: Date,
    references: Vec<VerseEntry>,
}

impl View for VerseList {
    type V = ListModel;

    closed spec fn view(&self) -> ListModel {
        ListModel { today: self.today@, references: entry_models(self.references@) }
    }
}

impl VerseList {
    /// The list `references` on the reference date written in `date` in the
    /// format [`FMT`]; an error where `date` is no such date.
    pub fn new(date: &str, references: Vec<VerseEntry>) -> (list: Result<VerseList, DateError>)
        ensures
            match list {
                Ok(list) => parsed_day_number(date@, FMT@) matches Ok(day_number) && day_number
                    == list@.today && list@.references == entry_models(references@),
                Err(error) => parsed_day_number(date@, FMT@) matches Err(cause) && cause
                    == error@,
            },
    {
        match Date::parse(date) {
            Ok(today) => Ok(VerseList::on_date(today, references)),
            Err(error) => Err(error),
        }
    }

    /// The list `references` on the reference date `today`.
    pub fn on_date(today: Date, references: Vec<VerseEntry>) -> (list: VerseList)
        ensures
            list@ == (ListModel { today: today@, references: entry_models(references@) }),
    {
        VerseList { today, references }
    }

    /// The verses of the list with their ages on the reference date, in order.
    pub fn relative_verses(&self) -> (verses: Vec<Verse>)
        ensures
            models(verses@) == aged(self@.references, self@.today),
    {
        relative_to(&self.references, self.today)
    }
}

/// A list of verses with their ages; it holds nothing yet.
pub struct RelativeVerseList {}

/// What a [`ScheduledVerses`] stands for: the day number of the reference
/// date and the verses with their ages on that date, in order.
pub struct ScheduleModel {
    pub date: int,
    pub verses: Seq<VerseModel>,
}

impl ScheduleModel {
    /// What is due on the reference date if that date is day `weekday` of the
    /// week, counted from Sunday as 0: the bucket of that day in the week of
    /// the cycle that the verses are in, and nothing where `weekday` is no day
    /// of the week.
    pub open spec fn for_weekday(self, weekday: int) -> DayModel {
        day_of(month_plan(self.verses), week_offset(self.verses), weekday)
    }

    /// What is due on the reference date: the bucket of its day of the week,
    /// and nothing where the date has no day of the week.
    pub open spec fn for_today(self) -> DayModel {
        match weekday_of_day_number(self.date) {
            Some(weekday) => self.for_weekday(weekday),
            None => DayModel::empty(),
        }
    }
}

/// The verses with their ages on a reference date, ready to be scheduled.
#[derive(Debug)]
pub struct ScheduledVerses {
    date: Date,
    verses: Vec<Verse>,
}

impl View for ScheduledVerses {
    type V = ScheduleModel;

    closed spec fn view(&self) -> ScheduleModel {
        ScheduleModel { date: self.date@, verses: models(self.verses@) }
    }
}

impl ScheduledVerses {
    /// The verses of `verses` with their ages on the reference date written in
    /// `date` in the format [`FMT`]; an error where `date` is no such date.
    pub fn new(date: &str, verses: &Vec<VerseEntry>) -> (scheduled: Result<
        ScheduledVerses,
        DateError,
    >)
        ensures
            match scheduled {
                Ok(scheduled) => parsed_day_number(date@, FMT@) matches Ok(day_number)
                    && day_number == scheduled@.date && scheduled@.verses == aged(
                    entry_models(verses@),
                    scheduled@.date,
                ),
                Err(error) => parsed_day_number(date@, FMT@) matches Err(cause) && cause
                    == error@,
            },
    {
        match Date::parse(date) {
            Ok(date) => Ok(ScheduledVerses::on_date(date, verses)),
            Err(error) => Err(error),
        }
    }

    /// The verses of `verses` with their ages on the reference date `date`.
    pub fn on_date(date: Date, verses: &Vec<VerseEntry>) -> (scheduled: ScheduledVerses)
        ensures
            scheduled@ == (ScheduleModel {
                date: date@,
                verses: aged(entry_models(verses@), date@),
            }),
    {
        ScheduledVerses { date, verses: relative_to(verses, date) }
    }

    /// The reference date.
    pub fn date(&self) -> (date: Date)
        ensures
            date@ == self@.date,
    {
        self.date
    }

    /// The verses with their ages on the reference date.
    pub fn verses(&self) -> (verses: &Vec<Verse>)
        ensures
            models(verses@) == self@.verses,
    {
        &self.verses
    }

    /// The plan of the four weeks of the cycle.
    pub fn monthly_schedule(&self) -> (month: VersesForAMonth)
        ensures
            month@ == month_plan(self@.verses),
    {
        VersesForAMonth::new(&self.verses)
    }

    /// The week of the cycle that the reference date falls in, from 0 to 3:
    /// the age of the first verse modulo four, and 0 while that verse has not
    /// been introduced or where there is no verse.
    pub fn current_week_offset(&self) -> (week: usize)
        ensures
            week == week_offset(self@.verses),
            week < WEEKS_PER_CYCLE,
            self@.verses.len() > 0 && self@.verses[0].weeks_in < 0 ==> week == 0,
    {
        if self.verses.len() == 0 {
            return 0;
        }
        let weeks_in = self.verses[0].weeks_in();
        if weeks_in < 0 {
            0
        } else {
            (weeks_in % 4) as usize
        }
    }

    /// What is due on the reference date if that date is day `weekday` of the
    /// week, counted from Sunday as 0.
    pub fn for_weekday(&self, weekday: usize) -> (bucket: VersesForADay)
        ensures
            bucket@ == self@.for_weekday(weekday as int),
    {
        let week = self.current_week_offset();
        let month = self.monthly_schedule();
        month.day(week, weekday)
    }

    /// What is due on the reference date.
    pub fn for_today(&self) -> (bucket: VersesForADay)
        ensures
            bucket@ == self@.for_today(),
    {
        match self.date.weekday() {
            Some(weekday) => self.for_weekday(weekday),
            None => VersesForADay::default(),
        }
    }
}

/// On a reference date before the introduction of every verse, the cycle is in
/// its week 0.
pub proof fn lemma_week_offset_before_start(entries: Seq<EntryModel>, today: int)
    requires
        forall|i: int| 0 <= i < entries.len() ==> today < (#[trigger] entries[i]).date,
    ensures
        week_offset(aged(entries, today)) == 0,
{
    if entries.len() > 0 {
    }
}

} // verus!

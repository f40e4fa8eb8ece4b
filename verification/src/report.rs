//! The plans as text: the list of what is due on a day, and the counts of a
//! whole cycle.

use crate::date::{parsed_day_number, DateError, FMT};
use crate::entry::{aged, entry_models, ScheduleModel, ScheduledVerses, VerseEntry};
use crate::schedule::{DayModel, VersesForADay, VersesForAMonth, VersesForAWeek};
use crate::verse::{models, Verse, VerseModel};
use itertools::Itertools;
use vstd::prelude::*;
use vstd::string::StringExecFns;

verus! {

/// Heading of the daily verses in the text of a day.
pub const DAILY_HEADING: &'static str = "### Daily: \n- ";

/// Heading of the weekly verses in the text of a day.
pub const WEEKLY_HEADING: &'static str = "### Weekly: \n- ";

/// Heading of the monthly verses in the text of a day.
pub const MONTHLY_HEADING: &'static str = "### Monthly: \n- ";

/// What stands between two verses of one list in the text of a day.
pub const ITEM_SEPARATOR: &'static str = "\n- ";

/// What stands between two lists in the text of a day.
pub const SECTION_SEPARATOR: &'static str = "\n\n";

/// What begins the report of a day, before the day as it was written.
pub const REPORT_HEADING: &'static str = "## ";

/// What ends the report of a day.
pub const REPORT_END: &'static str = "\n";

/// What stands between two monthly verses in the counts of a day.
pub const STATS_ITEM_SEPARATOR: &'static str = " + ";

/// What stands between two days in the counts of a week.
pub const STATS_DAY_SEPARATOR: &'static str = "\n";

/// What stands between two weeks in the counts of a cycle.
pub const STATS_WEEK_SEPARATOR: &'static str = "\n---\n";

/// The texts of `items`, in order, with `separator` between each two.
pub open spec fn joined(items: Seq<Seq<char>>, separator: Seq<char>) -> Seq<char>
    decreases items.len(),
{
    if items.len() == 0 {
        Seq::empty()
    } else if items.len() == 1 {
        items[0]
    } else {
        joined(items.drop_last(), separator) + separator + items.last()
    }
}

/// The contents of a sequence of strings, in the same order.
pub open spec fn texts(items: Seq<String>) -> Seq<Seq<char>> {
    items.map_values(|item: String| item@)
}

/// The references of a sequence of verses, in the same order.
pub open spec fn references(verses: Seq<VerseModel>) -> Seq<Seq<char>> {
    verses.map_values(|verse: VerseModel| verse.reference)
}

/// The decimal digit that stands for `value`, for a value below ten.
pub open spec fn digit(value: nat) -> char {
    if value == 0 {
        '0'
    } else if value == 1 {
        '1'
    } else if value == 2 {
        '2'
    } else if value == 3 {
        '3'
    } else if value == 4 {
        '4'
    } else if value == 5 {
        '5'
    } else if value == 6 {
        '6'
    } else if value == 7 {
        '7'
    } else if value == 8 {
        '8'
    } else {
        '9'
    }
}

/// The number `value` written in decimal digits, without leading zeros.
pub open spec fn decimal(value: nat) -> Seq<char>
    decreases value,
{
    if value < 10 {
        seq![digit(value)]
    } else {
        decimal(value / 10) + seq![digit(value % 10)]
    }
}

/// The text of a day: its daily, weekly and monthly verses under a heading
/// each, one reference to a line.
pub open spec fn day_text(day: DayModel) -> Seq<char> {
    DAILY_HEADING@ + joined(references(day.daily), ITEM_SEPARATOR@) + SECTION_SEPARATOR@
        + WEEKLY_HEADING@ + joined(references(day.weekly), ITEM_SEPARATOR@) + SECTION_SEPARATOR@
        + MONTHLY_HEADING@ + joined(references(day.monthly), ITEM_SEPARATOR@)
}

/// The report of a day: a heading with the day as it was written, and under
/// it the text of what is due.
pub open spec fn report_text(day: Seq<char>, due: DayModel) -> Seq<char> {
    REPORT_HEADING@ + day + SECTION_SEPARATOR@ + day_text(due) + REPORT_END@
}

/// The counts of a day: how many daily, weekly and monthly verses are due,
/// and on a second line the monthly ones.
pub open spec fn day_stats(day: DayModel) -> Seq<char> {
    "D: "@ + decimal(day.daily.len()) + " | W: "@ + decimal(day.weekly.len()) + " | M: "@
        + decimal(day.monthly.len()) + "\n"@ + joined(
        references(day.monthly),
        STATS_ITEM_SEPARATOR@,
    )
}

/// The counts of the days of a week, one after the other.
pub open spec fn week_stats(week: Seq<DayModel>) -> Seq<char> {
    joined(week.map_values(|day: DayModel| day_stats(day)), STATS_DAY_SEPARATOR@)
}

/// The counts of the weeks of a cycle, one after the other.
pub open spec fn month_stats(month: Seq<Seq<DayModel>>) -> Seq<char> {
    joined(month.map_values(|week: Seq<DayModel>| week_stats(week)), STATS_WEEK_SEPARATOR@)
}

/// Calls `itertools::Itertools::join` on the strings of `items`. Trusted: the
/// result holds the strings in order, each as it is, with `separator` between
/// each two, and is empty where there are none.
#[verifier::external_body]
fn join_strings(items: &Vec<String>, separator: &str) -> (text: String)
    ensures
        text@ == joined(texts(items@), separator@),
{
    items.iter().join(separator)
}

/// Copies of the references of `verses`, in order.
fn reference_texts(verses: &Vec<Verse>) -> (copies: Vec<String>)
    ensures
        texts(copies@) == references(models(verses@)),
{
    let mut copies: Vec<String> = Vec::with_capacity(verses.len());
    let mut i: usize = 0;
    while i < verses.len()
        invariant
            i <= verses.len(),
            copies.len() == i,
            forall|k: int| 0 <= k < i ==> (#[trigger] copies[k])@ == verses[k]@.reference,
        decreases verses.len() - i,
    {
        copies.push(String::from_str(verses[i].reference()));
        i += 1;
    }
    copies
}

/// The decimal digit for a value below ten, as a text of one character.
fn digit_text(value: usize) -> (text: &'static str)
    requires
        value < 10,
    ensures
        text@ == seq![digit(value as nat)],
{
    proof {
        reveal_strlit("0");
        reveal_strlit("1");
        reveal_strlit("2");
        reveal_strlit("3");
        reveal_strlit("4");
        reveal_strlit("5");
        reveal_strlit("6");
        reveal_strlit("7");
        reveal_strlit("8");
        reveal_strlit("9");
    }
    let text = if value == 0 {
        "0"
    } else if value == 1 {
        "1"
    } else if value == 2 {
        "2"
    } else if value == 3 {
        "3"
    } else if value == 4 {
        "4"
    } else if value == 5 {
        "5"
    } else if value == 6 {
        "6"
    } else if value == 7 {
        "7"
    } else if value == 8 {
        "8"
    } else {
        "9"
    };
    text
}

/// The number `value` in decimal digits.
pub fn decimal_text(value: usize) -> (text: String)
    ensures
        text@ == decimal(value as nat),
    decreases value,
{
    if value < 10 {
        String::from_str(digit_text(value))
    } else {
        let mut text = decimal_text(value / 10);
        text.append(digit_text(value % 10));
        text
    }
}

impl VersesForADay {
    /// The text of the day: the daily, weekly and monthly verses under a
    /// heading each, one reference to a line.
    pub fn data(&self) -> (text: String)
        ensures
            text@ == day_text(self@),
    {
        let daily = join_strings(&reference_texts(self.daily()), ITEM_SEPARATOR);
        let weekly = join_strings(&reference_texts(self.weekly()), ITEM_SEPARATOR);
        let monthly = join_strings(&reference_texts(self.monthly()), ITEM_SEPARATOR);
        let mut text = String::from_str(DAILY_HEADING);
        text.append(daily.as_str());
        text.append(SECTION_SEPARATOR);
        text.append(WEEKLY_HEADING);
        text.append(weekly.as_str());
        text.append(SECTION_SEPARATOR);
        text.append(MONTHLY_HEADING);
        text.append(monthly.as_str());
        text
    }

    /// The counts of the day: how many daily, weekly and monthly verses are
    /// due, and on a second line the monthly ones.
    pub fn stats(&self) -> (text: String)
        ensures
            text@ == day_stats(self@),
    {
        let monthly = join_strings(&reference_texts(self.monthly()), STATS_ITEM_SEPARATOR);
        let mut text = String::from_str("D: ");
        text.append(decimal_text(self.daily().len()).as_str());
        text.append(" | W: ");
        text.append(decimal_text(self.weekly().len()).as_str());
        text.append(" | M: ");
        text.append(decimal_text(self.monthly().len()).as_str());
        text.append("\n");
        text.append(monthly.as_str());
        text
    }
}

impl VersesForAWeek {
    /// The counts of the seven days, a day after the other.
    pub fn stats(&self) -> (text: String)
        ensures
            text@ == week_stats(self@),
    {
        let days = self.days();
        let mut lines: Vec<String> = Vec::with_capacity(days.len());
        let mut i: usize = 0;
        while i < days.len()
            invariant
                i <= days.len(),
                lines.len() == i,
                days@.map_values(|day: VersesForADay| day@) == self@,
                forall|k: int| 0 <= k < i ==> (#[trigger] lines[k])@ == day_stats(self@[k]),
            decreases days.len() - i,
        {
            lines.push(days[i].stats());
            i += 1;
        }
        assert(texts(lines@) =~= self@.map_values(|day: DayModel| day_stats(day)));
        join_strings(&lines, STATS_DAY_SEPARATOR)
    }
}

impl VersesForAMonth {
    /// The counts of every day of the cycle, a week after the other.
    pub fn stats(&self) -> (text: String)
        ensures
            text@ == month_stats(self@),
    {
        let weeks = self.weeks();
        let mut blocks: Vec<String> = Vec::with_capacity(weeks.len());
        let mut i: usize = 0;
        while i < weeks.len()
            invariant
                i <= weeks.len(),
                blocks.len() == i,
                weeks@.map_values(|week: VersesForAWeek| week@) == self@,
                forall|k: int| 0 <= k < i ==> (#[trigger] blocks[k])@ == week_stats(self@[k]),
            decreases weeks.len() - i,
        {
            blocks.push(weeks[i].stats());
            i += 1;
        }
        assert(texts(blocks@) =~= self@.map_values(|week: Seq<DayModel>| week_stats(week)));
        join_strings(&blocks, STATS_WEEK_SEPARATOR)
    }
}

/// The report of what is due of `verses` on the day written in `day` in the
/// format [`FMT`]; an error where `day` is no such date.
pub fn day_report(day: &str, verses: &Vec<VerseEntry>) -> (report: Result<String, DateError>)
    ensures
        match report {
            Ok(text) => parsed_day_number(day@, FMT@) matches Ok(date) && text@ == report_text(
                day@,
                (ScheduleModel { date, verses: aged(entry_models(verses@), date) }).for_today(),
            ),
            Err(error) => parsed_day_number(day@, FMT@) matches Err(cause) && cause == error@,
        },
{
    match ScheduledVerses::new(day, verses) {
        Ok(scheduled) => {
            let due = scheduled.for_today().data();
            let mut text = String::from_str(REPORT_HEADING);
            text.append(day);
            text.append(SECTION_SEPARATOR);
            text.append(due.as_str());
            text.append(REPORT_END);
            Ok(text)
        },
        Err(error) => Err(error),
    }
}

} // verus!

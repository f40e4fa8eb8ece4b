//! The review plan: what is due on each day of each week of the four-week cycle.

use crate::frequency::Frequency;
use crate::partition::{group_views, partition, split_into_n_parts};
use crate::verse::{models, Verse, VerseModel};
use vstd::prelude::*;

verus! {

/// Days in a week; a week's plan has one bucket for each, Sunday first.
pub const DAYS_PER_WEEK: usize = 7;

/// Weeks in the rotating cycle over which the monthly verses are spread.
pub const WEEKS_PER_CYCLE: usize = 4;

/// What a [`VersesForADay`] stands for: the verses due on one day, by cadence.
pub struct DayModel {
    pub daily: Seq<VerseModel>,
    pub weekly: Seq<VerseModel>,
    pub monthly: Seq<VerseModel>,
}

impl DayModel {
    /// The day on which nothing is due.
    pub open spec fn empty() -> DayModel {
        DayModel { daily: Seq::empty(), weekly: Seq::empty(), monthly: Seq::empty() }
    }
}

/// The verses that are reviewed every day, in the order of the input.
pub open spec fn daily_set(items: Seq<VerseModel>) -> Seq<VerseModel> {
    items.filter(|item: VerseModel| item.frequency() == Frequency::Daily)
}

/// The verses that are reviewed weekly once `cycle_week` more weeks have passed.
pub open spec fn weekly_set(items: Seq<VerseModel>, cycle_week: int) -> Seq<VerseModel> {
    items.filter(|item: VerseModel| item.with_offset(cycle_week).frequency() == Frequency::Weekly)
}

/// The verses that are reviewed monthly now or once `cycle_week` more weeks have passed.
pub open spec fn monthly_candidates(items: Seq<VerseModel>, cycle_week: int) -> Seq<VerseModel> {
    items.filter(|item: VerseModel| item.will_be_monthly_this_month(cycle_week))
}

/// The monthly verses of one week of the cycle. The candidates are cut into
/// four blocks of a quarter of their number, rounded down, and the week gets
/// the block of its own number; candidates beyond the fourth block belong to
/// no week.
pub open spec fn monthly_pool(items: Seq<VerseModel>, cycle_week: int) -> Seq<VerseModel> {
    let candidates = monthly_candidates(items, cycle_week);
    let bin = candidates.len() as int / WEEKS_PER_CYCLE as int;
    candidates.subrange(cycle_week * bin, cycle_week * bin + bin)
}

/// The seven days of week `cycle_week` of the cycle. Every day has all daily
/// verses; the weekly verses and the week's monthly pool are each split evenly
/// over the seven days.
pub open spec fn week_plan(items: Seq<VerseModel>, cycle_week: int) -> Seq<DayModel> {
    Seq::new(
        DAYS_PER_WEEK as nat,
        |day: int|
            DayModel {
                daily: daily_set(items),
                weekly: partition(weekly_set(items, cycle_week), DAYS_PER_WEEK as int)[day],
                monthly: partition(monthly_pool(items, cycle_week), DAYS_PER_WEEK as int)[day],
            },
    )
}

/// The four weeks of the cycle, in order.
pub open spec fn month_plan(items: Seq<VerseModel>) -> Seq<Seq<DayModel>> {
    Seq::new(WEEKS_PER_CYCLE as nat, |cycle_week: int| week_plan(items, cycle_week))
}

/// The bucket of day `weekday` in week `week` of a month's plan, or the empty
/// day where the plan has no such week or day.
pub open spec fn day_of(month: Seq<Seq<DayModel>>, week: int, weekday: int) -> DayModel {
    if 0 <= week < month.len() && 0 <= weekday < month[week].len() {
        month[week][weekday]
    } else {
        DayModel::empty()
    }
}

/// The weekly lists of the days of a week, Sunday first.
pub open spec fn weekly_lists(week: Seq<DayModel>) -> Seq<Seq<VerseModel>> {
    week.map_values(|day: DayModel| day.weekly)
}

/// The monthly lists of the days of a week, Sunday first.
pub open spec fn monthly_lists(week: Seq<DayModel>) -> Seq<Seq<VerseModel>> {
    week.map_values(|day: DayModel| day.monthly)
}

/// The verses due on one day.
#[derive(Debug)]
pub struct VersesForADay {
    daily: Vec<Verse>,
    weekly: Vec<Verse>,
    monthly: Vec<Verse>,
}

impl View for VersesForADay {
    type V = DayModel;

    closed spec fn view(&self) -> DayModel {
        DayModel {
            daily: models(self.daily@),
            weekly: models(self.weekly@),
            monthly: models(self.monthly@),
        }
    }
}

/// A copy of `verses` that holds the same verses in the same order.
fn clone_verses(verses: &Vec<Verse>) -> (copy: Vec<Verse>)
    ensures
        copy@ == verses@,
{
    let copy = verses.clone();
    copy
}

impl Clone for VersesForADay {
    fn clone(&self) -> (copy: VersesForADay)
        ensures
            copy@ == self@,
    {
        VersesForADay {
            daily: clone_verses(&self.daily),
            weekly: clone_verses(&self.weekly),
            monthly: clone_verses(&self.monthly),
        }
    }
}

impl Default for VersesForADay {
    fn default() -> (day: VersesForADay)
        ensures
            day@ == DayModel::empty(),
    {
        let day = VersesForADay { daily: Vec::new(), weekly: Vec::new(), monthly: Vec::new() };
        assert(day@.monthly =~= Seq::empty());
        day
    }
}

impl VersesForADay {
    /// The verses reviewed every day.
    pub fn daily(&self) -> (verses: &Vec<Verse>)
        ensures
            models(verses@) == self@.daily,
    {
        &self.daily
    }

    /// The weekly verses that fall on this day.
    pub fn weekly(&self) -> (verses: &Vec<Verse>)
        ensures
            models(verses@) == self@.weekly,
    {
        &self.weekly
    }

    /// The monthly verses that fall on this day.
    pub fn monthly(&self) -> (verses: &Vec<Verse>)
        ensures
            models(verses@) == self@.monthly,
    {
        &self.monthly
    }
}

/// Adding a verse at the end adds its model at the end.
proof fn lemma_models_push(verses: Seq<Verse>, i: int)
    requires
        0 <= i < verses.len(),
    ensures
        models(verses.take(i + 1)) == models(verses.take(i)).push(verses[i]@),
{
}

/// A verse at the end of the input is at the end of the daily verses, or not among them.
proof fn lemma_daily_set_push(items: Seq<VerseModel>, item: VerseModel)
    ensures
        daily_set(items.push(item)) == if item.frequency() == Frequency::Daily {
            daily_set(items).push(item)
        } else {
            daily_set(items)
        },
{
    items.lemma_filter_push(item, |item: VerseModel| item.frequency() == Frequency::Daily);
}

/// A verse at the end of the input is at the end of the weekly verses, or not among them.
proof fn lemma_weekly_set_push(items: Seq<VerseModel>, item: VerseModel, cycle_week: int)
    ensures
        weekly_set(items.push(item), cycle_week) == if item.with_offset(cycle_week).frequency()
            == Frequency::Weekly {
            weekly_set(items, cycle_week).push(item)
        } else {
            weekly_set(items, cycle_week)
        },
{
    items.lemma_filter_push(
        item,
        |item: VerseModel| item.with_offset(cycle_week).frequency() == Frequency::Weekly,
    );
}

/// A verse at the end of the input is at the end of the monthly candidates, or not among them.
proof fn lemma_monthly_candidates_push(items: Seq<VerseModel>, item: VerseModel, cycle_week: int)
    ensures
        monthly_candidates(items.push(item), cycle_week) == if item.will_be_monthly_this_month(
            cycle_week,
        ) {
            monthly_candidates(items, cycle_week).push(item)
        } else {
            monthly_candidates(items, cycle_week)
        },
{
    items.lemma_filter_push(item, |item: VerseModel| item.will_be_monthly_this_month(cycle_week));
}

/// Copies of the verses that are reviewed every day.
fn select_daily(verses: &Vec<Verse>) -> (chosen: Vec<Verse>)
    ensures
        models(chosen@) == daily_set(models(verses@)),
{
    let mut chosen: Vec<Verse> = Vec::new();
    let mut i: usize = 0;
    assert(daily_set(Seq::empty()) =~= Seq::empty()) by {
        reveal(Seq::filter);
    }
    while i < verses.len()
        invariant
            i <= verses.len(),
            models(chosen@) == daily_set(models(verses@.take(i as int))),
        decreases verses.len() - i,
    {
        proof {
            lemma_models_push(verses@, i as int);
            lemma_daily_set_push(models(verses@.take(i as int)), verses[i as int]@);
        }
        if verses[i].is_daily() {
            chosen.push(verses[i].clone());
        }
        i += 1;
    }
    assert(verses@.take(verses.len() as int) =~= verses@);
    chosen
}

/// Copies of the verses that are reviewed weekly `cycle_week` weeks from now.
fn select_weekly(verses: &Vec<Verse>, cycle_week: i64) -> (chosen: Vec<Verse>)
    ensures
        models(chosen@) == weekly_set(models(verses@), cycle_week as int),
{
    let mut chosen: Vec<Verse> = Vec::new();
    let mut i: usize = 0;
    assert(weekly_set(Seq::empty(), cycle_week as int) =~= Seq::empty()) by {
        reveal(Seq::filter);
    }
    while i < verses.len()
        invariant
            i <= verses.len(),
            models(chosen@) == weekly_set(models(verses@.take(i as int)), cycle_week as int),
        decreases verses.len() - i,
    {
        proof {
            lemma_models_push(verses@, i as int);
            lemma_weekly_set_push(
                models(verses@.take(i as int)),
                verses[i as int]@,
                cycle_week as int,
            );
        }
        if verses[i].frequency_after(cycle_week) == Frequency::Weekly {
            chosen.push(verses[i].clone());
        }
        i += 1;
    }
    assert(verses@.take(verses.len() as int) =~= verses@);
    chosen
}

/// Copies of the verses that are reviewed monthly now or `cycle_week` weeks from now.
fn select_monthly(verses: &Vec<Verse>, cycle_week: i64) -> (chosen: Vec<Verse>)
    ensures
        models(chosen@) == monthly_candidates(models(verses@), cycle_week as int),
{
    let mut chosen: Vec<Verse> = Vec::new();
    let mut i: usize = 0;
    assert(monthly_candidates(Seq::empty(), cycle_week as int) =~= Seq::empty()) by {
        reveal(Seq::filter);
    }
    while i < verses.len()
        invariant
            i <= verses.len(),
            models(chosen@) == monthly_candidates(
                models(verses@.take(i as int)),
                cycle_week as int,
            ),
        decreases verses.len() - i,
    {
        proof {
            lemma_models_push(verses@, i as int);
            lemma_monthly_candidates_push(
                models(verses@.take(i as int)),
                verses[i as int]@,
                cycle_week as int,
            );
        }
        if verses[i].will_be_monthly_this_month(cycle_week) {
            chosen.push(verses[i].clone());
        }
        i += 1;
    }
    assert(verses@.take(verses.len() as int) =~= verses@);
    chosen
}

/// The plan of one week of the cycle: a bucket for each day, Sunday first.
#[derive(Debug)]
pub struct VersesForAWeek {
    days: Vec<VersesForADay>,
}

impl View for VersesForAWeek {
    type V = Seq<DayModel>;

    closed spec fn view(&self) -> Seq<DayModel> {
        self.days@.map_values(|day: VersesForADay| day@)
    }
}

impl VersesForAWeek {
    /// Plans week `n` of the cycle, `n` from 0 to 3. Every day gets all verses
    /// that are daily now. The verses that are weekly `n` weeks from now are
    /// split evenly over the seven days, and so is the week's share of the
    /// verses that are monthly now or `n` weeks from now.
    pub fn new(verses: &Vec<Verse>, n: i64) -> (week: VersesForAWeek)
        requires
            0 <= n < WEEKS_PER_CYCLE,
        ensures
            week@ == week_plan(models(verses@), n as int),
            week@.len() == DAYS_PER_WEEK,
            forall|day: int|
                0 <= day < DAYS_PER_WEEK ==> (#[trigger] week@[day]).daily == daily_set(
                    models(verses@),
                ),
            forall|first: int, second: int|
                0 <= first < DAYS_PER_WEEK && 0 <= second < DAYS_PER_WEEK ==> (
                #[trigger] week@[first]).daily == (#[trigger] week@[second]).daily,
            weekly_lists(week@).flatten() == weekly_set(models(verses@), n as int),
            monthly_lists(week@).flatten() == monthly_pool(models(verses@), n as int),
    {
        let ghost items = models(verses@);
        let daily = select_daily(verses);
        let weekly = select_weekly(verses, n);
        let mut monthly = select_monthly(verses, n);

        let bin = monthly.len() / WEEKS_PER_CYCLE;
        assert(n * bin + bin <= monthly.len()) by (nonlinear_arith)
            requires
                0 <= n <= 3,
                bin == monthly.len() / 4,
                0 <= monthly.len(),
        ;
        let mut monthly = monthly.split_off(n as usize * bin);
        monthly.truncate(bin);
        assert(models(monthly@) == monthly_pool(items, n as int));

        let ghost weekly_items = weekly@;
        let ghost monthly_items = monthly@;
        let mut weekly = split_into_n_parts(weekly, DAYS_PER_WEEK);
        let mut monthly = split_into_n_parts(monthly, DAYS_PER_WEEK);
        let ghost weekly_groups = group_views(weekly@);
        let ghost monthly_groups = group_views(monthly@);

        let mut days: Vec<VersesForADay> = Vec::with_capacity(DAYS_PER_WEEK);
        let mut day: usize = 0;
        while day < DAYS_PER_WEEK
            invariant
                day <= DAYS_PER_WEEK,
                weekly.len() == DAYS_PER_WEEK,
                monthly.len() == DAYS_PER_WEEK,
                days.len() == day,
                models(daily@) == daily_set(items),
                weekly_groups.len() == DAYS_PER_WEEK,
                monthly_groups.len() == DAYS_PER_WEEK,
                forall|later: int|
                    day <= later < DAYS_PER_WEEK ==> (#[trigger] weekly[later])@
                        == weekly_groups[later],
                forall|later: int|
                    day <= later < DAYS_PER_WEEK ==> (#[trigger] monthly[later])@
                        == monthly_groups[later],
                forall|earlier: int|
                    0 <= earlier < day ==> (#[trigger] days[earlier])@ == (DayModel {
                        daily: daily_set(items),
                        weekly: models(weekly_groups[earlier]),
                        monthly: models(monthly_groups[earlier]),
                    }),
            decreases DAYS_PER_WEEK - day,
        {
            let mut weekly_share: Vec<Verse> = Vec::new();
            let mut monthly_share: Vec<Verse> = Vec::new();
            weekly.set_and_swap(day, &mut weekly_share);
            monthly.set_and_swap(day, &mut monthly_share);
            days.push(
                VersesForADay {
                    daily: clone_verses(&daily),
                    weekly: weekly_share,
                    monthly: monthly_share,
                },
            );
            day += 1;
        }

        let week = VersesForAWeek { days };
        proof {
            lemma_partition_models(weekly_items, DAYS_PER_WEEK as int);
            lemma_partition_models(monthly_items, DAYS_PER_WEEK as int);
            assert(week@ =~= week_plan(items, n as int));
            lemma_week_plan_lists(items, n as int);
        }
        week
    }

    /// The buckets of the seven days, Sunday first.
    pub fn days(&self) -> (days: &Vec<VersesForADay>)
        ensures
            days@.map_values(|day: VersesForADay| day@) == self@,
    {
        &self.days
    }
}

/// The groups of a partition of verses stand for the groups of the partition of their models.
proof fn lemma_partition_models(verses: Seq<Verse>, n: int)
    requires
        0 < n,
    ensures
        forall|i: int|
            0 <= i < n ==> models(#[trigger] partition(verses, n)[i]) == partition(
                models(verses),
                n,
            )[i],
{
    assert forall|i: int| 0 <= i < n implies models(#[trigger] partition(verses, n)[i])
        == partition(models(verses), n)[i] by {
        crate::partition::lemma_group_bounds(verses.len() as int, n, i);
    }
}

/// In a week's plan every day has the same daily verses, and the days' weekly
/// and monthly lists, joined in order, are the week's weekly verses and its
/// monthly pool: each of those falls on one day and on no other.
pub proof fn lemma_week_plan_lists(items: Seq<VerseModel>, cycle_week: int)
    ensures
        week_plan(items, cycle_week).len() == DAYS_PER_WEEK,
        forall|day: int|
            0 <= day < DAYS_PER_WEEK ==> (#[trigger] week_plan(items, cycle_week)[day]).daily
                == daily_set(items),
        weekly_lists(week_plan(items, cycle_week)).flatten() == weekly_set(items, cycle_week),
        weekly_lists(week_plan(items, cycle_week)).flatten().to_multiset() == weekly_set(
            items,
            cycle_week,
        ).to_multiset(),
        monthly_lists(week_plan(items, cycle_week)).flatten() == monthly_pool(items, cycle_week),
{
    let week = week_plan(items, cycle_week);
    let weekly = weekly_set(items, cycle_week);
    let monthly = monthly_pool(items, cycle_week);
    assert(weekly_lists(week) =~= partition(weekly, DAYS_PER_WEEK as int));
    assert(monthly_lists(week) =~= partition(monthly, DAYS_PER_WEEK as int));
    crate::partition::lemma_partition_concat(weekly, DAYS_PER_WEEK as int);
    crate::partition::lemma_partition_concat(monthly, DAYS_PER_WEEK as int);
}

/// In the plan of the cycle, the weekly lists of the seven days of a week,
/// joined in order, are the verses that are weekly in that week, each once and
/// none besides; the monthly lists are the week's monthly pool in the same way.
pub proof fn lemma_month_plan_lists(items: Seq<VerseModel>, cycle_week: int)
    requires
        0 <= cycle_week < WEEKS_PER_CYCLE,
    ensures
        month_plan(items)[cycle_week] == week_plan(items, cycle_week),
        weekly_lists(month_plan(items)[cycle_week]).flatten() == weekly_set(items, cycle_week),
        weekly_lists(month_plan(items)[cycle_week]).flatten().to_multiset() == weekly_set(
            items,
            cycle_week,
        ).to_multiset(),
        monthly_lists(month_plan(items)[cycle_week]).flatten() == monthly_pool(items, cycle_week),
{
    lemma_week_plan_lists(items, cycle_week);
}

/// The plan of the whole cycle: its four weeks, in order.
#[derive(Debug)]
pub struct VersesForAMonth {
    weeks: Vec<VersesForAWeek>,
}

impl View for VersesForAMonth {
    type V = Seq<Seq<DayModel>>;

    closed spec fn view(&self) -> Seq<Seq<DayModel>> {
        self.weeks@.map_values(|week: VersesForAWeek| week@)
    }
}

impl VersesForAMonth {
    /// Plans the four weeks of the cycle, week 0 first.
    pub fn new(verses: &Vec<Verse>) -> (month: VersesForAMonth)
        ensures
            month@ == month_plan(models(verses@)),
            month@.len() == WEEKS_PER_CYCLE,
            forall|week: int|
                0 <= week < WEEKS_PER_CYCLE ==> #[trigger] month@[week] == week_plan(
                    models(verses@),
                    week,
                ),
    {
        let mut weeks: Vec<VersesForAWeek> = Vec::with_capacity(WEEKS_PER_CYCLE);
        let mut n: i64 = 0;
        while n < 4
            invariant
                0 <= n <= 4,
                weeks.len() == n,
                forall|week: int|
                    0 <= week < n ==> (#[trigger] weeks[week])@ == week_plan(
                        models(verses@),
                        week,
                    ),
            decreases 4 - n,
        {
            weeks.push(VersesForAWeek::new(verses, n));
            n += 1;
        }
        let month = VersesForAMonth { weeks };
        month
    }

    /// The plans of the four weeks, week 0 first.
    pub fn weeks(&self) -> (weeks: &Vec<VersesForAWeek>)
        ensures
            weeks@.map_values(|week: VersesForAWeek| week@) == self@,
    {
        &self.weeks
    }

    /// A copy of the bucket of day `weekday`, counted from Sunday as 0, in
    /// week `week` of the cycle; the empty bucket where there is no such week
    /// or day.
    pub fn day(&self, week: usize, weekday: usize) -> (bucket: VersesForADay)
        ensures
            bucket@ == day_of(self@, week as int, weekday as int),
    {
        if week < self.weeks.len() {
            let days = &self.weeks[week].days;
            if weekday < days.len() {
                return days[weekday].clone();
            }
        }
        VersesForADay::default()
    }
}

} // verus!

//! Weekly partitions of the event tables.
//!
//! The events and the embedded dynamic forms are exported in partitions of
//! one calendar week of a month: week `w` of a month holds the days
//! `7w - 6 ..= min(7w, last day)`. A run exports the current week and the one
//! before it; in the first week of a month that is the fourth (fifth, for a
//! leap February) week of the previous month, and in the first week of
//! January the previous year is run too.
use crate::calendar::{
    days_in_month, is_leap, is_leap_year, month_length, valid_ymd, CalendarDate, Timestamp, MAX_YEAR,
    MIN_YEAR,
};
use crate::text::{
    decimal, lemma_numbered_name_injective, push_decimal, push_signed_decimal, signed_decimal,
    to_text,
};
use vstd::prelude::*;
use vstd::string::*;

verus! {

/// The tables exported in weekly partitions.
#[derive(Clone, Copy, Debug, PartialEq, Eq, Structural)]
pub enum PartitionedTable {
    Events,
    EmbeddedDynamicForms,
}

/// One week of a month to export.
pub struct WeeklyPartition {
    pub year: i32,
    pub month: u32,
    pub week: u32,
    /// First day of the week.
    pub first_day: CalendarDate,
    /// Last day of the week, at most the last day of the month.
    pub last_day: CalendarDate,
    /// Start of the exported window: `first_day` at 00:00:00.
    pub window_start: Timestamp,
    /// End of the exported window: `last_day` at 23:59:59.999999999.
    pub window_end: Timestamp,
    /// The parquet file that the partition is written to.
    pub path: String,
}

/// The week (1 to 5) of a month that a day (1 to 31) lies in.
pub open spec fn day_module(day: int) -> int {
    if day % 7 != 0 {
        day / 7 + 1
    } else {
        day / 7
    }
}

/// The years of a run on `today`.
pub open spec fn plan_years(today: CalendarDate) -> Seq<int> {
    if today.month == 1 && today.day < 8 {
        seq![today.year - 1, today.year as int]
    } else {
        seq![today.year as int]
    }
}

/// The months of a run on `today`.
pub open spec fn plan_months(today: CalendarDate) -> Seq<int> {
    if today.month == 1 && today.day < 8 {
        seq![12, today.month as int]
    } else if day_module(today.day as int) == 1 && today.month != 1 {
        seq![today.month - 1, today.month as int]
    } else {
        seq![today.month as int]
    }
}

/// The weeks of a run on `today`.
pub open spec fn plan_weeks(today: CalendarDate) -> Seq<int> {
    let dm = day_module(today.day as int);
    if dm == 1 {
        if today.month == 3 && is_leap(today.year as int) {
            seq![5, 1]
        } else {
            seq![4, 1]
        }
    } else {
        seq![dm - 1, dm]
    }
}

/// The weeks that a table does not export: the fifth week of a February that
/// has 28 days (for the events, only in the current year).
pub open spec fn skipped(table: PartitionedTable, today: CalendarDate, year: int, month: int, week: int) -> bool {
    match table {
        PartitionedTable::Events => year == today.year && month == 2 && month_length(year, month)
            == 28 && week == 5,
        PartitionedTable::EmbeddedDynamicForms => !is_leap(year) && month == 2 && week == 5,
    }
}

/// The key of a partition: year, month and week.
pub struct PartitionKey {
    pub year: int,
    pub month: int,
    pub week: int,
}

pub open spec fn week_entries(table: PartitionedTable, today: CalendarDate, year: int, month: int, weeks: Seq<int>) -> Seq<PartitionKey>
    decreases weeks.len(),
{
    if weeks.len() == 0 {
        seq![]
    } else {
        let prev = week_entries(table, today, year, month, weeks.drop_last());
        if skipped(table, today, year, month, weeks.last()) {
            prev
        } else {
            prev.push(PartitionKey { year, month, week: weeks.last() })
        }
    }
}

pub open spec fn month_entries(table: PartitionedTable, today: CalendarDate, year: int, months: Seq<int>, weeks: Seq<int>) -> Seq<PartitionKey>
    decreases months.len(),
{
    if months.len() == 0 {
        seq![]
    } else {
        month_entries(table, today, year, months.drop_last(), weeks) + if months.last() == 0 {
            Seq::<PartitionKey>::empty()
        } else {
            week_entries(table, today, year, months.last(), weeks)
        }
    }
}

pub open spec fn year_entries(table: PartitionedTable, today: CalendarDate, years: Seq<int>, months: Seq<int>, weeks: Seq<int>) -> Seq<PartitionKey>
    decreases years.len(),
{
    if years.len() == 0 {
        seq![]
    } else {
        year_entries(table, today, years.drop_last(), months, weeks) + month_entries(
            table,
            today,
            years.last(),
            months,
            weeks,
        )
    }
}

/// The partitions of a run on `today`: for each year, each month and each
/// week of the run in this order, the ones that are not skipped.
pub open spec fn planned_keys(table: PartitionedTable, today: CalendarDate) -> Seq<PartitionKey> {
    year_entries(table, today, plan_years(today), plan_months(today), plan_weeks(today))
}

/// The first day of week `week`.
pub open spec fn week_first_day(week: int) -> int {
    if week == 1 {
        1
    } else {
        (week - 1) * 7 + 1
    }
}

/// The last day of week `week` of a month of `last_day` days.
pub open spec fn week_last_day(week: int, last_day: int) -> int {
    if week * 7 < last_day {
        week * 7
    } else {
        last_day
    }
}

/// The file name prefix of a table's partitions.
pub open spec fn path_prefix(table: PartitionedTable) -> Seq<char> {
    match table {
        PartitionedTable::Events => "/tmp/events_partitions-"@,
        PartitionedTable::EmbeddedDynamicForms => "/tmp/embedded_dynamic_forms_partitions-"@,
    }
}

/// `<prefix><year>-<month>-<week>.parquet`
pub open spec fn partition_path(table: PartitionedTable, year: int, month: int, week: int) -> Seq<char> {
    path_prefix(table) + signed_decimal(year) + "-"@ + decimal(month as nat) + "-"@ + decimal(
        week as nat,
    ) + ".parquet"@
}

/// `p` is the partition with key `k`.
pub open spec fn is_partition(table: PartitionedTable, p: WeeklyPartition, k: PartitionKey) -> bool {
    let last = month_length(k.year, k.month);
    &&& p.year == k.year
    &&& p.month == k.month
    &&& p.week == k.week
    &&& p.first_day == CalendarDate {
        year: p.year,
        month: p.month,
        day: week_first_day(k.week) as u32,
    }
    &&& p.last_day == CalendarDate {
        year: p.year,
        month: p.month,
        day: week_last_day(k.week, last) as u32,
    }
    &&& p.first_day.wf()
    &&& p.last_day.wf()
    &&& p.window_start == Timestamp::start_of_day(p.first_day)
    &&& p.window_end == Timestamp::end_of_day(p.last_day)
    &&& p.path@ == partition_path(table, k.year, k.month, k.week)
}

/// The runs whose years `chrono` represents: not the first week of January of
/// the smallest representable year.
pub open spec fn plannable(today: CalendarDate) -> bool {
    today.wf() && (today.year > MIN_YEAR || !(today.month == 1 && today.day < 8))
}

proof fn lemma_plan_shapes(today: CalendarDate)
    requires
        plannable(today),
    ensures
        forall|i: int| 0 <= i < plan_years(today).len() ==> MIN_YEAR <= #[trigger] plan_years(today)[i] <= MAX_YEAR,
        forall|i: int| 0 <= i < plan_months(today).len() ==> 1 <= #[trigger] plan_months(today)[i] <= 12,
        forall|i: int| 0 <= i < plan_weeks(today).len() ==> 1 <= #[trigger] plan_weeks(today)[i] <= 5,
        plan_weeks(today).len() == 2,
        1 <= plan_years(today).len() <= 2,
        1 <= plan_months(today).len() <= 2,
{
    let d = today.day as int;
    assert(1 <= day_module(d) <= 5);
}

/// The dates of every planned week exist.
proof fn lemma_week_dates_valid(table: PartitionedTable, today: CalendarDate, year: int, month: int, week: int)
    requires
        plannable(today),
        plan_years(today).contains(year),
        plan_months(today).contains(month),
        plan_weeks(today).contains(week),
        !skipped(table, today, year, month, week),
    ensures
        valid_ymd(year, month, week_first_day(week)),
        valid_ymd(year, month, week_last_day(week, month_length(year, month))),
        week_first_day(week) <= week_last_day(week, month_length(year, month)),
{
    lemma_plan_shapes(today);
    let iy = choose|i: int| 0 <= i < plan_years(today).len() && plan_years(today)[i] == year;
    let im = choose|i: int| 0 <= i < plan_months(today).len() && plan_months(today)[i] == month;
    let iw = choose|i: int| 0 <= i < plan_weeks(today).len() && plan_weeks(today)[i] == week;
    assert(MIN_YEAR <= plan_years(today)[iy] <= MAX_YEAR);
    assert(1 <= plan_months(today)[im] <= 12);
    assert(1 <= plan_weeks(today)[iw] <= 5);
    let d = today.day as int;
    assert(1 <= day_module(d) <= 5);
    if week == 5 && month == 2 {
        // A fifth week of February is only planned in a leap year.
        assert(is_leap(year));
    }
}

/// No planned week of a real run date is ever skipped.
proof fn lemma_never_skipped(table: PartitionedTable, today: CalendarDate, year: int, month: int, week: int)
    requires
        plannable(today),
        plan_years(today).contains(year),
        plan_months(today).contains(month),
        plan_weeks(today).contains(week),
    ensures
        !skipped(table, today, year, month, week),
{
    lemma_plan_shapes(today);
    let d = today.day as int;
    assert(1 <= day_module(d) <= 5);
    let iy = choose|i: int| 0 <= i < plan_years(today).len() && plan_years(today)[i] == year;
    let im = choose|i: int| 0 <= i < plan_months(today).len() && plan_months(today)[i] == month;
    let iw = choose|i: int| 0 <= i < plan_weeks(today).len() && plan_weeks(today)[i] == week;
    if week == 5 && month == 2 {
        assert(year == today.year);
        assert(is_leap(year));
    }
}

proof fn lemma_month_weeks(table: PartitionedTable, today: CalendarDate, year: int, month: int)
    requires
        plannable(today),
        plan_years(today).contains(year),
        plan_months(today).contains(month),
    ensures
        week_entries(table, today, year, month, plan_weeks(today)) == seq![
            PartitionKey { year, month, week: plan_weeks(today)[0] },
            PartitionKey { year, month, week: plan_weeks(today)[1] },
        ],
{
    let ws = plan_weeks(today);
    lemma_plan_shapes(today);
    assert(ws.contains(ws[0]));
    assert(ws.contains(ws[1]));
    lemma_never_skipped(table, today, year, month, ws[0]);
    lemma_never_skipped(table, today, year, month, ws[1]);
    assert(ws.drop_last().drop_last() =~= Seq::<int>::empty());
    assert(week_entries(table, today, year, month, ws.drop_last().drop_last()) =~= Seq::<PartitionKey>::empty());
    assert(ws.drop_last() =~= seq![ws[0]]);
    assert(ws.drop_last().last() == ws[0]);
    assert(week_entries(table, today, year, month, ws.drop_last()) =~= seq![
        PartitionKey { year, month, week: ws[0] },
    ]);
    assert(week_entries(table, today, year, month, ws) =~= seq![
        PartitionKey { year, month, week: ws[0] },
        PartitionKey { year, month, week: ws[1] },
    ]);
}

proof fn lemma_year_months(table: PartitionedTable, today: CalendarDate, year: int)
    requires
        plannable(today),
        plan_years(today).contains(year),
    ensures
        month_entries(table, today, year, plan_months(today), plan_weeks(today)) == month_entries(
            PartitionedTable::Events,
            today,
            year,
            plan_months(today),
            plan_weeks(today),
        ),
        month_entries(table, today, year, plan_months(today), plan_weeks(today)).len() == 2
            * plan_months(today).len(),
{
    let ms = plan_months(today);
    let ws = plan_weeks(today);
    lemma_plan_shapes(today);
    assert(ms.contains(ms[0]));
    assert(ms.contains(ms.last()));
    lemma_month_weeks(table, today, year, ms[0]);
    lemma_month_weeks(PartitionedTable::Events, today, year, ms[0]);
    lemma_month_weeks(table, today, year, ms.last());
    lemma_month_weeks(PartitionedTable::Events, today, year, ms.last());
    let me_t = month_entries(table, today, year, ms, ws);
    let me_e = month_entries(PartitionedTable::Events, today, year, ms, ws);
    let e = PartitionedTable::Events;
    assert(1 <= ms[0] <= 12);
    assert(1 <= ms[ms.len() - 1] <= 12);
    let wl_t = week_entries(table, today, year, ms.last(), ws);
    let wl_e = week_entries(e, today, year, ms.last(), ws);
    assert(wl_t == wl_e);
    if ms.len() == 2 {
        let m0 = ms.drop_last();
        assert(m0 =~= seq![ms[0]]);
        assert(m0.last() == ms[0]);
        assert(m0.drop_last() =~= Seq::<int>::empty());
        assert(month_entries(table, today, year, m0.drop_last(), ws) =~= Seq::<PartitionKey>::empty());
        assert(month_entries(e, today, year, m0.drop_last(), ws) =~= Seq::<PartitionKey>::empty());
        let w0_t = week_entries(table, today, year, ms[0], ws);
        let w0_e = week_entries(e, today, year, ms[0], ws);
        assert(month_entries(table, today, year, m0, ws) =~= w0_t);
        assert(month_entries(e, today, year, m0, ws) =~= w0_e);
        assert(me_t =~= w0_t + wl_t);
        assert(me_e =~= w0_e + wl_e);
    } else {
        assert(ms.drop_last() =~= Seq::<int>::empty());
        assert(month_entries(table, today, year, ms.drop_last(), ws) =~= Seq::<PartitionKey>::empty());
        assert(month_entries(e, today, year, ms.drop_last(), ws) =~= Seq::<PartitionKey>::empty());
        assert(me_t =~= wl_t);
        assert(me_e =~= wl_e);
    }
}

/// The skip rules of the two tables never apply to a real run date: both
/// tables export the same weeks, every combination of the run's years,
/// months and two weeks.
pub proof fn law_no_week_skipped(today: CalendarDate)
    requires
        plannable(today),
    ensures
        planned_keys(PartitionedTable::Events, today) == planned_keys(
            PartitionedTable::EmbeddedDynamicForms,
            today,
        ),
        planned_keys(PartitionedTable::Events, today).len() == 2 * plan_years(today).len()
            * plan_months(today).len(),
{
    let ys = plan_years(today);
    let ms = plan_months(today);
    let ws = plan_weeks(today);
    lemma_plan_shapes(today);
    let e = PartitionedTable::Events;
    let f = PartitionedTable::EmbeddedDynamicForms;
    assert(ys.contains(ys[0]));
    assert(ys.contains(ys.last()));
    lemma_year_months(f, today, ys[0]);
    lemma_year_months(e, today, ys[0]);
    lemma_year_months(f, today, ys.last());
    lemma_year_months(e, today, ys.last());
    let ml_e = month_entries(e, today, ys.last(), ms, ws);
    let ml_f = month_entries(f, today, ys.last(), ms, ws);
    if ys.len() == 2 {
        let y0 = ys.drop_last();
        assert(y0 =~= seq![ys[0]]);
        assert(y0.last() == ys[0]);
        assert(y0.drop_last() =~= Seq::<int>::empty());
        assert(year_entries(e, today, y0.drop_last(), ms, ws) =~= Seq::<PartitionKey>::empty());
        assert(year_entries(f, today, y0.drop_last(), ms, ws) =~= Seq::<PartitionKey>::empty());
        let m0_e = month_entries(e, today, ys[0], ms, ws);
        let m0_f = month_entries(f, today, ys[0], ms, ws);
        assert(year_entries(e, today, y0, ms, ws) =~= m0_e);
        assert(year_entries(f, today, y0, ms, ws) =~= m0_f);
        assert(year_entries(e, today, ys, ms, ws) =~= m0_e + ml_e);
        assert(year_entries(f, today, ys, ms, ws) =~= m0_f + ml_f);
    } else {
        assert(ys.drop_last() =~= Seq::<int>::empty());
        assert(year_entries(e, today, ys.drop_last(), ms, ws) =~= Seq::<PartitionKey>::empty());
        assert(year_entries(f, today, ys.drop_last(), ms, ws) =~= Seq::<PartitionKey>::empty());
        assert(year_entries(e, today, ys, ms, ws) =~= ml_e);
        assert(year_entries(f, today, ys, ms, ws) =~= ml_f);
    }
    assert(year_entries(e, today, ys, ms, ws) =~= year_entries(f, today, ys, ms, ws));
}

/// No key occurs twice.
pub open spec fn keys_distinct(keys: Seq<PartitionKey>) -> bool {
    forall|i: int, j: int| 0 <= i < j < keys.len() ==> keys[i] != keys[j]
}

proof fn lemma_week_entries_distinct(table: PartitionedTable, today: CalendarDate, year: int, month: int, weeks: Seq<int>)
    requires
        weeks.no_duplicates(),
    ensures
        forall|i: int| #![trigger week_entries(table, today, year, month, weeks)[i]]
            0 <= i < week_entries(table, today, year, month, weeks).len() ==> {
                let k = week_entries(table, today, year, month, weeks)[i];
                k.year == year && k.month == month && weeks.contains(k.week)
            },
        keys_distinct(week_entries(table, today, year, month, weeks)),
    decreases weeks.len(),
{
    if weeks.len() > 0 {
        let front = weeks.drop_last();
        assert(front.no_duplicates());
        lemma_week_entries_distinct(table, today, year, month, front);
        let prev = week_entries(table, today, year, month, front);
        let all = week_entries(table, today, year, month, weeks);
        assert forall|i: int| 0 <= i < prev.len() implies weeks.contains(#[trigger] prev[i].week) by {
            let k = choose|k: int| 0 <= k < front.len() && front[k] == prev[i].week;
            assert(weeks[k] == front[k]);
        }
        assert forall|i: int| 0 <= i < prev.len() implies (#[trigger] prev[i]).week != weeks.last() by {
            let k = choose|k: int| 0 <= k < front.len() && front[k] == prev[i].week;
            assert(weeks[k] == front[k]);
            assert(weeks[weeks.len() - 1] == weeks.last());
        }
        if !skipped(table, today, year, month, weeks.last()) {
            assert(weeks.contains(weeks.last())) by {
                assert(weeks[weeks.len() - 1] == weeks.last());
            }
            assert(all == prev.push(PartitionKey { year, month, week: weeks.last() }));
        }
    }
}

proof fn lemma_month_entries_distinct(table: PartitionedTable, today: CalendarDate, year: int, months: Seq<int>, weeks: Seq<int>)
    requires
        months.no_duplicates(),
        weeks.no_duplicates(),
    ensures
        forall|i: int| #![trigger month_entries(table, today, year, months, weeks)[i]]
            0 <= i < month_entries(table, today, year, months, weeks).len() ==> {
                let k = month_entries(table, today, year, months, weeks)[i];
                k.year == year && months.contains(k.month) && weeks.contains(k.week)
            },
        keys_distinct(month_entries(table, today, year, months, weeks)),
    decreases months.len(),
{
    if months.len() > 0 {
        let front = months.drop_last();
        assert(front.no_duplicates());
        lemma_month_entries_distinct(table, today, year, front, weeks);
        let prev = month_entries(table, today, year, front, weeks);
        let m = months.last();
        let tail = if m == 0 {
            Seq::<PartitionKey>::empty()
        } else {
            week_entries(table, today, year, m, weeks)
        };
        lemma_week_entries_distinct(table, today, year, m, weeks);
        let all = month_entries(table, today, year, months, weeks);
        assert(all == prev + tail);
        assert forall|i: int| 0 <= i < prev.len() implies (#[trigger] prev[i]).month != m && months.contains(prev[i].month) && weeks.contains(prev[i].week) by {
            let k = choose|k: int| 0 <= k < front.len() && front[k] == prev[i].month;
            assert(months[k] == front[k]);
            assert(months[months.len() - 1] == m);
        }
        assert forall|i: int| 0 <= i < tail.len() implies (#[trigger] tail[i]).month == m && tail[i].year == year && weeks.contains(tail[i].week) by {
            assert(tail[i] == week_entries(table, today, year, m, weeks)[i]);
        }
        assert(months.contains(m)) by {
            assert(months[months.len() - 1] == m);
        }
        assert forall|i: int| 0 <= i < all.len() implies {
            let k = #[trigger] all[i];
            k.year == year && months.contains(k.month) && weeks.contains(k.week)
        } by {
            if i < prev.len() {
                assert(all[i] == prev[i]);
            } else {
                assert(all[i] == tail[i - prev.len()]);
            }
        }
        assert forall|i: int, j: int| 0 <= i < j < all.len() implies all[i] != all[j] by {
            if j < prev.len() {
                assert(all[i] == prev[i] && all[j] == prev[j]);
            } else if i >= prev.len() {
                assert(all[i] == tail[i - prev.len()] && all[j] == tail[j - prev.len()]);
                assert(tail[i - prev.len()] == week_entries(table, today, year, m, weeks)[i - prev.len()]);
                assert(tail[j - prev.len()] == week_entries(table, today, year, m, weeks)[j - prev.len()]);
            } else {
                assert(all[i] == prev[i] && all[j] == tail[j - prev.len()]);
            }
        }
    }
}

proof fn lemma_year_entries_distinct(table: PartitionedTable, today: CalendarDate, years: Seq<int>, months: Seq<int>, weeks: Seq<int>)
    requires
        years.no_duplicates(),
        months.no_duplicates(),
        weeks.no_duplicates(),
    ensures
        forall|i: int| #![trigger year_entries(table, today, years, months, weeks)[i]]
            0 <= i < year_entries(table, today, years, months, weeks).len() ==> {
                let k = year_entries(table, today, years, months, weeks)[i];
                years.contains(k.year) && months.contains(k.month) && weeks.contains(k.week)
            },
        keys_distinct(year_entries(table, today, years, months, weeks)),
    decreases years.len(),
{
    if years.len() > 0 {
        let front = years.drop_last();
        assert(front.no_duplicates());
        lemma_year_entries_distinct(table, today, front, months, weeks);
        let prev = year_entries(table, today, front, months, weeks);
        let y = years.last();
        let tail = month_entries(table, today, y, months, weeks);
        lemma_month_entries_distinct(table, today, y, months, weeks);
        let all = year_entries(table, today, years, months, weeks);
        assert(all == prev + tail);
        assert forall|i: int| 0 <= i < prev.len() implies (#[trigger] prev[i]).year != y && years.contains(prev[i].year) && months.contains(prev[i].month) && weeks.contains(prev[i].week) by {
            let k = choose|k: int| 0 <= k < front.len() && front[k] == prev[i].year;
            assert(years[k] == front[k]);
            assert(years[years.len() - 1] == y);
        }
        assert(years.contains(y)) by {
            assert(years[years.len() - 1] == y);
        }
        assert forall|i: int| 0 <= i < all.len() implies years.contains((#[trigger] all[i]).year) && months.contains(all[i].month) && weeks.contains(all[i].week) by {
            if i < prev.len() {
                assert(all[i] == prev[i]);
            } else {
                assert(all[i] == tail[i - prev.len()]);
            }
        }
        assert forall|i: int, j: int| 0 <= i < j < all.len() implies all[i] != all[j] by {
            if j < prev.len() {
                assert(all[i] == prev[i] && all[j] == prev[j]);
            } else if i >= prev.len() {
                assert(all[i] == tail[i - prev.len()] && all[j] == tail[j - prev.len()]);
            } else {
                assert(all[i] == prev[i] && all[j] == tail[j - prev.len()]);
            }
        }
    }
}

/// No week is exported twice in a run: the planned partitions have pairwise
/// different keys (year, month and week).
pub proof fn law_partitions_distinct(table: PartitionedTable, today: CalendarDate)
    requires
        plannable(today),
    ensures
        keys_distinct(planned_keys(table, today)),
{
    lemma_plan_shapes(today);
    let ys = plan_years(today);
    let ms = plan_months(today);
    let ws = plan_weeks(today);
    assert(ys.no_duplicates());
    assert(ms.no_duplicates());
    assert(ws.no_duplicates());
    lemma_year_entries_distinct(table, today, ys, ms, ws);
}

/// Different keys have different partition files.
pub proof fn lemma_partition_path_injective(table: PartitionedTable, y1: int, m1: int, w1: int, y2: int, m2: int, w2: int)
    requires
        m1 >= 0,
        w1 >= 0,
        m2 >= 0,
        w2 >= 0,
        partition_path(table, y1, m1, w1) == partition_path(table, y2, m2, w2),
    ensures
        y1 == y2,
        m1 == m2,
        w1 == w2,
{
    lemma_numbered_name_injective(path_prefix(table), ".parquet"@, y1, m1 as nat, w1 as nat, y2, m2 as nat, w2 as nat);
}

/// Each planned partition of a run is written to a file of its own.
pub proof fn law_partition_files_distinct(table: PartitionedTable, today: CalendarDate)
    requires
        plannable(today),
    ensures
        forall|i: int, j: int|
            #![trigger planned_keys(table, today)[i], planned_keys(table, today)[j]]
            0 <= i < j < planned_keys(table, today).len() ==> {
                let a = planned_keys(table, today)[i];
                let b = planned_keys(table, today)[j];
                partition_path(table, a.year, a.month, a.week) != partition_path(table, b.year, b.month, b.week)
            },
{
    lemma_plan_shapes(today);
    let ys = plan_years(today);
    let ms = plan_months(today);
    let ws = plan_weeks(today);
    assert(ys.no_duplicates());
    assert(ms.no_duplicates());
    assert(ws.no_duplicates());
    lemma_year_entries_distinct(table, today, ys, ms, ws);
    let keys = planned_keys(table, today);
    assert forall|i: int, j: int| 0 <= i < j < keys.len() implies {
        let a = #[trigger] keys[i];
        let b = #[trigger] keys[j];
        partition_path(table, a.year, a.month, a.week) != partition_path(table, b.year, b.month, b.week)
    } by {
        let a = keys[i];
        let b = keys[j];
        if partition_path(table, a.year, a.month, a.week) == partition_path(table, b.year, b.month, b.week) {
            lemma_partition_path_injective(table, a.year, a.month, a.week, b.year, b.month, b.week);
            assert(a == b);
        }
    }
}

/// Two weeks of a month that follow each other are exported without gap or
/// overlap: the day after the last day of a week is the first day of the next.
pub proof fn law_month_weeks_adjacent(week: int, last_day: int)
    requires
        1 <= week <= 4,
        28 <= last_day <= 31,
    ensures
        week_last_day(week, last_day) + 1 == week_first_day(week + 1),
{
}

/// A run always exports the week that holds its day: the last planned
/// partition is the week of `today`'s month that holds `today`.
pub proof fn law_current_week_is_last(table: PartitionedTable, today: CalendarDate)
    requires
        plannable(today),
    ensures
        planned_keys(table, today).len() > 0,
        planned_keys(table, today).last() == (PartitionKey {
            year: today.year as int,
            month: today.month as int,
            week: day_module(today.day as int),
        }),
        week_first_day(day_module(today.day as int)) <= today.day <= week_last_day(
            day_module(today.day as int),
            month_length(today.year as int, today.month as int),
        ),
{
    let ys = plan_years(today);
    let ms = plan_months(today);
    let ws = plan_weeks(today);
    let y = today.year as int;
    let m = today.month as int;
    let dm = day_module(today.day as int);
    lemma_plan_shapes(today);
    assert(ys.last() == y);
    assert(ms.last() == m);
    assert(ws.last() == dm);
    assert(!skipped(table, today, y, m, dm));
    let we = week_entries(table, today, y, m, ws);
    assert(we.last() == PartitionKey { year: y, month: m, week: dm });
    let me = month_entries(table, today, y, ms, ws);
    assert(me =~= month_entries(table, today, y, ms.drop_last(), ws) + we);
    let all = year_entries(table, today, ys, ms, ws);
    assert(all =~= year_entries(table, today, ys.drop_last(), ms, ws) + me);
}

/// Past the first week of a month, a run also exports the week before
/// today's: the partition before the last one is that week.
pub proof fn law_previous_week_in_same_month(table: PartitionedTable, today: CalendarDate)
    requires
        plannable(today),
        day_module(today.day as int) > 1,
    ensures
        planned_keys(table, today).len() == 2,
        planned_keys(table, today)[0] == (PartitionKey {
            year: today.year as int,
            month: today.month as int,
            week: day_module(today.day as int) - 1,
        }),
        week_first_day(day_module(today.day as int) - 1) <= today.day - 7 <= week_last_day(
            day_module(today.day as int) - 1,
            month_length(today.year as int, today.month as int),
        ),
{
    let ys = plan_years(today);
    let ms = plan_months(today);
    let ws = plan_weeks(today);
    let y = today.year as int;
    let m = today.month as int;
    let dm = day_module(today.day as int);
    lemma_plan_shapes(today);
    assert(ys =~= seq![y]);
    assert(ms =~= seq![m]);
    assert(ws =~= seq![dm - 1, dm]);
    assert(!skipped(table, today, y, m, dm - 1));
    assert(!skipped(table, today, y, m, dm));
    let w0 = week_entries(table, today, y, m, ws.drop_last().drop_last());
    assert(w0 =~= Seq::<PartitionKey>::empty());
    let w1 = week_entries(table, today, y, m, ws.drop_last());
    assert(w1 =~= seq![PartitionKey { year: y, month: m, week: dm - 1 }]);
    let we = week_entries(table, today, y, m, ws);
    assert(we =~= seq![PartitionKey { year: y, month: m, week: dm - 1 }, PartitionKey { year: y, month: m, week: dm }]);
    assert(month_entries(table, today, y, ms.drop_last(), ws) =~= Seq::<PartitionKey>::empty());
    let me = month_entries(table, today, y, ms, ws);
    assert(me =~= we);
    assert(year_entries(table, today, ys.drop_last(), ms, ws) =~= Seq::<PartitionKey>::empty());
    assert(year_entries(table, today, ys, ms, ws) =~= me);
}

/// Plans the weekly partitions of a run on `today`.
pub fn plan_partitions(table: PartitionedTable, today: CalendarDate) -> (r: Vec<WeeklyPartition>)
    requires
        plannable(today),
    ensures
        r.len() == planned_keys(table, today).len(),
        forall|i: int| 0 <= i < r.len() ==> is_partition(table, #[trigger] r@[i], planned_keys(table, today)[i]),
{
    let current_year = today.year;
    let current_month = today.month;
    let current_day = today.day;
    let years: Vec<i32> = if current_month == 1 && current_day < 8 {
        vec![current_year - 1, current_year]
    } else {
        vec![current_year]
    };
    let day_module: u32 = if current_day % 7 != 0 {
        current_day / 7 + 1
    } else {
        current_day / 7
    };
    let weeks: Vec<u32> = if day_module == 1 {
        if current_month == 3 && day_module == 1 && is_leap_year(current_year) {
            vec![5, 1]
        } else {
            vec![4, 1]
        }
    } else {
        vec![day_module - 1, day_module]
    };
    let months: Vec<u32> = if current_month == 1 && current_day < 8 {
        vec![12, current_month]
    } else if day_module == 1 && current_month != 1 {
        vec![current_month - 1, current_month]
    } else {
        vec![current_month]
    };
    let ghost ys = plan_years(today);
    let ghost ms = plan_months(today);
    let ghost ws = plan_weeks(today);
    assert(years@.map_values(|y: i32| y as int) =~= ys);
    assert(months@.map_values(|m: u32| m as int) =~= ms);
    assert(weeks@.map_values(|w: u32| w as int) =~= ws);
    proof {
        lemma_plan_shapes(today);
    }
    let mut r: Vec<WeeklyPartition> = Vec::new();
    let mut yi: usize = 0;
    while yi < years.len()
        invariant
            plannable(today),
            current_year == today.year,
            yi <= years.len(),
            years@.map_values(|y: i32| y as int) == ys,
            months@.map_values(|m: u32| m as int) == ms,
            weeks@.map_values(|w: u32| w as int) == ws,
            ys == plan_years(today),
            ms == plan_months(today),
            ws == plan_weeks(today),
            r.len() == year_entries(table, today, ys.take(yi as int), ms, ws).len(),
            forall|i: int| 0 <= i < r.len() ==> is_partition(table, #[trigger] r@[i], year_entries(table, today, ys.take(yi as int), ms, ws)[i]),
        decreases years.len() - yi,
    {
        let year = years[yi];
        assert(ys[yi as int] == year);
        let ghost before = year_entries(table, today, ys.take(yi as int), ms, ws);
        let mut mi: usize = 0;
        while mi < months.len()
            invariant
                plannable(today),
                current_year == today.year,
                yi < years.len(),
                mi <= months.len(),
                years@.map_values(|y: i32| y as int) == ys,
                months@.map_values(|m: u32| m as int) == ms,
                weeks@.map_values(|w: u32| w as int) == ws,
                ys == plan_years(today),
                ms == plan_months(today),
                ws == plan_weeks(today),
                year == ys[yi as int],
                before == year_entries(table, today, ys.take(yi as int), ms, ws),
                r.len() == (before + month_entries(table, today, year as int, ms.take(mi as int), ws)).len(),
                forall|i: int| 0 <= i < r.len() ==> is_partition(table, #[trigger] r@[i], (before + month_entries(table, today, year as int, ms.take(mi as int), ws))[i]),
            decreases months.len() - mi,
        {
            let month = months[mi];
            assert(ms[mi as int] == month);
            assert(ms.take(mi + 1).drop_last() =~= ms.take(mi as int));
            let ghost before_month = before + month_entries(table, today, year as int, ms.take(mi as int), ws);
            if month == 0 {
                assert(month_entries(table, today, year as int, ms.take(mi + 1), ws) =~= month_entries(table, today, year as int, ms.take(mi as int), ws));
            } else {
                let last_day = days_in_month(year, month);
                let mut wi: usize = 0;
                while wi < weeks.len()
                    invariant
                        plannable(today),
                        current_year == today.year,
                        yi < years.len(),
                        mi < months.len(),
                        wi <= weeks.len(),
                        years@.map_values(|y: i32| y as int) == ys,
                        months@.map_values(|m: u32| m as int) == ms,
                        weeks@.map_values(|w: u32| w as int) == ws,
                        ys == plan_years(today),
                        ms == plan_months(today),
                        ws == plan_weeks(today),
                        year == ys[yi as int],
                        month == ms[mi as int],
                        month != 0,
                        last_day == month_length(year as int, month as int),
                        r.len() == (before_month + week_entries(table, today, year as int, month as int, ws.take(wi as int))).len(),
                        forall|i: int| 0 <= i < r.len() ==> is_partition(table, #[trigger] r@[i], (before_month + week_entries(table, today, year as int, month as int, ws.take(wi as int)))[i]),
                    decreases weeks.len() - wi,
                {
                    let week = weeks[wi];
                    assert(ws[wi as int] == week);
                    assert(ws.take(wi + 1).drop_last() =~= ws.take(wi as int));
                    let ghost prefix = before_month + week_entries(table, today, year as int, month as int, ws.take(wi as int));
                    let skip = match table {
                        PartitionedTable::Events => year == current_year && month == 2 && last_day
                            == 28 && week == 5,
                        PartitionedTable::EmbeddedDynamicForms => !is_leap_year(year) && month == 2
                            && week == 5,
                    };
                    assert(ws.take(wi + 1).last() == week as int);
                    assert(last_day == month_length(year as int, month as int));
                    assert(current_year == today.year);
                    assert(skip == skipped(table, today, year as int, month as int, week as int)) by {
                        match table {
                            PartitionedTable::Events => {},
                            PartitionedTable::EmbeddedDynamicForms => {},
                        }
                    }
                    if skip {
                        assert(prefix =~= before_month + week_entries(table, today, year as int, month as int, ws.take(wi + 1)));
                    } else {
                        proof {
                            assert(ys.contains(year as int));
                            assert(ms.contains(month as int));
                            assert(ws.contains(week as int));
                            lemma_week_dates_valid(table, today, year as int, month as int, week as int);
                        }
                        let first_day_number: u32 = if week == 1 {
                            1
                        } else {
                            (week - 1) * 7 + 1
                        };
                        let last_day_number: u32 = if week * 7 < last_day {
                            week * 7
                        } else {
                            last_day
                        };
                        let first_day = match CalendarDate::from_ymd_opt(year, month, first_day_number) {
                            Some(d) => d,
                            None => {
                                assert(false);
                                return r;
                            },
                        };
                        let last_day_calculation = match CalendarDate::from_ymd_opt(year, month, last_day_number) {
                            Some(d) => d,
                            None => {
                                assert(false);
                                return r;
                            },
                        };
                        let path = partition_file(table, year, month, week);
                        let p = WeeklyPartition {
                            year,
                            month,
                            week,
                            first_day,
                            last_day: last_day_calculation,
                            window_start: Timestamp::start_of_day_of(first_day),
                            window_end: Timestamp::end_of_day_of(last_day_calculation),
                            path,
                        };
                        let ghost key = PartitionKey { year: year as int, month: month as int, week: week as int };
                        assert(is_partition(table, p, key));
                        r.push(p);
                        assert(prefix.push(key) =~= before_month + week_entries(table, today, year as int, month as int, ws.take(wi + 1)));
                    }
                    wi += 1;
                }
                assert(ws.take(ws.len() as int) =~= ws);
                assert(before_month + week_entries(table, today, year as int, month as int, ws) =~= before + month_entries(table, today, year as int, ms.take(mi + 1), ws));
            }
            mi += 1;
        }
        assert(ms.take(ms.len() as int) =~= ms);
        assert(ys.take(yi + 1).drop_last() =~= ys.take(yi as int));
        assert(before + month_entries(table, today, year as int, ms, ws) =~= year_entries(table, today, ys.take(yi + 1), ms, ws));
        yi += 1;
    }
    assert(ys.take(ys.len() as int) =~= ys);
    r
}

/// The parquet file of a partition.
pub fn partition_file(table: PartitionedTable, year: i32, month: u32, week: u32) -> (r: String)
    ensures
        r@ == partition_path(table, year as int, month as int, week as int),
{
    let mut path = match table {
        PartitionedTable::Events => to_text("/tmp/events_partitions-"),
        PartitionedTable::EmbeddedDynamicForms => to_text("/tmp/embedded_dynamic_forms_partitions-"),
    };
    push_signed_decimal(&mut path, year);
    path.append("-");
    push_decimal(&mut path, month as u64);
    path.append("-");
    push_decimal(&mut path, week as u64);
    path.append(".parquet");
    path
}

} // verus!

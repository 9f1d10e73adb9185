//! The event exports: weekly partitions of the events and the embedded
//! dynamic forms, and the weekly export of events with the e-mail address of
//! their session.
use crate::calendar::{
    max_day_number, min_day_number, num_days_from_monday, weekday_from_monday, CalendarDate,
    Timestamp,
};
use crate::partitions::{
    is_partition, plan_partitions, plannable, planned_keys, PartitionedTable, WeeklyPartition,
};
use crate::rows::{clone_opt_text, join_or_empty, joined_or_empty, opt_text, texts};
use crate::text::{
    decimal, join, lemma_numbered_name_injective, push_decimal, push_signed_decimal, signed_decimal,
    to_text,
};
use vstd::hash_map::StringHashMap;
use vstd::prelude::*;
use vstd::string::*;

verus! {

/// A loaded row of the `events` table (its `duration` stays with the caller).
pub struct EventRow {
    pub id: i64,
    pub event: Option<String>,
    pub email: Option<String>,
    pub username: Option<String>,
    pub application: Option<String>,
    pub remote_addr: Option<String>,
    pub host: Option<String>,
    pub action: Option<String>,
    pub controller: Option<String>,
    pub session_id: Option<String>,
    pub computer_id: Option<String>,
    pub query: Option<String>,
    pub raw_post: Option<String>,
    pub source: Option<Vec<String>>,
    /// The `providers` JSON document, rendered.
    pub providers: Option<String>,
    pub uuid: String,
    pub datetime: Option<Timestamp>,
    pub created_at: Option<Timestamp>,
    pub updated_at: Option<Timestamp>,
    pub organization_id: Option<i32>,
}

/// An exported event (with the `duration` of the row added by the caller).
pub struct EventRecord {
    pub id: i64,
    pub event: Option<String>,
    pub email: Option<String>,
    pub username: Option<String>,
    pub application: Option<String>,
    pub remote_addr: Option<String>,
    pub host: Option<String>,
    pub action: Option<String>,
    pub controller: Option<String>,
    pub session_id: Option<String>,
    pub computer_id: Option<String>,
    pub query: Option<String>,
    pub raw_post: Option<String>,
    pub categories: String,
    pub source: String,
    pub providers: Option<String>,
    pub uuid: String,
    pub datetime: Option<Timestamp>,
    pub created_at: Option<Timestamp>,
    pub updated_at: Option<Timestamp>,
}

/// An exported event with the e-mail address of its session.
pub struct EventEmailRecord {
    pub id: i64,
    pub event: Option<String>,
    pub email: Option<String>,
    pub username: Option<String>,
    pub application: Option<String>,
    pub remote_addr: Option<String>,
    pub host: Option<String>,
    pub action: Option<String>,
    pub controller: Option<String>,
    pub session_id: Option<String>,
    pub computer_id: Option<String>,
    pub query: Option<String>,
    pub raw_post: Option<String>,
    pub categories: String,
    pub source: String,
    pub providers: Option<String>,
    pub uuid: String,
    pub datetime: Option<Timestamp>,
    pub created_at: Option<Timestamp>,
    pub updated_at: Option<Timestamp>,
    pub organization_id: Option<i32>,
    pub full_email: Option<String>,
}

/// `rec` is the export of `row`. Both `categories` and `source` hold the
/// joined `source` list of the row.
pub open spec fn is_event_record(rec: EventRecord, row: EventRow) -> bool {
    &&& rec.id == row.id
    &&& opt_text(rec.event) == opt_text(row.event)
    &&& opt_text(rec.email) == opt_text(row.email)
    &&& opt_text(rec.username) == opt_text(row.username)
    &&& opt_text(rec.application) == opt_text(row.application)
    &&& opt_text(rec.remote_addr) == opt_text(row.remote_addr)
    &&& opt_text(rec.host) == opt_text(row.host)
    &&& opt_text(rec.action) == opt_text(row.action)
    &&& opt_text(rec.controller) == opt_text(row.controller)
    &&& opt_text(rec.session_id) == opt_text(row.session_id)
    &&& opt_text(rec.computer_id) == opt_text(row.computer_id)
    &&& opt_text(rec.query) == opt_text(row.query)
    &&& opt_text(rec.raw_post) == opt_text(row.raw_post)
    &&& rec.categories@ == joined_or_empty(row.source)
    &&& rec.source@ == joined_or_empty(row.source)
    &&& opt_text(rec.providers) == opt_text(row.providers)
    &&& rec.uuid@ == row.uuid@
    &&& rec.datetime == row.datetime
    &&& rec.created_at == row.created_at
    &&& rec.updated_at == row.updated_at
}

/// The e-mail address of the first of `rows` that has session `sid` and an
/// e-mail address.
pub open spec fn first_session_email(rows: Seq<EventRow>, sid: Seq<char>) -> Option<Seq<char>>
    decreases rows.len(),
{
    if rows.len() == 0 {
        None
    } else {
        let earlier = first_session_email(rows.drop_last(), sid);
        if earlier is Some {
            earlier
        } else if opt_text(rows.last().session_id) == Some(sid) && rows.last().email is Some {
            opt_text(rows.last().email)
        } else {
            None
        }
    }
}

/// The e-mail address of the session of `row` among `rows`.
pub open spec fn session_email(rows: Seq<EventRow>, row: EventRow) -> Option<Seq<char>> {
    match row.session_id {
        Some(s) => first_session_email(rows, s@),
        None => None,
    }
}

/// `rec` is the export of `row` among `rows`: the fields of `row`, an empty
/// `application`, and the e-mail address of its session.
pub open spec fn is_event_email_record(rec: EventEmailRecord, row: EventRow, rows: Seq<EventRow>) -> bool {
    &&& rec.id == row.id
    &&& opt_text(rec.event) == opt_text(row.event)
    &&& opt_text(rec.email) == opt_text(row.email)
    &&& opt_text(rec.username) == opt_text(row.username)
    &&& opt_text(rec.application) == Some(Seq::<char>::empty())
    &&& opt_text(rec.remote_addr) == opt_text(row.remote_addr)
    &&& opt_text(rec.host) == opt_text(row.host)
    &&& opt_text(rec.action) == opt_text(row.action)
    &&& opt_text(rec.controller) == opt_text(row.controller)
    &&& opt_text(rec.session_id) == opt_text(row.session_id)
    &&& opt_text(rec.computer_id) == opt_text(row.computer_id)
    &&& opt_text(rec.query) == opt_text(row.query)
    &&& opt_text(rec.raw_post) == opt_text(row.raw_post)
    &&& rec.categories@ == joined_or_empty(row.source)
    &&& rec.source@ == joined_or_empty(row.source)
    &&& opt_text(rec.providers) == opt_text(row.providers)
    &&& rec.uuid@ == row.uuid@
    &&& rec.datetime == row.datetime
    &&& rec.created_at == row.created_at
    &&& rec.updated_at == row.updated_at
    &&& rec.organization_id == row.organization_id
    &&& opt_text(rec.full_email) == session_email(rows, row)
}

/// The Monday that starts the first exported week of a run on the day with
/// number `today`: the week holding the day 37 days before.
pub open spec fn first_week_start(today: int) -> int {
    (today - 37) - weekday_from_monday(today - 37)
}

/// The Monday that starts the `k`-th exported week.
pub open spec fn week_start(today: int, k: int) -> int {
    first_week_start(today) + 7 * k
}

/// One exported week.
pub struct WeekWindow {
    /// The Monday that starts the week.
    pub start: CalendarDate,
    /// The Sunday that ends it.
    pub end: CalendarDate,
    /// `start` at 00:00:00.
    pub window_start: Timestamp,
    /// `end` at 23:59:59.999999999.
    pub window_end: Timestamp,
    /// The parquet file of the week.
    pub path: String,
}

/// `/tmp/events_emails_partitions-<year>-<month>-<day>.parquet` of the week's Monday.
pub open spec fn week_path(start: CalendarDate) -> Seq<char> {
    "/tmp/events_emails_partitions-"@ + signed_decimal(start.year as int) + "-"@ + decimal(
        start.month as nat,
    ) + "-"@ + decimal(start.day as nat) + ".parquet"@
}

/// `w` is the week that starts on the day with number `start`.
pub open spec fn is_week_window(w: WeekWindow, start: int) -> bool {
    &&& w.start.wf()
    &&& w.end.wf()
    &&& w.start.number() == start
    &&& w.end.number() == start + 6
    &&& w.window_start == Timestamp::start_of_day(w.start)
    &&& w.window_end == Timestamp::end_of_day(w.end)
    &&& w.path@ == week_path(w.start)
}

/// The task that exports the events in weekly partitions.
pub struct EventTask {}

impl EventTask {
    /// The partitions of a run on `today`.
    pub fn partitions(today: CalendarDate) -> (r: Vec<WeeklyPartition>)
        requires
            plannable(today),
        ensures
            r.len() == planned_keys(PartitionedTable::Events, today).len(),
            forall|i: int| 0 <= i < r.len() ==> is_partition(PartitionedTable::Events, #[trigger] r@[i], planned_keys(PartitionedTable::Events, today)[i]),
    {
        plan_partitions(PartitionedTable::Events, today)
    }

    /// The export of one event.
    pub fn record(row: &EventRow) -> (r: EventRecord)
        ensures
            is_event_record(r, *row),
    {
        EventRecord {
            id: row.id,
            event: clone_opt_text(&row.event),
            email: clone_opt_text(&row.email),
            username: clone_opt_text(&row.username),
            application: clone_opt_text(&row.application),
            remote_addr: clone_opt_text(&row.remote_addr),
            host: clone_opt_text(&row.host),
            action: clone_opt_text(&row.action),
            controller: clone_opt_text(&row.controller),
            session_id: clone_opt_text(&row.session_id),
            computer_id: clone_opt_text(&row.computer_id),
            query: clone_opt_text(&row.query),
            raw_post: clone_opt_text(&row.raw_post),
            categories: join_or_empty(&row.source),
            source: join_or_empty(&row.source),
            providers: clone_opt_text(&row.providers),
            uuid: row.uuid.clone(),
            datetime: row.datetime,
            created_at: row.created_at,
            updated_at: row.updated_at,
        }
    }
}

impl EventTask {
    /// The exports of the events of a partition, in their order.
    pub fn records(rows: &Vec<EventRow>) -> (r: Vec<EventRecord>)
        ensures
            r.len() == rows.len(),
            forall|i: int| 0 <= i < rows.len() ==> is_event_record(#[trigger] r@[i], rows@[i]),
    {
        let mut r: Vec<EventRecord> = Vec::new();
        let mut i: usize = 0;
        while i < rows.len()
            invariant
                i <= rows.len(),
                r.len() == i,
                forall|j: int| 0 <= j < i ==> is_event_record(#[trigger] r@[j], rows@[j]),
            decreases rows.len() - i,
        {
            r.push(EventTask::record(&rows[i]));
            i += 1;
        }
        r
    }
}

/// The task that exports the embedded dynamic forms in weekly partitions.
pub struct EmbeddedDynamicFormTask {}

impl EmbeddedDynamicFormTask {
    /// The partitions of a run on `today`.
    pub fn partitions(today: CalendarDate) -> (r: Vec<WeeklyPartition>)
        requires
            plannable(today),
        ensures
            r.len() == planned_keys(PartitionedTable::EmbeddedDynamicForms, today).len(),
            forall|i: int| 0 <= i < r.len() ==> is_partition(PartitionedTable::EmbeddedDynamicForms, #[trigger] r@[i], planned_keys(PartitionedTable::EmbeddedDynamicForms, today)[i]),
    {
        plan_partitions(PartitionedTable::EmbeddedDynamicForms, today)
    }
}

/// The task that exports the events of the last weeks with the e-mail
/// address of their session.
pub struct EventEmailTask {}

impl EventEmailTask {
    /// The Mondays that start the exported weeks of a run on the day with
    /// number `today`: from the week holding the day 37 days before, every
    /// week up to the one holding `today`.
    pub fn week_starts(today: i32) -> (r: Vec<i64>)
        ensures
            r.len() >= 1,
            forall|k: int| 0 <= k < r.len() ==> r@[k] == week_start(today as int, k),
            forall|k: int| 0 <= k < r.len() ==> today - 43 <= #[trigger] r@[k] <= today,
            week_start(today as int, r.len() - 1) <= today < week_start(today as int, r.len() as int),
    {
        let end_date: i64 = today as i64;
        let mut start_date: i64 = end_date - 37;
        let mut r: Vec<i64> = Vec::new();
        while start_date <= end_date
            invariant
                end_date == today,
                r.len() == 0 ==> start_date == end_date - 37,
                r.len() > 0 ==> start_date == week_start(today as int, r.len() as int),
                r.len() > 0 ==> week_start(today as int, r.len() - 1) <= today,
                forall|k: int| 0 <= k < r.len() ==> r@[k] == week_start(today as int, k),
                forall|k: int| 0 <= k < r.len() ==> today - 43 <= #[trigger] r@[k] <= today,
                r.len() <= 8,
                end_date - 45 <= start_date,
            decreases end_date + 7 - start_date,
        {
            let diff_days = num_days_from_monday(start_date) as i64;
            let start_of_week = start_date - diff_days;
            let end_of_week = start_of_week + 6;
            r.push(start_of_week);
            start_date = end_of_week + 1;
        }
        r
    }

    /// The exported weeks of a run on `today`; `None` when one of their days
    /// lies outside the dates that `chrono` represents.
    pub fn weekly_windows(today: CalendarDate) -> (r: Option<Vec<WeekWindow>>)
        requires
            today.wf(),
        ensures
            r is Some <==> (min_day_number() <= week_start(today.number(), 0) && week_start(
                today.number(),
                (first_week_count(today.number()) - 1) as int,
            ) + 6 <= max_day_number()),
            r matches Some(ws) ==> {
                &&& ws.len() >= 1
                &&& week_start(today.number(), ws.len() - 1) <= today.number() < week_start(
                    today.number(),
                    ws.len() as int,
                )
                &&& forall|k: int| 0 <= k < ws.len() ==> is_week_window(#[trigger] ws@[k], week_start(today.number(), k))
            },
    {
        let n = today.num_days_from_ce();
        let starts = EventEmailTask::week_starts(n);
        proof {
            lemma_week_count(n as int, starts.len() as int);
        }
        let mut ws: Vec<WeekWindow> = Vec::new();
        let mut k: usize = 0;
        while k < starts.len()
            invariant
                k <= starts.len(),
                ws.len() == k,
                n == today.number(),
                starts.len() == first_week_count(n as int),
                forall|j: int| 0 <= j < starts.len() ==> starts@[j] == week_start(n as int, j),
                forall|j: int| 0 <= j < starts.len() ==> n - 43 <= #[trigger] starts@[j] <= n,
                forall|j: int| 0 <= j < k ==> is_week_window(#[trigger] ws@[j], week_start(n as int, j)),
                k > 0 ==> min_day_number() <= week_start(n as int, 0),
                forall|j: int| 0 <= j < k ==> week_start(n as int, j) + 6 <= max_day_number(),
            decreases starts.len() - k,
        {
            let start_of_week = starts[k];
            proof {
                lemma_day_number_range();
            }
            if start_of_week < i32::MIN as i64 || start_of_week + 6 > i32::MAX as i64 {
                proof {
                    lemma_weeks_ordered(n as int, k as int, (starts.len() - 1) as int);
                }
                return None;
            }
            let start = match CalendarDate::from_num_days_from_ce_opt(start_of_week as i32) {
                Some(d) => d,
                None => {
                    proof {
                        lemma_weeks_ordered(n as int, 0, k as int);
                        lemma_weeks_ordered(n as int, k as int, (starts.len() - 1) as int);
                    }
                    return None;
                },
            };
            let end = match CalendarDate::from_num_days_from_ce_opt((start_of_week + 6) as i32) {
                Some(d) => d,
                None => {
                    proof {
                        lemma_weeks_ordered(n as int, 0, k as int);
                        lemma_weeks_ordered(n as int, k as int, (starts.len() - 1) as int);
                    }
                    return None;
                },
            };
            let w = WeekWindow {
                start,
                end,
                window_start: Timestamp::start_of_day_of(start),
                window_end: Timestamp::end_of_day_of(end),
                path: week_file(start),
            };
            ws.push(w);
            k += 1;
        }
        Some(ws)
    }

    /// The exports of the events of one week, each with the e-mail address of
    /// its session: that of the first event of the week with that session and
    /// an e-mail address.
    pub fn records(rows: &Vec<EventRow>) -> (r: Vec<EventEmailRecord>)
        ensures
            r.len() == rows.len(),
            forall|i: int| 0 <= i < rows.len() ==> is_event_email_record(#[trigger] r@[i], rows@[i], rows@),
    {
        let emails_by_session = emails_by_session(rows);
        let mut r: Vec<EventEmailRecord> = Vec::new();
        let mut i: usize = 0;
        while i < rows.len()
            invariant
                i <= rows.len(),
                r.len() == i,
                forall|s: Seq<char>| #[trigger] emails_by_session@.contains_key(s) <==> first_session_email(rows@, s) is Some,
                forall|s: Seq<char>| #[trigger] emails_by_session@.contains_key(s) ==> Some(emails_by_session@[s]@) == first_session_email(rows@, s),
                forall|j: int| 0 <= j < i ==> is_event_email_record(#[trigger] r@[j], rows@[j], rows@),
            decreases rows.len() - i,
        {
            let m = &rows[i];
            let full_email = match &m.session_id {
                Some(session_id) => match emails_by_session.get(session_id.as_str()) {
                    Some(e) => Some(e.clone()),
                    None => None,
                },
                None => None,
            };
            let rec = EventEmailRecord {
                id: m.id,
                event: clone_opt_text(&m.event),
                email: clone_opt_text(&m.email),
                username: clone_opt_text(&m.username),
                application: Some(String::new()),
                remote_addr: clone_opt_text(&m.remote_addr),
                host: clone_opt_text(&m.host),
                action: clone_opt_text(&m.action),
                controller: clone_opt_text(&m.controller),
                session_id: clone_opt_text(&m.session_id),
                computer_id: clone_opt_text(&m.computer_id),
                query: clone_opt_text(&m.query),
                raw_post: clone_opt_text(&m.raw_post),
                categories: join_or_empty(&m.source),
                source: join_or_empty(&m.source),
                providers: clone_opt_text(&m.providers),
                uuid: m.uuid.clone(),
                datetime: m.datetime,
                created_at: m.created_at,
                updated_at: m.updated_at,
                organization_id: m.organization_id,
                full_email,
            };
            r.push(rec);
            i += 1;
        }
        r
    }
}

/// The number of exported weeks of a run on the day with number `today`.
pub open spec fn first_week_count(today: int) -> int {
    (today - first_week_start(today)) / 7 + 1
}

/// Every exported week starts on a Monday.
pub proof fn law_weeks_start_on_monday(today: int, k: int)
    ensures
        weekday_from_monday(week_start(today, k)) == 0,
{
    let t = today - 37;
    let w = weekday_from_monday(t);
    assert(t - 1 == 7 * ((t - 1) / 7) + w);
    assert(week_start(today, k) - 1 == 7 * ((t - 1) / 7 + k));
}

/// A run exports the six or seven weeks from the week that holds the day 37
/// days before its day up to the week that holds its day.
pub proof fn law_weeks_cover_last_37_days(today: int)
    ensures
        week_start(today, 0) <= today - 37 <= week_start(today, 0) + 6,
        6 <= first_week_count(today) <= 7,
        week_start(today, first_week_count(today) - 1) <= today <= week_start(
            today,
            first_week_count(today) - 1,
        ) + 6,
{
    let d = today - first_week_start(today);
    assert(37 <= d <= 43);
    assert(d / 7 == 5 || d / 7 == 6);
}

/// The exported weeks follow each other without gap or overlap: each starts
/// the day after the one before ends.
pub proof fn law_weeks_adjacent(today: int, k: int)
    ensures
        week_start(today, k + 1) == week_start(today, k) + 6 + 1,
{
}

/// Different weeks are written to different files: two exported weeks with
/// the same file start on the same day.
pub proof fn law_week_files_distinct(w1: WeekWindow, s1: int, w2: WeekWindow, s2: int)
    requires
        is_week_window(w1, s1),
        is_week_window(w2, s2),
        w1.path@ == w2.path@,
    ensures
        s1 == s2,
{
    let a = w1.start;
    let b = w2.start;
    lemma_numbered_name_injective(
        "/tmp/events_emails_partitions-"@,
        ".parquet"@,
        a.year as int,
        a.month as nat,
        a.day as nat,
        b.year as int,
        b.month as nat,
        b.day as nat,
    );
}

/// An event that has a session and an e-mail address is exported with an
/// e-mail address of its session.
pub proof fn law_session_with_email_has_address(rows: Seq<EventRow>, i: int)
    requires
        0 <= i < rows.len(),
        rows[i].session_id is Some,
        rows[i].email is Some,
    ensures
        session_email(rows, rows[i]) is Some,
    decreases rows.len(),
{
    let s = rows[i].session_id->0@;
    if i < rows.len() - 1 {
        law_session_with_email_has_address(rows.drop_last(), i);
        assert(rows.drop_last()[i] == rows[i]);
    }
}

/// All events of one session are exported with the same e-mail address.
pub proof fn law_one_address_per_session(rows: Seq<EventRow>, i: int, j: int)
    requires
        0 <= i < rows.len(),
        0 <= j < rows.len(),
        rows[i].session_id is Some,
        opt_text(rows[i].session_id) == opt_text(rows[j].session_id),
    ensures
        session_email(rows, rows[i]) == session_email(rows, rows[j]),
{
}

proof fn lemma_week_count(today: int, len: int)
    requires
        len >= 1,
        week_start(today, len - 1) <= today < week_start(today, len),
    ensures
        len == first_week_count(today),
{
    let d = today - first_week_start(today);
    assert(7 * (len - 1) <= d < 7 * len);
    assert(d / 7 == len - 1);
}

proof fn lemma_weeks_ordered(today: int, j: int, k: int)
    requires
        j <= k,
    ensures
        week_start(today, j) <= week_start(today, k),
{
}

proof fn lemma_day_number_range()
    ensures
        i32::MIN < min_day_number(),
        max_day_number() + 7 < i32::MAX,
{
    reveal_with_fuel(crate::calendar::days_before_month, 12);
}

/// The first e-mail address of every session among `rows`.
fn emails_by_session(rows: &Vec<EventRow>) -> (m: StringHashMap<String>)
    ensures
        forall|s: Seq<char>| #[trigger] m@.contains_key(s) <==> first_session_email(rows@, s) is Some,
        forall|s: Seq<char>| #[trigger] m@.contains_key(s) ==> Some(m@[s]@) == first_session_email(rows@, s),
{
    let mut m: StringHashMap<String> = StringHashMap::new();
    let mut i: usize = 0;
    while i < rows.len()
        invariant
            i <= rows.len(),
            forall|s: Seq<char>| #[trigger] m@.contains_key(s) <==> first_session_email(rows@.take(i as int), s) is Some,
            forall|s: Seq<char>| #[trigger] m@.contains_key(s) ==> Some(m@[s]@) == first_session_email(rows@.take(i as int), s),
        decreases rows.len() - i,
    {
        let result = &rows[i];
        assert(rows@.take(i + 1).drop_last() =~= rows@.take(i as int));
        assert(rows@.take(i + 1).last() == rows@[i as int]);
        if let Some(session_id) = &result.session_id {
            if let Some(email) = &result.email {
                if !m.contains_key(session_id.as_str()) {
                    m.insert(session_id.clone(), email.clone());
                }
            }
        }
        i += 1;
    }
    assert(rows@.take(rows.len() as int) =~= rows@);
    m
}

/// The parquet file of the week that starts on `start`.
fn week_file(start: CalendarDate) -> (r: String)
    ensures
        r@ == week_path(start),
{
    let mut path = to_text("/tmp/events_emails_partitions-");
    push_signed_decimal(&mut path, start.year);
    path.append("-");
    push_decimal(&mut path, start.month as u64);
    path.append("-");
    push_decimal(&mut path, start.day as u64);
    path.append(".parquet");
    path
}

/// Each column of an exported event is the same-named column of its row:
/// the e-mail address is the row's own, the username the row's own, and so
/// on; the categories repeat the joined sources.
pub proof fn law_event_columns(rec: EventRecord, row: EventRow)
    requires
        is_event_record(rec, row),
    ensures
        rec.id == row.id,
        opt_text(rec.event) == opt_text(row.event),
        opt_text(rec.email) == opt_text(row.email),
        opt_text(rec.username) == opt_text(row.username),
        opt_text(rec.remote_addr) == opt_text(row.remote_addr),
        opt_text(rec.host) == opt_text(row.host),
        opt_text(rec.action) == opt_text(row.action),
        opt_text(rec.controller) == opt_text(row.controller),
        opt_text(rec.session_id) == opt_text(row.session_id),
        opt_text(rec.computer_id) == opt_text(row.computer_id),
        opt_text(rec.query) == opt_text(row.query),
        opt_text(rec.raw_post) == opt_text(row.raw_post),
        opt_text(rec.providers) == opt_text(row.providers),
        rec.source@ == (match row.source {
            Some(v) => join(texts(v@), ", "@),
            None => Seq::<char>::empty(),
        }),
        rec.categories@ == rec.source@,
        rec.uuid@ == row.uuid@,
        rec.datetime == row.datetime,
        rec.created_at == row.created_at,
        rec.updated_at == row.updated_at,
        opt_text(rec.application) == opt_text(row.application),
{
}

/// Each column of an exported event with its session's e-mail address is the
/// same-named column of its row, but for the application, which is empty.
pub proof fn law_event_email_columns(rec: EventEmailRecord, row: EventRow, rows: Seq<EventRow>)
    requires
        is_event_email_record(rec, row, rows),
    ensures
        rec.id == row.id,
        opt_text(rec.event) == opt_text(row.event),
        opt_text(rec.email) == opt_text(row.email),
        opt_text(rec.username) == opt_text(row.username),
        opt_text(rec.remote_addr) == opt_text(row.remote_addr),
        opt_text(rec.host) == opt_text(row.host),
        opt_text(rec.action) == opt_text(row.action),
        opt_text(rec.controller) == opt_text(row.controller),
        opt_text(rec.session_id) == opt_text(row.session_id),
        opt_text(rec.computer_id) == opt_text(row.computer_id),
        opt_text(rec.query) == opt_text(row.query),
        opt_text(rec.raw_post) == opt_text(row.raw_post),
        opt_text(rec.providers) == opt_text(row.providers),
        rec.source@ == (match row.source {
            Some(v) => join(texts(v@), ", "@),
            None => Seq::<char>::empty(),
        }),
        rec.categories@ == rec.source@,
        rec.uuid@ == row.uuid@,
        rec.datetime == row.datetime,
        rec.created_at == row.created_at,
        rec.updated_at == row.updated_at,
        opt_text(rec.application) == Some(Seq::<char>::empty()),
        rec.organization_id == row.organization_id,
{
}

} // verus!

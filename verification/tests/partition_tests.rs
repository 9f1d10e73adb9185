use chrono::{Datelike, Duration, NaiveDate};
use dracula_tasks::calendar::{CalendarDate, Timestamp};
use dracula_tasks::events::{EmbeddedDynamicFormTask, EventEmailTask, EventTask};
use dracula_tasks::partitions::WeeklyPartition;

fn date(y: i32, m: u32, d: u32) -> CalendarDate {
    CalendarDate::from_ymd_opt(y, m, d).unwrap()
}

fn keys(ps: &[WeeklyPartition]) -> Vec<(i32, u32, u32, u32, u32)> {
    ps.iter().map(|p| (p.year, p.month, p.week, p.first_day.day, p.last_day.day)).collect()
}

#[test]
fn mid_month_run_exports_this_and_last_week() {
    let ps = EventTask::partitions(date(2023, 6, 15));
    assert_eq!(keys(&ps), vec![(2023, 6, 2, 8, 14), (2023, 6, 3, 15, 21)]);
    assert_eq!(ps[0].path, "/tmp/events_partitions-2023-6-2.parquet");
    assert_eq!(ps[1].path, "/tmp/events_partitions-2023-6-3.parquet");
    assert_eq!(ps[1].window_start, Timestamp::start_of_day_of(date(2023, 6, 15)));
    assert_eq!(ps[1].window_end, Timestamp::end_of_day_of(date(2023, 6, 21)));
}

#[test]
fn first_week_of_leap_march_exports_fifth_week_of_february() {
    let ps = EventTask::partitions(date(2024, 3, 5));
    assert_eq!(
        keys(&ps),
        vec![(2024, 2, 5, 29, 29), (2024, 2, 1, 1, 7), (2024, 3, 5, 29, 31), (2024, 3, 1, 1, 7)]
    );
}

#[test]
fn first_week_of_other_month_exports_fourth_week_of_previous_month() {
    let ps = EventTask::partitions(date(2023, 3, 7));
    assert_eq!(
        keys(&ps),
        vec![(2023, 2, 4, 22, 28), (2023, 2, 1, 1, 7), (2023, 3, 4, 22, 28), (2023, 3, 1, 1, 7)]
    );
    let ps = EventTask::partitions(date(2023, 5, 1));
    assert_eq!(
        keys(&ps),
        vec![(2023, 4, 4, 22, 28), (2023, 4, 1, 1, 7), (2023, 5, 4, 22, 28), (2023, 5, 1, 1, 7)]
    );
}

#[test]
fn first_week_of_january_runs_both_years() {
    let ps = EventTask::partitions(date(2023, 1, 3));
    assert_eq!(
        keys(&ps),
        vec![
            (2022, 12, 4, 22, 28),
            (2022, 12, 1, 1, 7),
            (2022, 1, 4, 22, 28),
            (2022, 1, 1, 1, 7),
            (2023, 12, 4, 22, 28),
            (2023, 12, 1, 1, 7),
            (2023, 1, 4, 22, 28),
            (2023, 1, 1, 1, 7),
        ]
    );
    assert_eq!(ps[0].path, "/tmp/events_partitions-2022-12-4.parquet");
}

#[test]
fn last_days_of_month_run_fourth_and_fifth_week() {
    let ps = EventTask::partitions(date(2023, 8, 31));
    assert_eq!(keys(&ps), vec![(2023, 8, 4, 22, 28), (2023, 8, 5, 29, 31)]);
    let ps = EventTask::partitions(date(2024, 2, 29));
    assert_eq!(keys(&ps), vec![(2024, 2, 4, 22, 28), (2024, 2, 5, 29, 29)]);
    let ps = EventTask::partitions(date(2023, 2, 28));
    assert_eq!(keys(&ps), vec![(2023, 2, 3, 15, 21), (2023, 2, 4, 22, 28)]);
}

#[test]
fn forms_are_planned_like_events_with_their_own_files() {
    for &(y, m, d) in &[(2023, 6, 15), (2024, 3, 5), (2023, 1, 3), (2023, 8, 31), (2024, 2, 29)] {
        let e = EventTask::partitions(date(y, m, d));
        let f = EmbeddedDynamicFormTask::partitions(date(y, m, d));
        assert_eq!(keys(&e), keys(&f));
        for p in &f {
            assert_eq!(
                p.path,
                format!("/tmp/embedded_dynamic_forms_partitions-{}-{}-{}.parquet", p.year, p.month, p.week)
            );
        }
    }
}

#[test]
fn every_day_of_a_year_plans_its_own_week_last() {
    let mut day = NaiveDate::from_ymd_opt(2024, 1, 1).unwrap();
    while day.year() == 2024 {
        let today = date(day.year(), day.month(), day.day());
        let ps = EventTask::partitions(today);
        let last = ps.last().unwrap();
        assert_eq!((last.year, last.month), (today.year, today.month));
        assert!(last.first_day.day <= today.day && today.day <= last.last_day.day);
        assert!(ps.len() == 2 || ps.len() == 4 || ps.len() == 8);
        let mut paths: Vec<&str> = ps.iter().map(|p| p.path.as_str()).collect();
        paths.sort();
        paths.dedup();
        assert_eq!(paths.len(), ps.len());
        for pair in ps.windows(2) {
            if (pair[0].year, pair[0].month) == (pair[1].year, pair[1].month) && pair[1].week == pair[0].week + 1 {
                assert_eq!(pair[0].last_day.day + 1, pair[1].first_day.day);
            }
        }
        day = day + Duration::days(1);
    }
}

#[test]
fn weekly_windows_cover_the_last_37_days_in_monday_weeks() {
    let today = NaiveDate::from_ymd_opt(2024, 5, 15).unwrap();
    let ws = EventEmailTask::weekly_windows(date(2024, 5, 15)).unwrap();
    let first_day = today - Duration::days(37);
    let mut start = first_day - Duration::days(first_day.weekday().num_days_from_monday() as i64);
    assert_eq!(ws.len(), 6);
    for w in &ws {
        let end = start + Duration::days(6);
        assert_eq!(w.start, date(start.year(), start.month(), start.day()));
        assert_eq!(w.end, date(end.year(), end.month(), end.day()));
        assert_eq!(start.weekday().num_days_from_monday(), 0);
        assert_eq!(
            w.path,
            format!("/tmp/events_emails_partitions-{}-{}-{}.parquet", start.year(), start.month(), start.day())
        );
        start = end + Duration::days(1);
    }
    assert_eq!(ws[0].path, "/tmp/events_emails_partitions-2024-4-8.parquet");
    assert_eq!(ws[5].window_end, Timestamp::end_of_day_of(date(2024, 5, 19)));
}

#[test]
fn weekly_windows_are_seven_when_the_first_day_ends_a_week() {
    // 2024-05-19 is a Sunday; 37 days before is Friday 2024-04-12.
    let ws = EventEmailTask::weekly_windows(date(2024, 5, 19)).unwrap();
    assert_eq!(ws.len(), 6);
    // 2024-05-18 (Saturday): 37 days before is Thursday 2024-04-11.
    // 2024-05-20 (Monday): 37 days before is Saturday 2024-04-13, seven weeks.
    let ws = EventEmailTask::weekly_windows(date(2024, 5, 20)).unwrap();
    assert_eq!(ws.len(), 7);
    assert_eq!(ws[0].start, date(2024, 4, 8));
    assert_eq!(ws[6].start, date(2024, 5, 20));
}

#[test]
fn weekly_windows_need_representable_dates() {
    assert!(EventEmailTask::weekly_windows(date(-262143, 1, 20)).is_none());
    assert!(EventEmailTask::weekly_windows(date(-262143, 3, 20)).is_some());
    assert!(EventEmailTask::weekly_windows(date(262142, 12, 31)).is_none());
}

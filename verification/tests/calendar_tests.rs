use chrono::{Datelike, NaiveDate};
use dracula_tasks::calendar::{days_in_month, is_leap_year, num_days_from_monday, CalendarDate, Timestamp};
use dracula_tasks::milestones::{date_at_or_placeholder, estimated_date_placeholder};

fn date(y: i32, m: u32, d: u32) -> CalendarDate {
    CalendarDate::from_ymd_opt(y, m, d).unwrap()
}

#[test]
fn from_ymd_opt_accepts_real_dates_only() {
    assert_eq!(CalendarDate::from_ymd_opt(2015, 3, 14), Some(CalendarDate { year: 2015, month: 3, day: 14 }));
    assert_eq!(CalendarDate::from_ymd_opt(2015, 0, 14), None);
    assert_eq!(CalendarDate::from_ymd_opt(2015, 2, 29), None);
    assert_eq!(CalendarDate::from_ymd_opt(2016, 2, 29), Some(CalendarDate { year: 2016, month: 2, day: 29 }));
    assert_eq!(CalendarDate::from_ymd_opt(-4, 2, 29), Some(CalendarDate { year: -4, month: 2, day: 29 }));
    assert_eq!(CalendarDate::from_ymd_opt(400000, 1, 1), None);
    assert_eq!(CalendarDate::from_ymd_opt(-400000, 1, 1), None);
    assert_eq!(CalendarDate::from_ymd_opt(262142, 12, 31), Some(CalendarDate { year: 262142, month: 12, day: 31 }));
    assert_eq!(CalendarDate::from_ymd_opt(262143, 1, 1), None);
    assert_eq!(CalendarDate::from_ymd_opt(-262143, 1, 1), Some(CalendarDate { year: -262143, month: 1, day: 1 }));
    assert_eq!(CalendarDate::from_ymd_opt(-262144, 12, 31), None);
    assert_eq!(CalendarDate::from_ymd_opt(2023, 4, 31), None);
}

#[test]
fn day_numbers_count_from_january_first_of_year_one() {
    assert_eq!(date(1970, 1, 1).num_days_from_ce(), 719_163);
    assert_eq!(date(2, 1, 1).num_days_from_ce(), 366);
    assert_eq!(date(1, 1, 1).num_days_from_ce(), 1);
    assert_eq!(date(0, 1, 1).num_days_from_ce(), -365);
    assert_eq!(date(1999, 9, 3).num_days_from_ce(), 730_000);
}

#[test]
fn day_numbers_match_the_closed_formula() {
    // days_before_year + days_before_month + day, with floor division.
    fn formula(y: i64, m: u32, d: u32) -> i64 {
        let y1 = y - 1;
        let mut n = 365 * y1 + y1.div_euclid(4) - y1.div_euclid(100) + y1.div_euclid(400);
        for k in 1..m {
            n += days_in_month(y as i32, k) as i64;
        }
        n + d as i64
    }
    for &(y, m, d) in &[(2024, 3, 5), (-1, 2, 28), (-400, 12, 31), (1600, 2, 29), (262142, 12, 31), (-262143, 1, 1)] {
        assert_eq!(date(y, m, d).num_days_from_ce() as i64, formula(y as i64, m, d));
    }
}

#[test]
fn day_numbers_convert_back_to_dates() {
    assert_eq!(CalendarDate::from_num_days_from_ce_opt(730_000), Some(date(1999, 9, 3)));
    assert_eq!(CalendarDate::from_num_days_from_ce_opt(1), Some(date(1, 1, 1)));
    assert_eq!(CalendarDate::from_num_days_from_ce_opt(0), Some(date(0, 12, 31)));
    assert_eq!(CalendarDate::from_num_days_from_ce_opt(-1), Some(date(0, 12, 30)));
    assert_eq!(CalendarDate::from_num_days_from_ce_opt(100_000_000), None);
    assert_eq!(CalendarDate::from_num_days_from_ce_opt(-100_000_000), None);
    let max = date(262142, 12, 31).num_days_from_ce();
    let min = date(-262143, 1, 1).num_days_from_ce();
    assert_eq!(CalendarDate::from_num_days_from_ce_opt(max), Some(date(262142, 12, 31)));
    assert_eq!(CalendarDate::from_num_days_from_ce_opt(max + 1), None);
    assert_eq!(CalendarDate::from_num_days_from_ce_opt(min), Some(date(-262143, 1, 1)));
    assert_eq!(CalendarDate::from_num_days_from_ce_opt(min - 1), None);
}

#[test]
fn weekdays_agree_with_chrono() {
    for &(y, m, d) in &[(1, 1, 1), (2024, 5, 15), (2023, 1, 1), (0, 12, 31), (-5, 7, 4), (1999, 12, 31)] {
        let n = date(y, m, d).num_days_from_ce();
        let expected = NaiveDate::from_ymd_opt(y, m, d).unwrap().weekday().num_days_from_monday();
        assert_eq!(num_days_from_monday(n as i64), expected);
    }
    assert_eq!(num_days_from_monday(1), 0);
    assert_eq!(num_days_from_monday(0), 6);
    assert_eq!(num_days_from_monday(-6), 0);
}

#[test]
fn leap_years_and_month_lengths() {
    assert!(is_leap_year(2024));
    assert!(!is_leap_year(2023));
    assert!(!is_leap_year(1900));
    assert!(is_leap_year(2000));
    assert!(is_leap_year(-4));
    assert!(!is_leap_year(-100));
    assert!(is_leap_year(-400));
    assert_eq!(days_in_month(2024, 2), 29);
    assert_eq!(days_in_month(2023, 2), 28);
    assert_eq!(days_in_month(2023, 4), 30);
    assert_eq!(days_in_month(2023, 12), 31);
    assert_eq!(days_in_month(2023, 8), 31);
    assert_eq!(days_in_month(2023, 13), 30);
}

#[test]
fn timestamps_compare_chronologically() {
    let a = Timestamp::start_of_day_of(date(2018, 6, 1));
    let b = Timestamp { date: date(2018, 6, 1), hour: 0, minute: 0, second: 0, nanosecond: 1 };
    let c = Timestamp::end_of_day_of(date(2018, 5, 31));
    assert!(b.is_after(&a));
    assert!(!a.is_after(&a));
    assert!(!c.is_after(&a));
    assert!(a.is_after(&c));
    assert_eq!(c, Timestamp { date: date(2018, 5, 31), hour: 23, minute: 59, second: 59, nanosecond: 999_999_999 });
}

#[test]
fn placeholders_stand_for_missing_dates() {
    assert_eq!(estimated_date_placeholder(None), date(1, 1, 1));
    assert_eq!(estimated_date_placeholder(Some(date(2022, 7, 9))), date(2022, 7, 9));
    assert_eq!(date_at_or_placeholder(None), Timestamp::start_of_day_of(date(1, 1, 1)));
    let t = Timestamp { date: date(2021, 2, 3), hour: 4, minute: 5, second: 6, nanosecond: 7 };
    assert_eq!(date_at_or_placeholder(Some(t)), t);
}

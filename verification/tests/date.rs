use calendar_tui::date::{days_in_month, naive_from_ymd, today_local, Date, WeekStart, Weekday};

#[test]
fn days_in_month_common_cases() {
    assert_eq!(days_in_month(2024, 2), 29);
    assert_eq!(days_in_month(2023, 2), 28);
    assert_eq!(days_in_month(2026, 5), 31);
    assert_eq!(days_in_month(2026, 4), 30);
}

#[test]
fn column_for_monday_week_start() {
    let start = WeekStart::Monday;
    assert_eq!(start.column_for(Weekday::Mon), 0);
    assert_eq!(start.column_for(Weekday::Sun), 6);
}

#[test]
fn column_for_sunday_week_start() {
    let start = WeekStart::Sunday;
    assert_eq!(start.column_for(Weekday::Sun), 0);
    assert_eq!(start.column_for(Weekday::Mon), 1);
    assert_eq!(start.column_for(Weekday::Sat), 6);
}

#[test]
fn column_for_each_week_start_on_may_2026_first() {
    let first = naive_from_ymd(2026, 5, 1).unwrap();
    let weekday = first.weekday();
    assert_eq!(weekday, Weekday::Fri);
    for start in WeekStart::ALL {
        let col = start.column_for(weekday);
        assert!(col < 7);
    }
}

#[test]
fn today_local_is_valid() {
    let today = today_local();
    assert!(today.year >= 2020);
    assert!(today.month >= 1 && today.month <= 12);
}

#[test]
fn days_in_month_century_rules() {
    assert_eq!(days_in_month(1900, 2), 28);
    assert_eq!(days_in_month(2000, 2), 29);
    assert_eq!(days_in_month(2100, 2), 28);
    assert_eq!(days_in_month(2026, 12), 31);
    assert_eq!(days_in_month(-4, 2), 29);
    // month 0 is December of the previous year
    assert_eq!(days_in_month(2026, 0), 31);
}

#[test]
fn naive_from_ymd_accepts_existing_dates_only() {
    assert_eq!(naive_from_ymd(2015, 3, 14), Some(Date { year: 2015, month: 3, day: 14 }));
    assert_eq!(naive_from_ymd(2015, 0, 14), None);
    assert_eq!(naive_from_ymd(2015, 2, 29), None);
    assert_eq!(naive_from_ymd(-4, 2, 29), Some(Date { year: -4, month: 2, day: 29 }));
    assert_eq!(naive_from_ymd(400000, 1, 1), None);
    assert_eq!(naive_from_ymd(-400000, 1, 1), None);
    assert_eq!(naive_from_ymd(262142, 12, 31), Some(Date { year: 262142, month: 12, day: 31 }));
    assert_eq!(naive_from_ymd(262143, 1, 1), None);
    assert_eq!(naive_from_ymd(-262143, 1, 1), Some(Date { year: -262143, month: 1, day: 1 }));
    assert_eq!(naive_from_ymd(-262144, 12, 31), None);
}

#[test]
fn week_start_rotates_columns() {
    let order = [
        Weekday::Mon,
        Weekday::Tue,
        Weekday::Wed,
        Weekday::Thu,
        Weekday::Fri,
        Weekday::Sat,
        Weekday::Sun,
    ];
    for start in WeekStart::ALL {
        assert_eq!(start.column_for(start.weekday()), 0);
        let mut seen = [false; 7];
        for w in order {
            let col = start.column_for(w) as usize;
            assert!(!seen[col]);
            seen[col] = true;
            assert_eq!(order[(start.days_from_monday() as usize + col) % 7], w);
        }
    }
    assert_eq!(WeekStart::Wednesday.days_from_monday(), 2);
    assert_eq!(Weekday::Thu.num_days_from_monday(), 3);
}

use fltk_calendar::date::{Date, MAX_YEAR, MIN_YEAR};
use fltk_calendar::date_grid::{
    days_in_month, weekday_name, weekday_of_first, DateGrid, GRID_CELLS, GRID_COLS, GRID_ROWS,
};

#[test]
fn february_has_29_days_in_years_divisible_by_four() {
    assert_eq!(days_in_month(2024, 2), 29);
    assert_eq!(days_in_month(2000, 2), 29);
    assert_eq!(days_in_month(0, 2), 29);
    assert_eq!(days_in_month(-4, 2), 29);
    for year in [2021, 2022, 2023, 2025, 1901, -1, -3] {
        assert_eq!(days_in_month(year, 2), 28, "year {year}");
    }
}

#[test]
fn february_of_a_century_year_is_taken_for_a_leap_month() {
    assert_eq!(days_in_month(1900, 2), 29);
    assert_eq!(days_in_month(2100, 2), 29);
}

#[test]
fn other_months_follow_the_fixed_table() {
    let table = [31, 0, 31, 30, 31, 30, 31, 31, 30, 31, 30, 31];
    for year in [1900, 1999, 2000, 2023, 2024, -400] {
        for month in 1..=12u32 {
            if month != 2 {
                assert_eq!(days_in_month(year, month), table[month as usize - 1]);
            }
        }
    }
}

#[test]
fn january_2024_begins_on_a_monday() {
    assert_eq!(weekday_of_first(2024, 1), 0);
}

#[test]
fn first_weekdays_of_known_months() {
    assert_eq!(weekday_of_first(2023, 12), 4);
    assert_eq!(weekday_of_first(2023, 7), 5);
    assert_eq!(weekday_of_first(2023, 10), 6);
    assert_eq!(weekday_of_first(2000, 1), 5);
    assert_eq!(weekday_of_first(1900, 1), 0);
    assert_eq!(weekday_of_first(2024, 2), 3);
    assert_eq!(weekday_of_first(2024, 3), 4);
    assert_eq!(weekday_of_first(1970, 1), 3);
}

#[test]
fn first_weekday_at_the_ends_of_the_calendar() {
    assert!(weekday_of_first(MIN_YEAR, 1) <= 6);
    assert!(weekday_of_first(MAX_YEAR, 12) <= 6);
}

#[test]
fn dates_exist_as_the_gregorian_calendar_has_them() {
    assert_eq!(Date::from_ymd_opt(2015, 3, 14), Some(Date { year: 2015, month: 3, day: 14 }));
    assert_eq!(Date::from_ymd_opt(2015, 0, 14), None);
    assert_eq!(Date::from_ymd_opt(2015, 13, 1), None);
    assert_eq!(Date::from_ymd_opt(2015, 3, 0), None);
    assert_eq!(Date::from_ymd_opt(2015, 2, 29), None);
    assert_eq!(Date::from_ymd_opt(2023, 4, 31), None);
    assert_eq!(Date::from_ymd_opt(2024, 2, 29), Some(Date { year: 2024, month: 2, day: 29 }));
    assert_eq!(Date::from_ymd_opt(2000, 2, 29), Some(Date { year: 2000, month: 2, day: 29 }));
    assert_eq!(Date::from_ymd_opt(1900, 2, 29), None);
    assert_eq!(Date::from_ymd_opt(2100, 2, 29), None);
    assert_eq!(Date::from_ymd_opt(-4, 2, 29), Some(Date { year: -4, month: 2, day: 29 }));
}

#[test]
fn dates_end_where_chrono_ends() {
    assert_eq!(MIN_YEAR, -262143);
    assert_eq!(MAX_YEAR, 262142);
    assert!(Date::from_ymd_opt(MAX_YEAR, 12, 31).is_some());
    assert!(Date::from_ymd_opt(MAX_YEAR + 1, 1, 1).is_none());
    assert!(Date::from_ymd_opt(MIN_YEAR, 1, 1).is_some());
    assert!(Date::from_ymd_opt(MIN_YEAR - 1, 12, 31).is_none());
    assert!(Date::from_ymd_opt(400000, 1, 1).is_none());
    assert!(Date::from_ymd_opt(-400000, 1, 1).is_none());
    assert!(Date::from_ymd_opt(i32::MAX, 1, 1).is_none());
    assert!(Date::from_ymd_opt(i32::MIN, 1, 1).is_none());
}

#[test]
fn grid_of_january_2024() {
    let grid = DateGrid::new(2024, 1);
    assert_eq!(grid, DateGrid { weekday_offset: 0, days_in_month: 31 });
    assert_eq!(grid.day_at(0, 0), Some(1));
    assert_eq!(grid.day_at(0, 6), Some(7));
    assert_eq!(grid.day_at(1, 0), Some(8));
    assert_eq!(grid.day_at(4, 2), Some(31));
    assert_eq!(grid.day_at(4, 3), None);
    assert_eq!(grid.day_at(4, 6), None);
}

#[test]
fn grid_of_february() {
    let leap = DateGrid::new(2024, 2);
    assert_eq!(leap.days_in_month, 29);
    assert_eq!(leap.day_at(4, 0), Some(29));
    assert_eq!(leap.day_at(4, 1), None);
    let common = DateGrid::new(2023, 2);
    assert_eq!(common.days_in_month, 28);
    assert_eq!(common.day_at(3, 6), Some(28));
    assert_eq!(common.day_at(4, 0), None);
}

#[test]
fn nothing_is_shown_outside_the_grid() {
    let grid = DateGrid::new(2023, 7);
    assert_eq!(grid.day_at(-1, 0), None);
    assert_eq!(grid.day_at(0, -1), None);
    assert_eq!(grid.day_at(0, 7), None);
    assert_eq!(grid.day_at(5, 0), None);
    assert_eq!(grid.day_at(i32::MAX, i32::MAX), None);
    assert_eq!(grid.day_at(i32::MIN, i32::MIN), None);
}

#[test]
fn no_cell_shows_a_number_above_35() {
    // July 2023 begins on a Saturday and has 31 days.
    let grid = DateGrid::new(2023, 7);
    assert_eq!(grid, DateGrid { weekday_offset: 5, days_in_month: 31 });
    let mut shown = Vec::new();
    for row in -2..10 {
        for col in -2..10 {
            if let Some(day) = grid.day_at(row, col) {
                assert!(0 <= row && row < GRID_ROWS && 0 <= col && col < GRID_COLS);
                assert!(1 <= day && day <= GRID_CELLS as u32);
                shown.push(day);
            }
        }
    }
    assert_eq!(shown, (1..=31).collect::<Vec<u32>>());
    assert_eq!(grid.day_at(5, 0), None);
}

#[test]
fn headers_turn_with_the_first_weekday() {
    let monday = DateGrid::new(2024, 1);
    for col in 0..7 {
        assert_eq!(monday.header(col), col as u32);
    }
    let saturday = DateGrid::new(2023, 7);
    assert_eq!(saturday.header(0), 5);
    assert_eq!(saturday.header(1), 6);
    assert_eq!(saturday.header(2), 0);
    assert_eq!(saturday.header(6), 4);
    let sunday = DateGrid { weekday_offset: 6, days_in_month: 31 };
    assert_eq!(sunday.header(0), 6);
    assert_eq!(sunday.header(1), 0);
    assert_eq!(sunday.header(6), 5);
}

#[test]
fn every_day_stands_under_its_weekday() {
    for (year, month) in [(2024, 1), (2024, 2), (2023, 7), (1999, 12), (2000, 2)] {
        let grid = DateGrid::new(year, month);
        for row in 0..GRID_ROWS {
            for col in 0..GRID_COLS {
                if let Some(day) = grid.day_at(row, col) {
                    let date = chrono::NaiveDate::from_ymd_opt(year, month, day).unwrap();
                    let weekday = chrono::Datelike::weekday(&date).num_days_from_monday();
                    assert_eq!(grid.header(col), weekday);
                }
            }
        }
    }
}

#[test]
fn weekday_names() {
    let names: Vec<&str> = (0..7).map(weekday_name).collect();
    assert_eq!(names, ["Mon", "Tue", "Wed", "Thu", "Fri", "Sat", "Sun"]);
}

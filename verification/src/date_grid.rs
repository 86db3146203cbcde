//! The month grid: month lengths, weekday alignment and the mapping from
//! table cells to day numbers.
//!
//! Day 1 always stands in the first cell. The headers turn instead: the
//! first column is headed by the weekday of day 1, the next by the day after
//! it, and so on round the week.

use vstd::prelude::*;
use vstd::pervasive::unreached;
use crate::date::{is_calendar_date, lookup_weekday, weekday_number, MAX_YEAR, MIN_YEAR};

verus! {

/// Number of rows of day cells.
pub const GRID_ROWS: i32 = 5;

/// Number of columns of day cells, one per weekday.
pub const GRID_COLS: i32 = 7;

/// Number of cells, and so the largest day number a cell can stand for.
pub const GRID_CELLS: i32 = 35;

/// Month lengths of a year that is not divisible by four, January first.
pub open spec fn common_year_lengths() -> Seq<int> {
    seq![31, 28, 31, 30, 31, 30, 31, 31, 30, 31, 30, 31]
}

/// Length of a month under the grid's leap rule: February has 29 days in
/// every year divisible by four, century years included.
pub open spec fn month_length(year: int, month: int) -> int
    recommends
        1 <= month <= 12,
{
    if month == 2 && year % 4 == 0 {
        29
    } else {
        common_year_lengths()[month - 1]
    }
}

/// Number of days the grid shows for `month` of `year`.
pub fn days_in_month(year: i32, month: u32) -> (days: u32)
    requires
        1 <= month <= 12,
    ensures
        days == month_length(year as int, month as int),
        month == 2 ==> days == (if year as int % 4 == 0 {
            29int
        } else {
            28int
        }),
        28 <= days <= 31,
{
    match month {
        1 => 31,
        2 => {
            if year % 4 == 0 {
                29
            } else {
                28
            }
        },
        3 => 31,
        4 => 30,
        5 => 31,
        6 => 30,
        7 => 31,
        8 => 31,
        9 => 30,
        10 => 31,
        11 => 30,
        _ => 31,
    }
}

/// February has 29 days exactly in the years divisible by four, and 28 in
/// all others.
pub proof fn lemma_february_length(year: int)
    ensures
        year % 4 == 0 ==> month_length(year, 2) == 29,
        year % 4 != 0 ==> month_length(year, 2) == 28,
{
}

/// Every month but February has the same length in every year: 30 days
/// for April, June, September and November, 31 for the other seven.
pub proof fn lemma_fixed_month_lengths(year: int, month: int)
    requires
        1 <= month <= 12,
        month != 2,
    ensures
        month_length(year, month) == (if month == 4 || month == 6 || month == 9 || month == 11 {
            30int
        } else {
            31int
        }),
        month_length(year, month) == month_length(0, month),
{
}

/// The weekday of day 1 of a month, 0 for Monday up to 6 for Sunday.
pub open spec fn first_weekday(year: int, month: int) -> int {
    weekday_number(year, month, 1)
}

/// The weekday on which `month` of `year` begins, 0 for Monday up to 6
/// for Sunday.
pub fn weekday_of_first(year: i32, month: u32) -> (first: u32)
    requires
        1 <= month <= 12,
        MIN_YEAR <= year <= MAX_YEAR,
    ensures
        first == first_weekday(year as int, month as int),
        first <= 6,
{
    assert(is_calendar_date(year as int, month as int, 1));
    match lookup_weekday(year, month, 1) {
        Some(first) => first,
        None => unreached(),
    }
}

/// The weekday that heads column `col` in a month that begins on weekday
/// `first`.
pub open spec fn header_weekday(col: int, first: int) -> int {
    (col + first) % 7
}

/// Whether `row` and `col` name a cell of the grid.
pub open spec fn in_grid(row: int, col: int) -> bool {
    0 <= row < GRID_ROWS && 0 <= col < GRID_COLS
}

/// The day number that a cell stands for.
pub open spec fn cell_number(row: int, col: int) -> int {
    row * 7 + col + 1
}

/// What one month looks like in the grid. It is worked out from the year
/// and the month whenever it is needed.
#[derive(Clone, Copy, Debug, PartialEq, Eq, Structural)]
pub struct DateGrid {
    /// Weekday of day 1, 0 for Monday up to 6 for Sunday.
    pub weekday_offset: u32,
    /// Number of days that get a cell.
    pub days_in_month: u32,
}

impl DateGrid {
    /// The offset is a weekday and the length is that of some month.
    pub open spec fn wf(&self) -> bool {
        self.weekday_offset <= 6 && 28 <= self.days_in_month <= 31
    }

    /// The grid of `month` in `year`.
    pub open spec fn spec_of(year: int, month: int) -> DateGrid {
        DateGrid {
            weekday_offset: first_weekday(year, month) as u32,
            days_in_month: month_length(year, month) as u32,
        }
    }

    /// The day in a cell: `row * 7 + col + 1` where that is a day of the
    /// month, nothing in the cells after the last day and outside the grid.
    pub open spec fn spec_day_at(&self, row: int, col: int) -> Option<u32> {
        if in_grid(row, col) && cell_number(row, col) <= self.days_in_month {
            Some(cell_number(row, col) as u32)
        } else {
            None
        }
    }

    /// Works out the grid of `month` in `year`.
    pub fn new(year: i32, month: u32) -> (grid: DateGrid)
        requires
            1 <= month <= 12,
            MIN_YEAR <= year <= MAX_YEAR,
        ensures
            grid == Self::spec_of(year as int, month as int),
            grid.weekday_offset == first_weekday(year as int, month as int),
            grid.days_in_month == month_length(year as int, month as int),
            grid.wf(),
    {
        DateGrid {
            weekday_offset: weekday_of_first(year, month),
            days_in_month: days_in_month(year, month),
        }
    }

    /// The day that the cell in `row` and `col` shows, if it shows one.
    pub fn day_at(&self, row: i32, col: i32) -> (day: Option<u32>)
        ensures
            day == self.spec_day_at(row as int, col as int),
    {
        if 0 <= row && row < GRID_ROWS && 0 <= col && col < GRID_COLS {
            let number: i32 = row * 7 + col + 1;
            if number as u32 <= self.days_in_month {
                Some(number as u32)
            } else {
                None
            }
        } else {
            None
        }
    }

    /// The weekday that heads column `col`: the weekday of day 1 over the
    /// first column, and one day later with each column to the right.
    pub fn header(&self, col: i32) -> (weekday: u32)
        requires
            self.weekday_offset <= 6,
            0 <= col < GRID_COLS,
        ensures
            weekday == header_weekday(col as int, self.weekday_offset as int),
            weekday <= 6,
    {
        let index: u32 = col as u32 + self.weekday_offset;
        if index > 6 {
            index - 7
        } else {
            index
        }
    }

    /// No cell shows a number above 35, nor above the length of the month,
    /// and a cell that shows a day lies in one of the five rows.
    pub proof fn lemma_shown_days_bounded(&self, row: int, col: int)
        requires
            self.spec_day_at(row, col) is Some,
        ensures
            in_grid(row, col),
            1 <= self.spec_day_at(row, col).unwrap() <= self.days_in_month,
            self.spec_day_at(row, col).unwrap() <= GRID_CELLS,
            self.spec_day_at(row, col).unwrap() == cell_number(row, col),
    {
    }

    /// Every day of the month is shown, in one cell only: day `d` stands
    /// in row `(d - 1) / 7` and column `(d - 1) % 7`.
    pub proof fn lemma_each_day_has_one_cell(&self, day: int)
        requires
            self.wf(),
            1 <= day <= self.days_in_month,
        ensures
            self.spec_day_at((day - 1) / 7, (day - 1) % 7) == Some(day as u32),
            forall|row: int, col: int|
                self.spec_day_at(row, col) == Some(day as u32) ==> row == (day - 1) / 7 && col == (
                day - 1) % 7,
    {
        assert forall|row: int, col: int| self.spec_day_at(row, col) == Some(day as u32) implies row
            == (day - 1) / 7 && col == (day - 1) % 7 by {
            assert(cell_number(row, col) == day);
        }
    }

    /// Going one column to the right moves the header one weekday on, and
    /// the seventh column is headed by the day before the first.
    pub proof fn lemma_headers_follow_the_week(&self, col: int)
        requires
            self.weekday_offset <= 6,
            0 <= col < GRID_COLS - 1,
        ensures
            header_weekday(0, self.weekday_offset as int) == self.weekday_offset,
            header_weekday(col + 1, self.weekday_offset as int) == (header_weekday(
                col,
                self.weekday_offset as int,
            ) + 1) % 7,
    {
    }
}

/// The short English name of a weekday, `Mon` for 0 up to `Sun` for 6.
pub open spec fn spec_weekday_name(weekday: int) -> Seq<char> {
    if weekday == 0 {
        "Mon"@
    } else if weekday == 1 {
        "Tue"@
    } else if weekday == 2 {
        "Wed"@
    } else if weekday == 3 {
        "Thu"@
    } else if weekday == 4 {
        "Fri"@
    } else if weekday == 5 {
        "Sat"@
    } else {
        "Sun"@
    }
}

/// The text of a column header.
pub fn weekday_name(weekday: u32) -> (name: &'static str)
    requires
        weekday <= 6,
    ensures
        name@ == spec_weekday_name(weekday as int),
{
    match weekday {
        0 => "Mon",
        1 => "Tue",
        2 => "Wed",
        3 => "Thu",
        4 => "Fri",
        5 => "Sat",
        _ => "Sun",
    }
}

} // verus!

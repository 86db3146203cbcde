//! The dialog: what it remembers, how it answers the events of its three
//! widgets, what it asks to be painted, and the date it gives in the end.

use vstd::prelude::*;
use crate::clock::local_year_and_month;
use crate::date::{is_leap_year, Date, MAX_YEAR, MIN_YEAR};
use crate::date_grid::{
    cell_number, days_in_month, first_weekday, header_weekday, in_grid, month_length,
    spec_weekday_name, weekday_name, DateGrid, GRID_CELLS, GRID_COLS, GRID_ROWS,
};
use crate::paint::{data_paint, draw_data, draw_header, header_paint, CellPaint};

verus! {

/// The first year that the year menu offers. The menu's entries are counted
/// from it.
pub const EPOCH_BASE: i32 = 1900;

/// Size of the font that the table is drawn in.
pub const FONT_SIZE: i32 = 14;

/// The part of the table that is to be drawn.
#[derive(Clone, Copy, Debug, PartialEq, Eq, Structural)]
pub enum TableContext {
    /// Drawing of the table begins.
    StartPage,
    /// The header over a column.
    ColHeader,
    /// A cell of the grid.
    Cell,
    /// Anything else.
    Other,
}

/// What the user did.
#[derive(Clone, Copy, Debug, PartialEq, Eq, Structural)]
pub enum Event {
    /// An entry of the month menu was chosen; 0 is January.
    MonthChosen(i32),
    /// An entry of the year menu was chosen; 0 is the year `EPOCH_BASE`.
    YearChosen(i32),
    /// A cell of the table was clicked, once or twice.
    CellClicked { row: i32, col: i32, double: bool },
    /// The window was closed.
    WindowClosed,
}

/// What the front end has to do after an event.
#[derive(Clone, Copy, Debug, PartialEq, Eq, Structural)]
pub enum Action {
    /// Draw the table again.
    Redraw,
    /// Hide the window and stop waiting for events.
    Close,
    /// Nothing.
    Ignore,
}

/// What the front end has to draw for one part of the table.
#[derive(Debug)]
pub enum Drawing {
    /// Choose the table's font, Helvetica in the given size.
    SetFont(i32),
    /// Paint one cell.
    Cell(CellPaint),
    /// Leave the place empty.
    Nothing,
}

/// The dialog as contracts see it.
pub struct CalendarState {
    /// Where the window was asked to open.
    pub x: int,
    pub y: int,
    /// Whether the window manager may place the window where it likes.
    pub free_position: bool,
    /// The last year in the year menu: the year in which the dialog opened.
    pub last_year: int,
    /// The chosen year, counted from `EPOCH_BASE`.
    pub selected_year: int,
    /// The chosen month, 1 to 12.
    pub selected_month: int,
    /// Row and column of the chosen cell, if one was chosen.
    pub selection: Option<(int, int)>,
    /// Whether the dialog is still open.
    pub open: bool,
}

impl CalendarState {
    /// The month is one of the twelve and a chosen cell lies in the grid.
    pub open spec fn wf(self) -> bool {
        &&& 1 <= self.selected_month <= 12
        &&& self.selection matches Some((row, col)) ==> in_grid(row, col)
    }

    /// The chosen year.
    pub open spec fn year(self) -> int {
        EPOCH_BASE + self.selected_year
    }

    /// The day number of the chosen cell.
    pub open spec fn selected_day(self) -> Option<int> {
        match self.selection {
            Some((row, col)) => Some(cell_number(row, col)),
            None => None,
        }
    }

    /// The column of the chosen cell.
    pub open spec fn selected_column(self) -> Option<int> {
        match self.selection {
            Some((_, col)) => Some(col),
            None => None,
        }
    }

    /// Number of entries in the year menu: the years from `EPOCH_BASE` to
    /// the year in which the dialog opened.
    pub open spec fn year_count(self) -> int {
        if self.last_year >= EPOCH_BASE {
            self.last_year - EPOCH_BASE + 1
        } else {
            0
        }
    }

    /// Whether the cell shows a day of the chosen month. Only such a cell
    /// can be chosen.
    pub open spec fn shows_day(self, row: int, col: int) -> bool {
        in_grid(row, col) && cell_number(row, col) <= month_length(self.year(), self.selected_month)
    }

    /// A dialog that has just opened: on the month of today, with nothing
    /// chosen.
    pub open spec fn opened(x: int, y: int, today_year: int, today_month: int) -> CalendarState {
        CalendarState {
            x,
            y,
            free_position: false,
            last_year: today_year,
            selected_year: today_year - EPOCH_BASE,
            selected_month: today_month,
            selection: None,
            open: true,
        }
    }

    /// Whether the widgets can send this event: a menu only sends the
    /// index of one of its entries.
    pub open spec fn accepts(self, event: Event) -> bool {
        match event {
            Event::MonthChosen(index) => 0 <= index < 12,
            Event::YearChosen(index) => 0 <= index < self.year_count(),
            _ => true,
        }
    }

    /// The dialog after an event. A closed dialog stays as it is. The menus
    /// change the month and the year and leave the chosen cell alone, also
    /// where the new month has no such day. A click chooses the cell if it
    /// shows a day, and a double click then closes the dialog.
    pub open spec fn step(self, event: Event) -> CalendarState {
        if !self.open {
            self
        } else {
            match event {
                Event::MonthChosen(index) => CalendarState { selected_month: index + 1, ..self },
                Event::YearChosen(index) => CalendarState { selected_year: index as int, ..self },
                Event::CellClicked { row, col, double } => {
                    if self.shows_day(row as int, col as int) {
                        CalendarState {
                            selection: Some((row as int, col as int)),
                            open: !double,
                            ..self
                        }
                    } else {
                        self
                    }
                },
                Event::WindowClosed => CalendarState { open: false, ..self },
            }
        }
    }

    /// What the front end is told to do after an event.
    pub open spec fn action(self, event: Event) -> Action {
        if !self.open {
            Action::Ignore
        } else {
            match event {
                Event::MonthChosen(_) => Action::Redraw,
                Event::YearChosen(_) => Action::Redraw,
                Event::CellClicked { row, col, double } => {
                    if !self.shows_day(row as int, col as int) {
                        Action::Ignore
                    } else if double {
                        Action::Close
                    } else {
                        Action::Redraw
                    }
                },
                Event::WindowClosed => Action::Close,
            }
        }
    }

    /// The dialog after a run of events, the first event first.
    pub open spec fn run(self, events: Seq<Event>) -> CalendarState
        decreases events.len(),
    {
        if events.len() == 0 {
            self
        } else {
            self.run(events.drop_last()).step(events.last())
        }
    }

    /// The date that the dialog gives: none while no cell is chosen, else
    /// the day of the chosen cell in the chosen month and year, if the
    /// calendar has that day.
    pub open spec fn selected_date(self) -> Option<Date> {
        match self.selection {
            Some((row, col)) => Date::spec_from_ymd(
                self.year(),
                self.selected_month,
                cell_number(row, col),
            ),
            None => None,
        }
    }

    /// Whether `drawing` is what the dialog asks for at one part of the
    /// table. The font is chosen when the page starts. A header names the
    /// weekday under which the days of its column fall. A cell that shows
    /// a day gets the day's number, on the ground of the chosen cell if it
    /// is the chosen one. Every other place stays empty, also the headers
    /// of a year for which the calendar has no dates.
    pub open spec fn asks_for(
        self,
        ctx: TableContext,
        row: int,
        col: int,
        x: i32,
        y: i32,
        w: i32,
        h: i32,
        drawing: Drawing,
    ) -> bool {
        match ctx {
            TableContext::StartPage => drawing == Drawing::SetFont(FONT_SIZE),
            TableContext::ColHeader => {
                if 0 <= col < GRID_COLS && MIN_YEAR <= self.year() <= MAX_YEAR {
                    drawing matches Drawing::Cell(paint) && header_paint(
                        spec_weekday_name(
                            header_weekday(col, first_weekday(self.year(), self.selected_month)),
                        ),
                        x,
                        y,
                        w,
                        h,
                        paint,
                    )
                } else {
                    drawing is Nothing
                }
            },
            TableContext::Cell => {
                if self.shows_day(row, col) {
                    drawing matches Drawing::Cell(paint) && data_paint(
                        cell_number(row, col) as u32,
                        x,
                        y,
                        w,
                        h,
                        self.selection == Some((row, col)),
                        paint,
                    )
                } else {
                    drawing is Nothing
                }
            },
            TableContext::Other => drawing is Nothing,
        }
    }

    /// Every event leaves a well-formed dialog well-formed.
    pub proof fn lemma_step_keeps_wf(self, event: Event)
        requires
            self.wf(),
            self.accepts(event),
        ensures
            self.step(event).wf(),
    {
    }

    /// Choosing a month or a year keeps the chosen cell, whatever the new
    /// month is.
    pub proof fn lemma_menus_keep_selection(self, index: i32)
        ensures
            self.step(Event::MonthChosen(index)).selection == self.selection,
            self.step(Event::YearChosen(index)).selection == self.selection,
            self.step(Event::MonthChosen(index)).selected_day() == self.selected_day(),
            self.step(Event::MonthChosen(index)).selected_column() == self.selected_column(),
    {
    }

    /// A cell that was clicked stays chosen when the month is changed
    /// afterwards, and the date is then taken in the new month: there is
    /// none if the new month is too short for the day.
    pub proof fn lemma_selection_outlives_month(self, row: i32, col: i32, index: i32)
        requires
            self.open,
            self.shows_day(row as int, col as int),
            0 <= index < 12,
        ensures
            self.step(Event::CellClicked { row, col, double: false }).step(
                Event::MonthChosen(index),
            ).selection == Some((row as int, col as int)),
            self.step(Event::CellClicked { row, col, double: false }).step(
                Event::MonthChosen(index),
            ).selected_date() == Date::spec_from_ymd(
                self.year(),
                index + 1,
                cell_number(row as int, col as int),
            ),
    {
    }

    /// Clicking a cell that shows a day, once or twice, makes that day of
    /// the chosen month and year the dialog's date. This holds in the
    /// years that the calendar covers, but for the 29th of February in a
    /// year that the grid takes for a leap year and the calendar does not.
    pub proof fn lemma_click_gives_date(self, row: i32, col: i32, double: bool)
        requires
            self.wf(),
            self.open,
            self.shows_day(row as int, col as int),
            MIN_YEAR <= self.year() <= MAX_YEAR,
            !(self.selected_month == 2 && cell_number(row as int, col as int) == 29
                && !is_leap_year(self.year())),
        ensures
            self.step(Event::CellClicked { row, col, double }).selected_date() == Some(
                Date {
                    year: self.year() as i32,
                    month: self.selected_month as u32,
                    day: cell_number(row as int, col as int) as u32,
                },
            ),
    {
    }

    /// The grid shows a 29th of February in every year divisible by four.
    /// In those of them that are no leap years, such as 1900, clicking it
    /// chooses the cell and still gives no date.
    pub proof fn lemma_click_on_missing_leap_day(self, double: bool)
        requires
            self.wf(),
            self.open,
            self.selected_month == 2,
            self.year() % 4 == 0,
            !is_leap_year(self.year()),
        ensures
            self.shows_day(4, 0),
            cell_number(4, 0) == 29,
            self.step(Event::CellClicked { row: 4, col: 0, double }).selection == Some(
                (4int, 0int),
            ),
            self.step(Event::CellClicked { row: 4, col: 0, double }).selected_date() is None,
    {
    }

    /// While no cell is chosen the dialog gives no date.
    pub proof fn lemma_no_selection_no_date(self)
        requires
            self.selection is None,
        ensures
            self.selected_date() is None,
    {
    }

    /// A run of events without a click on a cell that shows a day chooses
    /// no cell: a dialog that had no date before has none after it.
    pub proof fn lemma_no_click_no_date(self, events: Seq<Event>)
        requires
            self.selection is None,
            forall|i: int|
                0 <= i < events.len() ==> !(#[trigger] events[i] matches Event::CellClicked {
                    row,
                    col,
                    ..
                } && self.run(events.take(i)).shows_day(row as int, col as int)),
        ensures
            self.run(events).selection is None,
            self.run(events).selected_date() is None,
        decreases events.len(),
    {
        if events.len() > 0 {
            let before = events.drop_last();
            assert forall|i: int| 0 <= i < before.len() implies !(#[trigger] before[i]
                matches Event::CellClicked { row, col, .. } && self.run(before.take(i)).shows_day(
                row as int,
                col as int,
            )) by {
                assert(before[i] == events[i]);
                assert(before.take(i) =~= events.take(i));
            }
            self.lemma_no_click_no_date(before);
            assert(events.take(events.len() - 1) =~= before);
            assert(events[events.len() - 1] == events.last());
        }
    }

    /// A dialog that has just opened gives no date, and neither does it
    /// after any run of events without a click on a cell.
    pub proof fn lemma_opened_without_click(
        x: int,
        y: int,
        today_year: int,
        today_month: int,
        events: Seq<Event>,
    )
        requires
            forall|i: int| 0 <= i < events.len() ==> !(#[trigger] events[i] is CellClicked),
        ensures
            Self::opened(x, y, today_year, today_month).selected_date() is None,
            Self::opened(x, y, today_year, today_month).run(events).selected_date() is None,
    {
        Self::opened(x, y, today_year, today_month).lemma_no_click_no_date(events);
    }

    /// The chosen cell always stands for a number from 1 to 35. A click
    /// on a cell that shows no day, or outside the grid, changes nothing.
    pub proof fn lemma_only_shown_days_are_chosen(self, row: i32, col: i32, double: bool)
        requires
            self.wf(),
        ensures
            self.selected_day() matches Some(day) ==> 1 <= day <= GRID_CELLS,
            !self.shows_day(row as int, col as int) ==> self.step(
                Event::CellClicked { row, col, double },
            ) == self,
            self.shows_day(row as int, col as int) ==> cell_number(row as int, col as int)
                <= month_length(self.year(), self.selected_month) <= 31,
    {
    }

    /// The dialog shows a day in a cell exactly where the grid of the
    /// chosen month has one, and it is the same day.
    pub proof fn lemma_shows_what_the_grid_has(self, row: int, col: int)
        requires
            self.wf(),
        ensures
            self.shows_day(row, col) <==> DateGrid::spec_of(
                self.year(),
                self.selected_month,
            ).spec_day_at(row, col) is Some,
            self.shows_day(row, col) ==> DateGrid::spec_of(
                self.year(),
                self.selected_month,
            ).spec_day_at(row, col) == Some(cell_number(row, col) as u32),
    {
    }

    /// Once closed, a dialog no longer changes.
    pub proof fn lemma_closed_is_final(self, events: Seq<Event>)
        requires
            !self.open,
        ensures
            self.run(events) == self,
        decreases events.len(),
    {
        if events.len() > 0 {
            self.lemma_closed_is_final(events.drop_last());
        }
    }
}

/// A calendar dialog.
#[derive(Debug)]
pub struct Calendar {
    x: i32,
    y: i32,
    free_position: bool,
    last_year: i32,
    year: i32,
    month: u32,
    selection: Option<(i32, i32)>,
    open: bool,
}

impl View for Calendar {
    type V = CalendarState;

    closed spec fn view(&self) -> CalendarState {
        CalendarState {
            x: self.x as int,
            y: self.y as int,
            free_position: self.free_position,
            last_year: self.last_year as int,
            selected_year: self.year - EPOCH_BASE,
            selected_month: self.month as int,
            selection: match self.selection {
                Some((row, col)) => Some((row as int, col as int)),
                None => None,
            },
            open: self.open,
        }
    }
}

impl Calendar {
    /// What holds of every dialog that this library hands out.
    pub open spec fn wf(&self) -> bool {
        self@.wf()
    }

    /// Opens a dialog at the given place, on the month in which the local
    /// clock stands, with nothing chosen.
    pub fn new(x: i32, y: i32) -> (cal: Calendar)
        ensures
            cal@ == CalendarState::opened(x as int, y as int, cal@.last_year, cal@.selected_month),
            cal.wf(),
    {
        let (year, month) = local_year_and_month();
        Calendar::opened_on(x, y, year, month)
    }

    /// Opens a dialog at the given place on the month that is named as
    /// today's.
    pub fn opened_on(x: i32, y: i32, today_year: i32, today_month: u32) -> (cal: Calendar)
        requires
            1 <= today_month <= 12,
        ensures
            cal@ == CalendarState::opened(
                x as int,
                y as int,
                today_year as int,
                today_month as int,
            ),
            cal.wf(),
    {
        Calendar {
            x,
            y,
            free_position: false,
            last_year: today_year,
            year: today_year,
            month: today_month,
            selection: None,
            open: true,
        }
    }

    /// Opens a dialog that the window manager may place where it likes.
    pub fn default() -> (cal: Calendar)
        ensures
            cal@ == (CalendarState {
                free_position: true,
                ..CalendarState::opened(0, 0, cal@.last_year, cal@.selected_month)
            }),
            cal.wf(),
    {
        let mut cal = Calendar::new(0, 0);
        cal.free_position = true;
        cal
    }

    /// The date that was chosen: `None` if no cell was ever chosen, or if
    /// the chosen month no longer has the day of the chosen cell.
    pub fn get_date(&self) -> (date: Option<Date>)
        requires
            self.wf(),
        ensures
            date == self@.selected_date(),
            self@.selection is None ==> date is None,
            date matches Some(d) ==> d.is_valid() && d.year == self@.year() && d.month
                == self@.selected_month && Some(d.day as int) == self@.selected_day(),
    {
        match self.selection {
            None => None,
            Some((row, col)) => {
                let day: i32 = row * 7 + col + 1;
                Date::from_ymd_opt(self.year, self.month, day as u32)
            },
        }
    }

    /// Takes an event from the widgets, changes the dialog accordingly and
    /// says what the front end has to do.
    pub fn handle(&mut self, event: Event) -> (action: Action)
        requires
            old(self).wf(),
            old(self)@.accepts(event),
        ensures
            final(self)@ == old(self)@.step(event),
            action == old(self)@.action(event),
            final(self).wf(),
    {
        if !self.open {
            return Action::Ignore;
        }
        match event {
            Event::MonthChosen(index) => {
                self.month = (index + 1) as u32;
                Action::Redraw
            },
            Event::YearChosen(index) => {
                self.year = EPOCH_BASE + index;
                Action::Redraw
            },
            Event::CellClicked { row, col, double } => {
                if self.shows_day(row, col) {
                    self.selection = Some((row, col));
                    if double {
                        self.open = false;
                        Action::Close
                    } else {
                        Action::Redraw
                    }
                } else {
                    Action::Ignore
                }
            },
            Event::WindowClosed => {
                self.open = false;
                Action::Close
            },
        }
    }

    /// Whether the cell in `row` and `col` shows a day of the chosen month.
    pub fn shows_day(&self, row: i32, col: i32) -> (shown: bool)
        requires
            self.wf(),
        ensures
            shown == self@.shows_day(row as int, col as int),
    {
        if 0 <= row && row < GRID_ROWS && 0 <= col && col < GRID_COLS {
            let day: i32 = row * 7 + col + 1;
            day as u32 <= days_in_month(self.year, self.month)
        } else {
            false
        }
    }

    /// What is to be drawn at one part of the table, in the rectangle
    /// `x`, `y`, `w`, `h`.
    pub fn draw_cell(
        &self,
        ctx: TableContext,
        row: i32,
        col: i32,
        x: i32,
        y: i32,
        w: i32,
        h: i32,
    ) -> (drawing: Drawing)
        requires
            self.wf(),
        ensures
            self@.asks_for(ctx, row as int, col as int, x, y, w, h, drawing),
    {
        match ctx {
            TableContext::StartPage => Drawing::SetFont(FONT_SIZE),
            TableContext::ColHeader => {
                if 0 <= col && col < GRID_COLS && MIN_YEAR <= self.year && self.year <= MAX_YEAR {
                    let grid = DateGrid::new(self.year, self.month);
                    let day = weekday_name(grid.header(col));
                    Drawing::Cell(draw_header(day, x, y, w, h))
                } else {
                    Drawing::Nothing
                }
            },
            TableContext::Cell => {
                if self.shows_day(row, col) {
                    let day: i32 = row * 7 + col + 1;
                    let selected = match self.selection {
                        Some((r, c)) => r == row && c == col,
                        None => false,
                    };
                    Drawing::Cell(draw_data(day as u32, x, y, w, h, selected))
                } else {
                    Drawing::Nothing
                }
            },
            TableContext::Other => Drawing::Nothing,
        }
    }

    /// Whether the dialog is still open.
    pub fn is_open(&self) -> (open: bool)
        ensures
            open == self@.open,
    {
        self.open
    }

    /// The chosen year.
    pub fn year(&self) -> (year: i32)
        ensures
            year == self@.year(),
    {
        self.year
    }

    /// The chosen month, 1 to 12.
    pub fn month(&self) -> (month: u32)
        ensures
            month == self@.selected_month,
    {
        self.month
    }

    /// Row and column of the chosen cell.
    pub fn selection(&self) -> (cell: Option<(i32, i32)>)
        ensures
            match cell {
                Some((row, col)) => self@.selection == Some((row as int, col as int)),
                None => self@.selection is None,
            },
    {
        self.selection
    }

    /// Where the window is to open: `None` if the window manager may
    /// place it.
    pub fn position(&self) -> (place: Option<(i32, i32)>)
        ensures
            match place {
                Some((x, y)) => !self@.free_position && x == self@.x && y == self@.y,
                None => self@.free_position,
            },
    {
        if self.free_position {
            None
        } else {
            Some((self.x, self.y))
        }
    }

    /// Number of entries in the year menu, which begins with `EPOCH_BASE`.
    pub fn year_count(&self) -> (count: i32)
        ensures
            count == self@.year_count(),
    {
        if self.last_year >= EPOCH_BASE {
            self.last_year - EPOCH_BASE + 1
        } else {
            0
        }
    }

    /// The entry of the year menu that stands for the chosen year, if the
    /// menu has one.
    pub fn year_index(&self) -> (index: Option<i32>)
        ensures
            match index {
                Some(i) => i == self@.selected_year && 0 <= i < self@.year_count(),
                None => !(0 <= self@.selected_year < self@.year_count()),
            },
    {
        if EPOCH_BASE <= self.year && self.year <= self.last_year {
            Some(self.year - EPOCH_BASE)
        } else {
            None
        }
    }

    /// The entry of the month menu that stands for the chosen month.
    pub fn month_index(&self) -> (index: i32)
        requires
            self.wf(),
        ensures
            index == self@.selected_month - 1,
            0 <= index < 12,
    {
        self.month as i32 - 1
    }
}

} // verus!

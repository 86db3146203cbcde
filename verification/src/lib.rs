//! A calendar date picker: the month grid arithmetic and the dialog's state
//! machine, verified with Verus.
//!
//! The dialog shows one month as a table of five rows and seven columns. The
//! cell in row `r` and column `c` holds day `r * 7 + c + 1`, as long as the
//! month has that many days; the column headers are rotated so that every day
//! stands under the name of its weekday. A year and a month are chosen from
//! two menus, a day by clicking its cell, and a double click closes the dialog.
//!
//! Nothing here draws or waits for input. A front end turns toolkit events
//! into [`calendar::Event`] values, performs the [`calendar::Action`] that
//! comes back, and paints what [`calendar::Calendar::draw_cell`] describes.

pub mod calendar;
mod clock;
pub mod date;
pub mod date_grid;
pub mod paint;

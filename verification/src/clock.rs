//! The one question that is put to the system clock.

use vstd::prelude::*;
use chrono::Datelike;
use chrono::Local;

verus! {

/// Reads the local date with chrono's `Local::now` and hands back its
/// `Datelike::year` and `Datelike::month`.
///
/// Trusted, not proved: the month is numbered from 1 to 12. Nothing is
/// claimed of the year, and two readings may differ. chrono gives up on a
/// system clock that stands before 1970.
#[verifier::external_body]
pub(crate) fn local_year_and_month() -> (today: (i32, u32))
    ensures
        1 <= today.1 <= 12,
{
    let now = Local::now();
    (now.year(), now.month())
}

} // verus!

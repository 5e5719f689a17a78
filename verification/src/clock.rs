use vstd::prelude::*;
use chrono::Datelike;
use crate::dates::Date;

verus! {

/// Relies on chrono's `Local::now` together with `Datelike::year`, `month`
/// and `day` for the current civil date of the local clock. chrono documents
/// that `month` ranges over 1..=12 and `day` over 1..=31; nothing more can be
/// promised of a clock reading. The underlying call aborts when the system
/// clock reads before the Unix epoch or beyond chrono's representable range:
/// an environmental fault that no input could be excluded to avoid.
#[verifier::external_body]
pub(crate) fn current_date() -> (d: Date)
    ensures
        d.wf(),
{
    let now = chrono::Local::now().naive_local().date();
    Date { year: now.year(), month: now.month() as u8, day: now.day() as u8 }
}

} // verus!

use vstd::prelude::*;

verus! {

/// A civil date as the database's `DATE` columns deliver it: year, month
/// number starting from 1, day of month starting from 1.
///
/// The layer never does calendar arithmetic; dates are only carried through
/// records and compared chronologically, so the well-formedness predicate
/// keeps just the field ranges.
#[derive(Clone, Copy, PartialEq, Eq, Structural, Debug)]
pub struct Date {
    pub year: i32,
    pub month: u8,
    pub day: u8,
}

impl Date {
    /// Month lies in 1..=12 and day in 1..=31.
    pub open spec fn wf(self) -> bool {
        &&& 1 <= self.month <= 12
        &&& 1 <= self.day <= 31
    }

    /// Strict chronological order: lexicographic on (year, month, day).
    pub open spec fn spec_lt(self, other: Date) -> bool {
        ||| self.year < other.year
        ||| (self.year == other.year && self.month < other.month)
        ||| (self.year == other.year && self.month == other.month && self.day < other.day)
    }

    /// Builds a date, refusing out-of-range month or day fields.
    pub fn new(year: i32, month: u8, day: u8) -> (r: Option<Date>)
        ensures
            r matches Some(d) ==> d == (Date { year, month, day }) && d.wf(),
            r is None <==> !(Date { year, month, day }).wf(),
    {
        if 1 <= month && month <= 12 && 1 <= day && day <= 31 {
            Some(Date { year, month, day })
        } else {
            None
        }
    }

    /// Decides strict chronological order.
    pub fn before(&self, other: &Date) -> (r: bool)
        ensures
            r == self.spec_lt(*other),
    {
        self.year < other.year
            || (self.year == other.year && self.month < other.month)
            || (self.year == other.year && self.month == other.month && self.day < other.day)
    }
}

} // verus!

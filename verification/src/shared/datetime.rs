use vstd::prelude::*;

verus! {

/// An instant in UTC, held by its calendar and clock fields.
///
/// Two values denote the same instant exactly when their fields are equal.
#[derive(Clone, Copy, Debug, PartialEq, Eq, Hash, Structural)]
pub struct UtcDateTime {
    pub year: i32,
    pub month: u32,
    pub day: u32,
    pub hour: u32,
    pub minute: u32,
    pub second: u32,
    pub nanosecond: u32,
}

impl UtcDateTime {
    /// The start of the given day.
    pub open spec fn spec_midnight(year: i32, month: u32, day: u32) -> UtcDateTime {
        UtcDateTime { year, month, day, hour: 0, minute: 0, second: 0, nanosecond: 0 }
    }

    /// The start (00:00:00 UTC) of the given day.
    pub fn midnight(year: i32, month: u32, day: u32) -> (r: UtcDateTime)
        ensures
            r == Self::spec_midnight(year, month, day),
    {
        UtcDateTime { year, month, day, hour: 0, minute: 0, second: 0, nanosecond: 0 }
    }

    /// The calendar date (year, month, day) of this instant.
    pub fn date(&self) -> (r: (i32, u32, u32))
        ensures
            r == (self.year, self.month, self.day),
    {
        (self.year, self.month, self.day)
    }
}

/// Whether two optional instants are equal.
pub fn same_instant(a: &Option<UtcDateTime>, b: &Option<UtcDateTime>) -> (r: bool)
    ensures
        r == (*a == *b),
{
    match (a, b) {
        (Some(x), Some(y)) => *x == *y,
        (None, None) => true,
        _ => false,
    }
}

} // verus!

//! A person's age in whole years, counted on a fixed day.

use vstd::prelude::*;

verus! {

/// The year of the day on which ages are counted.
pub const NOW_YEAR: i32 = 2019;

/// The month of the day on which ages are counted.
pub const NOW_MONTH: u32 = 6;

/// The day of the month on which ages are counted.
pub const NOW_DAY: u32 = 26;

/// Whether the day `month`/`day` comes later in a year than the day on which
/// ages are counted.
pub open spec fn later_in_year(month: u32, day: u32) -> bool {
    month > NOW_MONTH || (month == NOW_MONTH && day > NOW_DAY)
}

/// The whole years that have passed since the given date of birth: the
/// difference of the years, less one where this year's birthday is still to
/// come, and 0 for a birth that lies in the future.
pub open spec fn whole_years_since(year: i32, month: u32, day: u32) -> int {
    let years = NOW_YEAR - year - if later_in_year(month, day) {
        1int
    } else {
        0int
    };
    if years < 0 {
        0
    } else {
        years
    }
}

/// A person, known by their date of birth.
#[derive(Clone, Copy, Debug, PartialEq, Eq, Structural)]
pub struct User {
    year: i32,
    month: u32,
    day: u32,
}

impl User {
    /// The year of birth.
    pub closed spec fn birth_year(&self) -> i32 {
        self.year
    }

    /// The month of birth.
    pub closed spec fn birth_month(&self) -> u32 {
        self.month
    }

    /// The day of birth.
    pub closed spec fn birth_day(&self) -> u32 {
        self.day
    }

    /// The age as a mathematical integer, however large.
    pub open spec fn whole_years(&self) -> int {
        whole_years_since(self.birth_year(), self.birth_month(), self.birth_day())
    }

    /// The person born on the given day.
    pub fn with_birthdate(year: i32, month: u32, day: u32) -> (user: User)
        ensures
            user.birth_year() == year,
            user.birth_month() == month,
            user.birth_day() == day,
    {
        User { year, month, day }
    }

    /// Returns the current age of the user in years: 0 where the birth lies
    /// in the future, and the largest `u16` where the age does not fit.
    pub fn age(&self) -> (years: u16)
        ensures
            self.whole_years() <= u16::MAX ==> years == self.whole_years(),
            self.whole_years() > u16::MAX ==> years == u16::MAX,
    {
        let later: bool = self.month > NOW_MONTH || (self.month == NOW_MONTH && self.day
            > NOW_DAY);
        let mut years: i64 = NOW_YEAR as i64 - self.year as i64;
        if later {
            years = years - 1;
        }
        if years < 0 {
            0
        } else if years > u16::MAX as i64 {
            u16::MAX
        } else {
            years as u16
        }
    }

    /// Checks whether the user is 18 years old or older.
    pub fn is_adult(&self) -> (adult: bool)
        ensures
            adult == (self.whole_years() >= 18),
    {
        self.age() >= 18
    }
}

} // verus!

//! The seven weekdays, their fixed order and their display names.

use vstd::prelude::*;

verus! {

/// A day of the week. The chart's category axis, pie slices and funnel
/// stages are always built in the fixed order Monday through Sunday.
#[derive(Clone, Copy, Debug, PartialEq, Eq, Structural)]
pub enum Weekday {
    Monday,
    Tuesday,
    Wednesday,
    Thursday,
    Friday,
    Saturday,
    Sunday,
}

/// Position of a weekday in the fixed Monday..Sunday order.
pub open spec fn day_index(d: Weekday) -> int {
    match d {
        Weekday::Monday => 0,
        Weekday::Tuesday => 1,
        Weekday::Wednesday => 2,
        Weekday::Thursday => 3,
        Weekday::Friday => 4,
        Weekday::Saturday => 5,
        Weekday::Sunday => 6,
    }
}

/// The weekday sitting at a given position of the Monday..Sunday order.
pub open spec fn day_of_index(i: int) -> Weekday {
    if i == 0 {
        Weekday::Monday
    } else if i == 1 {
        Weekday::Tuesday
    } else if i == 2 {
        Weekday::Wednesday
    } else if i == 3 {
        Weekday::Thursday
    } else if i == 4 {
        Weekday::Friday
    } else if i == 5 {
        Weekday::Saturday
    } else {
        Weekday::Sunday
    }
}

impl Weekday {
    /// Position of this weekday in the fixed Monday..Sunday order.
    pub fn index(self) -> (i: usize)
        ensures
            i == day_index(self),
    {
        match self {
            Weekday::Monday => 0,
            Weekday::Tuesday => 1,
            Weekday::Wednesday => 2,
            Weekday::Thursday => 3,
            Weekday::Friday => 4,
            Weekday::Saturday => 5,
            Weekday::Sunday => 6,
        }
    }

    /// The weekday at a given position of the Monday..Sunday order.
    pub fn from_index(i: usize) -> (d: Weekday)
        requires
            i < 7,
        ensures
            d == day_of_index(i as int),
    {
        if i == 0 {
            Weekday::Monday
        } else if i == 1 {
            Weekday::Tuesday
        } else if i == 2 {
            Weekday::Wednesday
        } else if i == 3 {
            Weekday::Thursday
        } else if i == 4 {
            Weekday::Friday
        } else if i == 5 {
            Weekday::Saturday
        } else {
            Weekday::Sunday
        }
    }

    /// Abbreviated label shown on the category axis.
    pub fn short_name(self) -> (r: &'static str)
        ensures
            self == Weekday::Monday ==> r@ == "Mon"@,
            self == Weekday::Tuesday ==> r@ == "Tue"@,
            self == Weekday::Wednesday ==> r@ == "Wed"@,
            self == Weekday::Thursday ==> r@ == "Thu"@,
            self == Weekday::Friday ==> r@ == "Fri"@,
            self == Weekday::Saturday ==> r@ == "Sat"@,
            self == Weekday::Sunday ==> r@ == "Sun"@,
    {
        match self {
            Weekday::Monday => "Mon",
            Weekday::Tuesday => "Tue",
            Weekday::Wednesday => "Wed",
            Weekday::Thursday => "Thu",
            Weekday::Friday => "Fri",
            Weekday::Saturday => "Sat",
            Weekday::Sunday => "Sun",
        }
    }

    /// Full name used for pie slices and funnel stages.
    pub fn full_name(self) -> (r: &'static str)
        ensures
            self == Weekday::Monday ==> r@ == "Monday"@,
            self == Weekday::Tuesday ==> r@ == "Tuesday"@,
            self == Weekday::Wednesday ==> r@ == "Wednesday"@,
            self == Weekday::Thursday ==> r@ == "Thursday"@,
            self == Weekday::Friday ==> r@ == "Friday"@,
            self == Weekday::Saturday ==> r@ == "Saturday"@,
            self == Weekday::Sunday ==> r@ == "Sunday"@,
    {
        match self {
            Weekday::Monday => "Monday",
            Weekday::Tuesday => "Tuesday",
            Weekday::Wednesday => "Wednesday",
            Weekday::Thursday => "Thursday",
            Weekday::Friday => "Friday",
            Weekday::Saturday => "Saturday",
            Weekday::Sunday => "Sunday",
        }
    }
}

} // verus!

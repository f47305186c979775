//! The seven user-editable weekday numbers.

use vstd::prelude::*;

use crate::day::{day_index, Weekday};

verus! {

/// Default values the page mounts with, Monday through Sunday.
pub open spec fn default_values() -> Seq<u64> {
    seq![150u64, 230u64, 224u64, 218u64, 135u64, 147u64, 260u64]
}

/// Seven independent non-negative numbers, one per weekday. There is no
/// cross-field invariant: each cell is written on its own.
#[derive(Clone, Copy, Debug, PartialEq, Eq, Structural)]
pub struct WeekdayValues {
    pub monday: u64,
    pub tuesday: u64,
    pub wednesday: u64,
    pub thursday: u64,
    pub friday: u64,
    pub saturday: u64,
    pub sunday: u64,
}

impl View for WeekdayValues {
    type V = Seq<u64>;

    /// The seven values in the fixed Monday..Sunday order.
    open spec fn view(&self) -> Seq<u64> {
        seq![
            self.monday,
            self.tuesday,
            self.wednesday,
            self.thursday,
            self.friday,
            self.saturday,
            self.sunday,
        ]
    }
}

impl WeekdayValues {
    /// The values every page starts with.
    pub fn defaults() -> (r: WeekdayValues)
        ensures
            r@ == default_values(),
    {
        let r = WeekdayValues {
            monday: 150,
            tuesday: 230,
            wednesday: 224,
            thursday: 218,
            friday: 135,
            saturday: 147,
            sunday: 260,
        };
        proof {
            assert(r@ =~= default_values());
        }
        r
    }

    /// Read one cell; the result is exactly the last value written there.
    pub fn get(&self, day: Weekday) -> (r: u64)
        ensures
            r == self@[day_index(day)],
    {
        match day {
            Weekday::Monday => self.monday,
            Weekday::Tuesday => self.tuesday,
            Weekday::Wednesday => self.wednesday,
            Weekday::Thursday => self.thursday,
            Weekday::Friday => self.friday,
            Weekday::Saturday => self.saturday,
            Weekday::Sunday => self.sunday,
        }
    }

    /// Write one cell; every other cell keeps its value.
    pub fn set(&mut self, day: Weekday, value: u64)
        ensures
            final(self)@ == old(self)@.update(day_index(day), value),
    {
        match day {
            Weekday::Monday => self.monday = value,
            Weekday::Tuesday => self.tuesday = value,
            Weekday::Wednesday => self.wednesday = value,
            Weekday::Thursday => self.thursday = value,
            Weekday::Friday => self.friday = value,
            Weekday::Saturday => self.saturday = value,
            Weekday::Sunday => self.sunday = value,
        }
        proof {
            assert(self@ =~= old(self)@.update(day_index(day), value));
        }
    }
}

/// A write to one weekday cell is read back exactly, and leaves every
/// other cell unchanged.
pub proof fn lemma_cell_write_read(vals: Seq<u64>, day: Weekday, value: u64, other: Weekday)
    requires
        vals.len() == 7,
    ensures
        vals.update(day_index(day), value)[day_index(day)] == value,
        other != day ==> vals.update(day_index(day), value)[day_index(other)] == vals[day_index(
            other,
        )],
{
}

} // verus!

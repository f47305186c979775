//! The chart page's state store and reactive binder.
//!
//! Eight independent cells — seven weekday numbers and the selector
//! code — readable and writable at any time. Every committed write
//! schedules exactly one render: the methods return the render request
//! built from a snapshot of the state as of that moment, so later
//! writes cannot affect an already issued request. A write that fails
//! to parse commits nothing and schedules nothing.

use vstd::prelude::*;

use crate::builder::{build, build_spec};
use crate::chart::{kind_of_code, ChartKind, ChartSpec, ChartSpecV};
use crate::day::{day_index, Weekday};
use crate::parse::{dec_value, parse_u64, parses};
use crate::values::{default_values, WeekdayValues};

verus! {

/// The page's whole mutable state: the seven weekday cells and the
/// chart-kind selector code.
#[derive(Clone, Copy, Debug, PartialEq, Eq, Structural)]
pub struct ChartPage {
    pub values: WeekdayValues,
    pub kind_code: u64,
}

/// The render request the binder issues for the current state: the
/// chart specification of a snapshot taken at this instant.
pub open spec fn current_request(page: ChartPage) -> ChartSpecV {
    build_spec(page.values@, kind_of_code(page.kind_code))
}

impl ChartPage {
    /// Mount the page: all cells take their fixed defaults and the
    /// binder fires one unconditional initial render, returned as the
    /// request for the default line chart.
    pub fn mount() -> (r: (ChartPage, ChartSpec))
        ensures
            r.0.values@ == default_values(),
            r.0.kind_code == 0,
            kind_of_code(r.0.kind_code) == ChartKind::Line,
            r.1@ == current_request(r.0),
    {
        let page = ChartPage { values: WeekdayValues::defaults(), kind_code: 0 };
        let request = build(&page.values, ChartKind::Line);
        (page, request)
    }

    /// Read one weekday cell: always the latest committed value.
    pub fn value(&self, day: Weekday) -> (r: u64)
        ensures
            r == self.values@[day_index(day)],
    {
        self.values.get(day)
    }

    /// The chart kind the selector code currently picks.
    pub fn kind(&self) -> (r: ChartKind)
        ensures
            r == kind_of_code(self.kind_code),
    {
        ChartKind::from_code(self.kind_code)
    }

    /// Commit a value to one weekday cell. The other cells keep their
    /// values, and the write schedules one render of the new state.
    pub fn set_value(&mut self, day: Weekday, value: u64) -> (req: ChartSpec)
        ensures
            final(self).values@ == old(self).values@.update(day_index(day), value),
            final(self).kind_code == old(self).kind_code,
            req@ == current_request(*final(self)),
    {
        self.values.set(day, value);
        build(&self.values, ChartKind::from_code(self.kind_code))
    }

    /// Commit a selector code. The weekday cells keep their values, and
    /// the write schedules one render of the new state.
    pub fn set_kind_code(&mut self, code: u64) -> (req: ChartSpec)
        ensures
            final(self).values@ == old(self).values@,
            final(self).kind_code == code,
            req@ == current_request(*final(self)),
    {
        self.kind_code = code;
        build(&self.values, ChartKind::from_code(self.kind_code))
    }

    /// Handle the text of one weekday input field. Text that parses as
    /// a decimal number is committed to that cell and schedules one
    /// render; any other text commits nothing and schedules nothing, so
    /// the cell keeps its prior value.
    pub fn input_value(&mut self, day: Weekday, text: &str) -> (r: Option<ChartSpec>)
        ensures
            parses(text@) ==> {
                &&& final(self).values@ == old(self).values@.update(
                    day_index(day),
                    dec_value(text@) as u64,
                )
                &&& final(self).kind_code == old(self).kind_code
                &&& r is Some
                &&& r->Some_0@ == current_request(*final(self))
            },
            !parses(text@) ==> *final(self) == *old(self) && r is None,
    {
        match parse_u64(text) {
            Option::Some(value) => Option::Some(self.set_value(day, value)),
            Option::None => Option::None,
        }
    }

    /// Handle the text of the selector control. Text that parses as a
    /// decimal number is committed as the new selector code and
    /// schedules one render; any other text commits nothing and
    /// schedules nothing.
    pub fn input_kind(&mut self, text: &str) -> (r: Option<ChartSpec>)
        ensures
            parses(text@) ==> {
                &&& final(self).values@ == old(self).values@
                &&& final(self).kind_code == dec_value(text@) as u64
                &&& r is Some
                &&& r->Some_0@ == current_request(*final(self))
            },
            !parses(text@) ==> *final(self) == *old(self) && r is None,
    {
        match parse_u64(text) {
            Option::Some(code) => Option::Some(self.set_kind_code(code)),
            Option::None => Option::None,
        }
    }

    /// The manual render trigger: snapshot the current state and build
    /// its chart specification, changing nothing.
    pub fn show_chart(&self) -> (req: ChartSpec)
        ensures
            req@ == current_request(*self),
    {
        build(&self.values, ChartKind::from_code(self.kind_code))
    }
}

} // verus!

//! The chart-kind selector and the chart specification handed to the
//! external rendering service.
//!
//! A [`ChartSpec`] is a plain description of one chart: which series
//! shape, which data points in which order, and the fixed styling flags
//! each kind carries. It is rebuilt from a fresh snapshot for every
//! render and has no identity beyond that one call.

use vstd::prelude::*;

use crate::day::Weekday;

verus! {

/// The visual representation the user selected. Default is `Line`.
#[derive(Clone, Copy, Debug, PartialEq, Eq, Structural)]
pub enum ChartKind {
    Line,
    Bar,
    /// A bar chart whose Tuesday point carries a fixed accent colour.
    BarHighlight,
    /// A bar chart drawn over a translucent background region.
    BarBackground,
    Pie,
    Funnel,
}

/// The chart kind selected by a numeric selector code. Codes 0 through 4
/// pick the first five kinds; 5 picks the funnel, and so does any
/// out-of-range code.
pub open spec fn kind_of_code(code: u64) -> ChartKind {
    if code == 0 {
        ChartKind::Line
    } else if code == 1 {
        ChartKind::Bar
    } else if code == 2 {
        ChartKind::BarHighlight
    } else if code == 3 {
        ChartKind::BarBackground
    } else if code == 4 {
        ChartKind::Pie
    } else {
        ChartKind::Funnel
    }
}

impl ChartKind {
    /// Map a selector code to its chart kind; any code past the known
    /// range falls back to the funnel, the selector's last entry.
    pub fn from_code(code: u64) -> (r: ChartKind)
        ensures
            r == kind_of_code(code),
    {
        if code == 0 {
            ChartKind::Line
        } else if code == 1 {
            ChartKind::Bar
        } else if code == 2 {
            ChartKind::BarHighlight
        } else if code == 3 {
            ChartKind::BarBackground
        } else if code == 4 {
            ChartKind::Pie
        } else if code == 5 {
            ChartKind::Funnel
        } else {
            ChartKind::Funnel
        }
    }
}

/// Shape of the single series on a category-axis chart.
#[derive(Clone, Copy, Debug, PartialEq, Eq, Structural)]
pub enum SeriesShape {
    LineSeries,
    BarSeries,
}

/// One point of a category-axis series. `accent` marks the point that is
/// drawn with the fixed accent colour instead of the default style.
#[derive(Clone, Copy, Debug, PartialEq, Eq, Structural)]
pub struct DataPoint {
    pub value: u64,
    pub accent: bool,
}

/// One pie slice or funnel stage: a value labelled with its weekday's
/// full name.
#[derive(Clone, Copy, Debug, PartialEq, Eq, Structural)]
pub struct Stage {
    pub value: u64,
    pub day: Weekday,
}

/// A chart specification, rebuilt from a snapshot on every render.
#[derive(Clone, Debug, PartialEq, Eq)]
pub enum ChartSpec {
    /// Line or bar chart: weekday labels on the category axis, an
    /// unbounded value axis, and one series of seven points in
    /// Monday..Sunday order.
    Cartesian { shape: SeriesShape, points: Vec<DataPoint>, show_background: bool },
    /// Ring/rose pie with a bottom legend, one slice per weekday in
    /// Monday..Sunday order.
    Pie { slices: Vec<Stage>, rose: bool, legend_bottom: bool },
    /// Funnel with its stages sorted by value, largest first, a
    /// percentage tooltip, label lines, and export/restore affordances.
    Funnel { stages: Vec<Stage>, percent_tooltip: bool, label_lines: bool, toolbox: bool },
}

/// Mathematical form of a [`ChartSpec`].
#[verifier::ext_equal]
pub enum ChartSpecV {
    Cartesian { shape: SeriesShape, points: Seq<DataPoint>, show_background: bool },
    Pie { slices: Seq<Stage>, rose: bool, legend_bottom: bool },
    Funnel { stages: Seq<Stage>, percent_tooltip: bool, label_lines: bool, toolbox: bool },
}

impl View for ChartSpec {
    type V = ChartSpecV;

    open spec fn view(&self) -> ChartSpecV {
        match self {
            ChartSpec::Cartesian { shape, points, show_background } => ChartSpecV::Cartesian {
                shape: *shape,
                points: points@,
                show_background: *show_background,
            },
            ChartSpec::Pie { slices, rose, legend_bottom } => ChartSpecV::Pie {
                slices: slices@,
                rose: *rose,
                legend_bottom: *legend_bottom,
            },
            ChartSpec::Funnel { stages, percent_tooltip, label_lines, toolbox } => ChartSpecV::Funnel {
                stages: stages@,
                percent_tooltip: *percent_tooltip,
                label_lines: *label_lines,
                toolbox: *toolbox,
            },
        }
    }
}

} // verus!

//! The pure chart-spec builder: from a snapshot of the seven weekday
//! values and the selected kind to the specification the rendering
//! service is handed.
//!
//! The builder is total over its domain and deterministic: the result
//! is pinned, value for value, by the spec function [`build_spec`].

use vstd::prelude::*;

use crate::chart::{ChartKind, ChartSpec, ChartSpecV, DataPoint, SeriesShape, Stage};
use crate::day::{day_index, day_of_index, Weekday};
use crate::sort::{sort_desc, sort_stages_desc, sorted_desc};
use crate::values::WeekdayValues;

verus! {

/// The data points of a plain line or bar series: the weekday values in
/// Monday..Sunday order, all with default styling.
pub open spec fn plain_points(vals: Seq<u64>) -> Seq<DataPoint> {
    Seq::new(vals.len(), |i: int| DataPoint { value: vals[i], accent: false })
}

/// The data points of the highlighted bar series: as [`plain_points`],
/// except that the Tuesday point carries the accent style.
pub open spec fn highlight_points(vals: Seq<u64>) -> Seq<DataPoint> {
    Seq::new(
        vals.len(),
        |i: int| DataPoint { value: vals[i], accent: i == day_index(Weekday::Tuesday) },
    )
}

/// The pie slices or (unsorted) funnel stages: each weekday's value
/// labelled with that weekday, in Monday..Sunday order.
pub open spec fn stages_of(vals: Seq<u64>) -> Seq<Stage> {
    Seq::new(vals.len(), |i: int| Stage { value: vals[i], day: day_of_index(i) })
}

/// What `build` returns for a snapshot: the one chart specification of
/// the selected kind over the given values.
pub open spec fn build_spec(vals: Seq<u64>, kind: ChartKind) -> ChartSpecV {
    match kind {
        ChartKind::Line => ChartSpecV::Cartesian {
            shape: SeriesShape::LineSeries,
            points: plain_points(vals),
            show_background: false,
        },
        ChartKind::Bar => ChartSpecV::Cartesian {
            shape: SeriesShape::BarSeries,
            points: plain_points(vals),
            show_background: false,
        },
        ChartKind::BarHighlight => ChartSpecV::Cartesian {
            shape: SeriesShape::BarSeries,
            points: highlight_points(vals),
            show_background: false,
        },
        ChartKind::BarBackground => ChartSpecV::Cartesian {
            shape: SeriesShape::BarSeries,
            points: plain_points(vals),
            show_background: true,
        },
        ChartKind::Pie => ChartSpecV::Pie {
            slices: stages_of(vals),
            rose: true,
            legend_bottom: true,
        },
        ChartKind::Funnel => ChartSpecV::Funnel {
            stages: sort_desc(stages_of(vals)),
            percent_tooltip: true,
            label_lines: true,
            toolbox: true,
        },
    }
}

/// The seven data points of a plain series, in weekday order.
fn plain_points_vec(values: &WeekdayValues) -> (r: Vec<DataPoint>)
    ensures
        r@ == plain_points(values@),
{
    let r = vec![
        DataPoint { value: values.monday, accent: false },
        DataPoint { value: values.tuesday, accent: false },
        DataPoint { value: values.wednesday, accent: false },
        DataPoint { value: values.thursday, accent: false },
        DataPoint { value: values.friday, accent: false },
        DataPoint { value: values.saturday, accent: false },
        DataPoint { value: values.sunday, accent: false },
    ];
    proof {
        assert(r@ =~= plain_points(values@));
    }
    r
}

/// The seven data points with the Tuesday accent, in weekday order.
fn highlight_points_vec(values: &WeekdayValues) -> (r: Vec<DataPoint>)
    ensures
        r@ == highlight_points(values@),
{
    let r = vec![
        DataPoint { value: values.monday, accent: false },
        DataPoint { value: values.tuesday, accent: true },
        DataPoint { value: values.wednesday, accent: false },
        DataPoint { value: values.thursday, accent: false },
        DataPoint { value: values.friday, accent: false },
        DataPoint { value: values.saturday, accent: false },
        DataPoint { value: values.sunday, accent: false },
    ];
    proof {
        assert(r@ =~= highlight_points(values@));
    }
    r
}

/// The seven labelled stages, in weekday order.
fn stages_vec(values: &WeekdayValues) -> (r: Vec<Stage>)
    ensures
        r@ == stages_of(values@),
{
    let r = vec![
        Stage { value: values.monday, day: Weekday::Monday },
        Stage { value: values.tuesday, day: Weekday::Tuesday },
        Stage { value: values.wednesday, day: Weekday::Wednesday },
        Stage { value: values.thursday, day: Weekday::Thursday },
        Stage { value: values.friday, day: Weekday::Friday },
        Stage { value: values.saturday, day: Weekday::Saturday },
        Stage { value: values.sunday, day: Weekday::Sunday },
    ];
    proof {
        assert(r@ =~= stages_of(values@));
    }
    r
}

/// Build the chart specification for one snapshot. Total: every
/// (values, kind) pair yields a spec, and the result is exactly
/// [`build_spec`] of the snapshot.
pub fn build(values: &WeekdayValues, kind: ChartKind) -> (r: ChartSpec)
    ensures
        r@ == build_spec(values@, kind),
{
    match kind {
        ChartKind::Line => ChartSpec::Cartesian {
            shape: SeriesShape::LineSeries,
            points: plain_points_vec(values),
            show_background: false,
        },
        ChartKind::Bar => ChartSpec::Cartesian {
            shape: SeriesShape::BarSeries,
            points: plain_points_vec(values),
            show_background: false,
        },
        ChartKind::BarHighlight => ChartSpec::Cartesian {
            shape: SeriesShape::BarSeries,
            points: highlight_points_vec(values),
            show_background: false,
        },
        ChartKind::BarBackground => ChartSpec::Cartesian {
            shape: SeriesShape::BarSeries,
            points: plain_points_vec(values),
            show_background: true,
        },
        ChartKind::Pie => ChartSpec::Pie {
            slices: stages_vec(values),
            rose: true,
            legend_bottom: true,
        },
        ChartKind::Funnel => {
            let unsorted = stages_vec(values);
            let stages = sort_stages_desc(&unsorted);
            ChartSpec::Funnel { stages, percent_tooltip: true, label_lines: true, toolbox: true }
        },
    }
}

/// The builder is a function of its inputs alone: equal snapshots give
/// equal specifications.
pub proof fn lemma_build_deterministic(
    vals1: Seq<u64>,
    kind1: ChartKind,
    vals2: Seq<u64>,
    kind2: ChartKind,
)
    requires
        vals1 == vals2,
        kind1 == kind2,
    ensures
        build_spec(vals1, kind1) == build_spec(vals2, kind2),
{
}

/// On the highlighted bar chart exactly the Tuesday point carries the
/// accent style; every point still shows its weekday's value in order.
pub proof fn lemma_highlight_marks_tuesday(vals: Seq<u64>)
    ensures
        build_spec(vals, ChartKind::BarHighlight) == (ChartSpecV::Cartesian {
            shape: SeriesShape::BarSeries,
            points: highlight_points(vals),
            show_background: false,
        }),
        highlight_points(vals).len() == vals.len(),
        forall|i: int|
            0 <= i < vals.len() ==> #[trigger] highlight_points(vals)[i] == (DataPoint {
                value: vals[i],
                accent: i == day_index(Weekday::Tuesday),
            }),
{
}

/// The funnel's stages are the seven weekday stages, reordered into
/// non-increasing order of value: same stages, sorted, largest first.
pub proof fn lemma_funnel_stages(vals: Seq<u64>)
    requires
        vals.len() == 7,
    ensures
        build_spec(vals, ChartKind::Funnel) == (ChartSpecV::Funnel {
            stages: sort_desc(stages_of(vals)),
            percent_tooltip: true,
            label_lines: true,
            toolbox: true,
        }),
        sort_desc(stages_of(vals)).len() == 7,
        sorted_desc(sort_desc(stages_of(vals))),
        sort_desc(stages_of(vals)).to_multiset() == stages_of(vals).to_multiset(),
{
    crate::sort::lemma_sort_desc_permutes(stages_of(vals));
}

} // verus!

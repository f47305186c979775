use chart_page::builder::build;
use chart_page::chart::{ChartKind, ChartSpec, Stage};
use chart_page::day::Weekday;
use chart_page::page::ChartPage;
use chart_page::parse::parse_u64;
use chart_page::target::RenderTarget;
use chart_page::values::WeekdayValues;

fn days() -> [Weekday; 7] {
    [
        Weekday::Monday,
        Weekday::Tuesday,
        Weekday::Wednesday,
        Weekday::Thursday,
        Weekday::Friday,
        Weekday::Saturday,
        Weekday::Sunday,
    ]
}

fn point_values(spec: &ChartSpec) -> Vec<u64> {
    match spec {
        ChartSpec::Cartesian { points, .. } => points.iter().map(|p| p.value).collect(),
        _ => panic!("expected a cartesian chart"),
    }
}

#[test]
fn build_is_deterministic() {
    let values = WeekdayValues::defaults();
    for kind in [
        ChartKind::Line,
        ChartKind::Bar,
        ChartKind::BarHighlight,
        ChartKind::BarBackground,
        ChartKind::Pie,
        ChartKind::Funnel,
    ] {
        let first = build(&values, kind);
        let second = build(&values, kind);
        assert_eq!(first, second);
    }
}

#[test]
fn cell_write_read_back() {
    let mut values = WeekdayValues::defaults();
    let before: Vec<u64> = days().iter().map(|d| values.get(*d)).collect();
    values.set(Weekday::Thursday, 4242);
    assert_eq!(values.get(Weekday::Thursday), 4242);
    for (i, day) in days().iter().enumerate() {
        if *day != Weekday::Thursday {
            assert_eq!(values.get(*day), before[i]);
        }
    }
}

#[test]
fn mount_renders_default_line_chart() {
    let (page, request) = ChartPage::mount();
    assert_eq!(page.kind(), ChartKind::Line);
    match &request {
        ChartSpec::Cartesian { shape, points, show_background } => {
            assert_eq!(*shape, chart_page::chart::SeriesShape::LineSeries);
            assert!(!*show_background);
            let values: Vec<u64> = points.iter().map(|p| p.value).collect();
            assert_eq!(values, vec![150, 230, 224, 218, 135, 147, 260]);
            assert!(points.iter().all(|p| !p.accent));
        }
        _ => panic!("mount must render a line chart"),
    }
}

#[test]
fn highlight_styles_exactly_tuesday() {
    let (mut page, _initial) = ChartPage::mount();
    let after_kind = page.input_kind("2");
    assert!(after_kind.is_some());
    let request = page.input_value(Weekday::Tuesday, "999").expect("a digit writes");
    assert_eq!(
        point_values(&request),
        vec![150, 999, 224, 218, 135, 147, 260]
    );
    match &request {
        ChartSpec::Cartesian { points, .. } => {
            for (i, p) in points.iter().enumerate() {
                assert_eq!(p.accent, i == 1, "only the Tuesday point is accented");
            }
        }
        _ => panic!("expected a cartesian chart"),
    }
}

#[test]
fn funnel_stages_sorted_descending() {
    let (mut page, _initial) = ChartPage::mount();
    // Scramble the input order thoroughly before switching to the funnel.
    page.set_value(Weekday::Monday, 5);
    page.set_value(Weekday::Tuesday, 900);
    page.set_value(Weekday::Wednesday, 41);
    page.set_value(Weekday::Thursday, 900);
    page.set_value(Weekday::Friday, 0);
    page.set_value(Weekday::Saturday, 77);
    page.set_value(Weekday::Sunday, 41);
    let request = page.set_kind_code(5);
    match &request {
        ChartSpec::Funnel { stages, percent_tooltip, label_lines, toolbox } => {
            assert_eq!(stages.len(), 7);
            assert!(*percent_tooltip && *label_lines && *toolbox);
            for w in stages.windows(2) {
                assert!(w[0].value >= w[1].value);
            }
            let mut values: Vec<u64> = stages.iter().map(|s| s.value).collect();
            values.sort_unstable();
            assert_eq!(values, vec![0, 5, 41, 41, 77, 900, 900]);
            // Equal values keep weekday order: Tuesday before Thursday.
            assert_eq!(stages[0], Stage { value: 900, day: Weekday::Tuesday });
            assert_eq!(stages[1], Stage { value: 900, day: Weekday::Thursday });
        }
        _ => panic!("expected a funnel"),
    }
}

#[test]
fn pie_slices_in_weekday_order() {
    let values = WeekdayValues::defaults();
    let spec = build(&values, ChartKind::Pie);
    match &spec {
        ChartSpec::Pie { slices, rose, legend_bottom } => {
            assert!(*rose && *legend_bottom);
            assert_eq!(slices.len(), 7);
            for (i, slice) in slices.iter().enumerate() {
                assert_eq!(slice.day, days()[i]);
                assert_eq!(slice.value, values.get(days()[i]));
            }
        }
        _ => panic!("expected a pie"),
    }
}

#[test]
fn bar_background_flag_set() {
    let values = WeekdayValues::defaults();
    let plain = build(&values, ChartKind::Bar);
    let backed = build(&values, ChartKind::BarBackground);
    match (&plain, &backed) {
        (
            ChartSpec::Cartesian { show_background: p, points: pp, .. },
            ChartSpec::Cartesian { show_background: b, points: bp, .. },
        ) => {
            assert!(!*p);
            assert!(*b);
            assert_eq!(pp, bp);
        }
        _ => panic!("expected cartesian charts"),
    }
}

#[test]
fn render_failure_is_absorbed() {
    let (page, request) = ChartPage::mount();
    let mut target = RenderTarget::new();
    target.complete(request, false);
    assert_eq!(target.shown, None, "a failed render leaves the prior state");
    // A later, independent render still succeeds normally.
    let retry = page.show_chart();
    target.complete(retry.clone(), true);
    assert_eq!(target.shown, Some(retry));
}

#[test]
fn last_completing_render_wins() {
    let (mut page, first) = ChartPage::mount();
    let second = page.set_value(Weekday::Monday, 1);
    let third = page.set_value(Weekday::Monday, 2);
    let mut target = RenderTarget::new();
    // Completion order differs from issue order; the last completer
    // decides, even with a failure after it.
    target.complete(third, true);
    target.complete(first, true);
    target.complete(second.clone(), true);
    target.complete(page.show_chart(), false);
    assert_eq!(target.shown, Some(second));
}

#[test]
fn invalid_input_commits_nothing() {
    let (mut page, _initial) = ChartPage::mount();
    let before = page;
    assert!(page.input_value(Weekday::Friday, "12a").is_none());
    assert!(page.input_value(Weekday::Friday, "").is_none());
    assert!(page.input_value(Weekday::Friday, "-5").is_none());
    assert!(page.input_kind("pie").is_none());
    assert_eq!(page, before, "rejected input must not touch any cell");
    let after = page.input_value(Weekday::Friday, "7");
    assert!(after.is_some());
    assert_eq!(page.value(Weekday::Friday), 7);
}

#[test]
fn parser_accepts_exact_decimals() {
    assert_eq!(parse_u64("0"), Some(0));
    assert_eq!(parse_u64("007"), Some(7));
    assert_eq!(parse_u64("260"), Some(260));
    assert_eq!(parse_u64("18446744073709551615"), Some(u64::MAX));
}

#[test]
fn parser_rejects_non_decimals() {
    assert_eq!(parse_u64(""), None);
    assert_eq!(parse_u64("abc"), None);
    assert_eq!(parse_u64("1 2"), None);
    assert_eq!(parse_u64("+7"), None);
    assert_eq!(parse_u64("7.5"), None);
    assert_eq!(parse_u64("18446744073709551616"), None);
    assert_eq!(parse_u64("99999999999999999999999999"), None);
}

#[test]
fn selector_codes_map_to_kinds() {
    assert_eq!(ChartKind::from_code(0), ChartKind::Line);
    assert_eq!(ChartKind::from_code(1), ChartKind::Bar);
    assert_eq!(ChartKind::from_code(2), ChartKind::BarHighlight);
    assert_eq!(ChartKind::from_code(3), ChartKind::BarBackground);
    assert_eq!(ChartKind::from_code(4), ChartKind::Pie);
    assert_eq!(ChartKind::from_code(5), ChartKind::Funnel);
    // Any out-of-range code falls back to the funnel.
    assert_eq!(ChartKind::from_code(6), ChartKind::Funnel);
    assert_eq!(ChartKind::from_code(99), ChartKind::Funnel);
}

#[test]
fn weekday_names_and_order() {
    let expected_short = ["Mon", "Tue", "Wed", "Thu", "Fri", "Sat", "Sun"];
    let expected_full = [
        "Monday",
        "Tuesday",
        "Wednesday",
        "Thursday",
        "Friday",
        "Saturday",
        "Sunday",
    ];
    for (i, day) in days().iter().enumerate() {
        assert_eq!(day.index(), i);
        assert_eq!(Weekday::from_index(i), *day);
        assert_eq!(day.short_name(), expected_short[i]);
        assert_eq!(day.full_name(), expected_full[i]);
    }
}

#[test]
fn manual_trigger_rebuilds_current_state() {
    let (mut page, _initial) = ChartPage::mount();
    page.set_value(Weekday::Sunday, 12);
    let via_button = page.show_chart();
    let direct = build(
        &WeekdayValues {
            monday: 150,
            tuesday: 230,
            wednesday: 224,
            thursday: 218,
            friday: 135,
            saturday: 147,
            sunday: 12,
        },
        ChartKind::Line,
    );
    assert_eq!(via_button, direct);
}

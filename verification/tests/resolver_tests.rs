use grid_tracks::geometry::{AbsoluteAxis, Size};
use grid_tracks::resolver::compute_explicit_grid_size_in_axis;
use grid_tracks::style::{
    Dimension, GridTrackRepetition, LengthPercentage, MaxTrackSizingFunction,
    MinTrackSizingFunction, NonRepeatedTrackSizingFunction, Rect, Style, TrackSizingFunction,
};

fn single(v: i64) -> TrackSizingFunction {
    TrackSizingFunction::Single(NonRepeatedTrackSizingFunction::length(v))
}

fn repeat(
    kind: GridTrackRepetition,
    group: Vec<NonRepeatedTrackSizingFunction>,
) -> TrackSizingFunction {
    TrackSizingFunction::AutoRepeat(kind, group)
}

fn sized(width: i64, height: i64) -> Size<Dimension> {
    Size { width: Dimension::Length(width), height: Dimension::Length(height) }
}

#[test]
fn explicit_grid_sizing_no_repeats() {
    let grid_style = Style {
        size: sized(600, 600),
        grid_template_columns: vec![
            TrackSizingFunction::Single(NonRepeatedTrackSizingFunction::flex(1)),
            TrackSizingFunction::Single(NonRepeatedTrackSizingFunction::flex(1)),
        ],
        grid_template_rows: vec![
            TrackSizingFunction::Single(NonRepeatedTrackSizingFunction::flex(1)),
            TrackSizingFunction::Single(NonRepeatedTrackSizingFunction::flex(1)),
            TrackSizingFunction::Single(NonRepeatedTrackSizingFunction::flex(1)),
            TrackSizingFunction::Single(NonRepeatedTrackSizingFunction::flex(1)),
        ],
        ..Default::default()
    };
    let width = compute_explicit_grid_size_in_axis(&grid_style, AbsoluteAxis::Horizontal);
    let height = compute_explicit_grid_size_in_axis(&grid_style, AbsoluteAxis::Vertical);
    assert_eq!(width, 2);
    assert_eq!(height, 4);
}

#[test]
fn explicit_grid_sizing_auto_fill_exact_fit() {
    let grid_style = Style {
        size: sized(120, 80),
        grid_template_columns: vec![repeat(GridTrackRepetition::AutoFill, vec![
            NonRepeatedTrackSizingFunction::length(40),
        ])],
        grid_template_rows: vec![repeat(GridTrackRepetition::AutoFill, vec![
            NonRepeatedTrackSizingFunction::length(20),
        ])],
        ..Default::default()
    };
    let width = compute_explicit_grid_size_in_axis(&grid_style, AbsoluteAxis::Horizontal);
    let height = compute_explicit_grid_size_in_axis(&grid_style, AbsoluteAxis::Vertical);
    assert_eq!(width, 3);
    assert_eq!(height, 4);
}

#[test]
fn explicit_grid_sizing_auto_fill_non_exact_fit() {
    let grid_style = Style {
        size: sized(140, 90),
        grid_template_columns: vec![repeat(GridTrackRepetition::AutoFill, vec![
            NonRepeatedTrackSizingFunction::length(40),
        ])],
        grid_template_rows: vec![repeat(GridTrackRepetition::AutoFill, vec![
            NonRepeatedTrackSizingFunction::length(20),
        ])],
        ..Default::default()
    };
    let width = compute_explicit_grid_size_in_axis(&grid_style, AbsoluteAxis::Horizontal);
    let height = compute_explicit_grid_size_in_axis(&grid_style, AbsoluteAxis::Vertical);
    assert_eq!(width, 3);
    assert_eq!(height, 4);
}

#[test]
fn explicit_grid_sizing_auto_fill_min_size_exact_fit() {
    let grid_style = Style {
        min_size: sized(120, 80),
        grid_template_columns: vec![repeat(GridTrackRepetition::AutoFill, vec![
            NonRepeatedTrackSizingFunction::length(40),
        ])],
        grid_template_rows: vec![repeat(GridTrackRepetition::AutoFill, vec![
            NonRepeatedTrackSizingFunction::length(20),
        ])],
        ..Default::default()
    };
    let width = compute_explicit_grid_size_in_axis(&grid_style, AbsoluteAxis::Horizontal);
    let height = compute_explicit_grid_size_in_axis(&grid_style, AbsoluteAxis::Vertical);
    assert_eq!(width, 3);
    assert_eq!(height, 4);
}

#[test]
fn explicit_grid_sizing_auto_fill_min_size_non_exact_fit() {
    let grid_style = Style {
        min_size: sized(140, 90),
        grid_template_columns: vec![repeat(GridTrackRepetition::AutoFill, vec![
            NonRepeatedTrackSizingFunction::length(40),
        ])],
        grid_template_rows: vec![repeat(GridTrackRepetition::AutoFill, vec![
            NonRepeatedTrackSizingFunction::length(20),
        ])],
        ..Default::default()
    };
    let width = compute_explicit_grid_size_in_axis(&grid_style, AbsoluteAxis::Horizontal);
    let height = compute_explicit_grid_size_in_axis(&grid_style, AbsoluteAxis::Vertical);
    assert_eq!(width, 4);
    assert_eq!(height, 5);
}

#[test]
fn explicit_grid_sizing_auto_fill_multiple_repeated_tracks() {
    let grid_style = Style {
        size: sized(140, 100),
        grid_template_columns: vec![repeat(GridTrackRepetition::AutoFill, vec![
            NonRepeatedTrackSizingFunction::length(40),
            NonRepeatedTrackSizingFunction::length(20),
        ])],
        grid_template_rows: vec![repeat(GridTrackRepetition::AutoFill, vec![
            NonRepeatedTrackSizingFunction::length(20),
            NonRepeatedTrackSizingFunction::length(10),
        ])],
        ..Default::default()
    };
    let width = compute_explicit_grid_size_in_axis(&grid_style, AbsoluteAxis::Horizontal);
    let height = compute_explicit_grid_size_in_axis(&grid_style, AbsoluteAxis::Vertical);
    assert_eq!(width, 4); // 2 repetitions * 2 repeated tracks = 4 tracks in total
    assert_eq!(height, 6); // 3 repetitions * 2 repeated tracks = 6 tracks in total
}

#[test]
fn explicit_grid_sizing_auto_fill_gap() {
    let grid_style = Style {
        size: sized(140, 100),
        grid_template_columns: vec![repeat(GridTrackRepetition::AutoFill, vec![
            NonRepeatedTrackSizingFunction::length(40),
        ])],
        grid_template_rows: vec![repeat(GridTrackRepetition::AutoFill, vec![
            NonRepeatedTrackSizingFunction::length(20),
        ])],
        gap: Size {
            width: LengthPercentage::Length(20),
            height: LengthPercentage::Length(20),
        },
        ..Default::default()
    };
    let width = compute_explicit_grid_size_in_axis(&grid_style, AbsoluteAxis::Horizontal);
    let height = compute_explicit_grid_size_in_axis(&grid_style, AbsoluteAxis::Vertical);
    assert_eq!(width, 2); // 2 tracks + 1 gap
    assert_eq!(height, 3); // 3 tracks + 2 gaps
}

#[test]
fn explicit_grid_sizing_no_defined_size() {
    let grid_style = Style {
        grid_template_columns: vec![repeat(GridTrackRepetition::AutoFill, vec![
            NonRepeatedTrackSizingFunction::length(40),
            NonRepeatedTrackSizingFunction::percent(50),
            NonRepeatedTrackSizingFunction::length(20),
        ])],
        grid_template_rows: vec![repeat(GridTrackRepetition::AutoFill, vec![
            NonRepeatedTrackSizingFunction::length(20),
        ])],
        gap: Size {
            width: LengthPercentage::Length(20),
            height: LengthPercentage::Length(20),
        },
        ..Default::default()
    };
    let width = compute_explicit_grid_size_in_axis(&grid_style, AbsoluteAxis::Horizontal);
    let height = compute_explicit_grid_size_in_axis(&grid_style, AbsoluteAxis::Vertical);
    assert_eq!(width, 3);
    assert_eq!(height, 1);
}

#[test]
fn explicit_grid_sizing_mix_repeated_and_non_repeated() {
    let grid_style = Style {
        size: sized(140, 100),
        grid_template_columns: vec![single(20), repeat(GridTrackRepetition::AutoFill, vec![
            NonRepeatedTrackSizingFunction::length(40),
        ])],
        grid_template_rows: vec![single(40), repeat(GridTrackRepetition::AutoFill, vec![
            NonRepeatedTrackSizingFunction::length(20),
        ])],
        gap: Size {
            width: LengthPercentage::Length(20),
            height: LengthPercentage::Length(20),
        },
        ..Default::default()
    };
    let width = compute_explicit_grid_size_in_axis(&grid_style, AbsoluteAxis::Horizontal);
    let height = compute_explicit_grid_size_in_axis(&grid_style, AbsoluteAxis::Vertical);
    assert_eq!(width, 3); // 3 tracks + 2 gaps
    assert_eq!(height, 2); // 2 tracks + 1 gap
}

#[test]
fn explicit_grid_sizing_mix_with_padding() {
    let grid_style = Style {
        size: sized(120, 120),
        padding: Rect {
            left: LengthPercentage::Length(10),
            right: LengthPercentage::Length(10),
            top: LengthPercentage::Length(20),
            bottom: LengthPercentage::Length(20),
        },
        grid_template_columns: vec![repeat(GridTrackRepetition::AutoFill, vec![
            NonRepeatedTrackSizingFunction::length(20),
        ])],
        grid_template_rows: vec![repeat(GridTrackRepetition::AutoFill, vec![
            NonRepeatedTrackSizingFunction::length(20),
        ])],
        ..Default::default()
    };
    let width = compute_explicit_grid_size_in_axis(&grid_style, AbsoluteAxis::Horizontal);
    let height = compute_explicit_grid_size_in_axis(&grid_style, AbsoluteAxis::Vertical);
    assert_eq!(width, 5); // 40px horizontal padding
    assert_eq!(height, 4); // 20px vertical padding
}

#[test]
fn explicit_count_zero_for_empty_template() {
    let grid_style = Style { size: sized(600, 600), ..Default::default() };
    assert_eq!(compute_explicit_grid_size_in_axis(&grid_style, AbsoluteAxis::Horizontal), 0);
    assert_eq!(compute_explicit_grid_size_in_axis(&grid_style, AbsoluteAxis::Vertical), 0);
}

#[test]
fn explicit_count_zero_for_multiple_repeats() {
    let grid_style = Style {
        size: sized(600, 600),
        grid_template_columns: vec![
            repeat(GridTrackRepetition::AutoFill, vec![NonRepeatedTrackSizingFunction::length(40)]),
            repeat(GridTrackRepetition::AutoFill, vec![NonRepeatedTrackSizingFunction::length(20)]),
        ],
        ..Default::default()
    };
    assert_eq!(compute_explicit_grid_size_in_axis(&grid_style, AbsoluteAxis::Horizontal), 0);
}

#[test]
fn explicit_count_zero_for_empty_repeat_group() {
    let grid_style = Style {
        size: sized(600, 600),
        grid_template_columns: vec![repeat(GridTrackRepetition::AutoFill, vec![])],
        ..Default::default()
    };
    assert_eq!(compute_explicit_grid_size_in_axis(&grid_style, AbsoluteAxis::Horizontal), 0);
}

#[test]
fn explicit_count_zero_for_repeat_mixed_with_non_fixed() {
    // A repetition combined with a track that has no fixed component makes
    // the whole template invalid.
    let grid_style = Style {
        size: sized(600, 600),
        grid_template_columns: vec![
            TrackSizingFunction::Single(NonRepeatedTrackSizingFunction::flex(1)),
            repeat(GridTrackRepetition::AutoFill, vec![NonRepeatedTrackSizingFunction::length(40)]),
        ],
        ..Default::default()
    };
    assert_eq!(compute_explicit_grid_size_in_axis(&grid_style, AbsoluteAxis::Horizontal), 0);
}

#[test]
fn explicit_count_monotonic_in_container_size() {
    // Fixed AutoFill template with fixed-size repeated tracks: the count
    // never decreases as the container grows.
    let mut previous: u16 = 0;
    for width in [0, 40, 80, 120, 160, 200, 240] {
        let grid_style = Style {
            size: sized(width, 100),
            grid_template_columns: vec![repeat(GridTrackRepetition::AutoFill, vec![
                NonRepeatedTrackSizingFunction::length(40),
            ])],
            ..Default::default()
        };
        let count = compute_explicit_grid_size_in_axis(&grid_style, AbsoluteAxis::Horizontal);
        assert!(count >= previous);
        previous = count;
    }
    assert_eq!(previous, 6);
}

#[test]
fn explicit_count_never_below_one_full_repetition() {
    // The container fits no repetition at all, yet the pattern still
    // repeats once: the count equals the repeated group's length.
    let grid_style = Style {
        size: sized(30, 30),
        grid_template_columns: vec![repeat(GridTrackRepetition::AutoFill, vec![
            NonRepeatedTrackSizingFunction::length(40),
            NonRepeatedTrackSizingFunction::length(60),
        ])],
        ..Default::default()
    };
    assert_eq!(compute_explicit_grid_size_in_axis(&grid_style, AbsoluteAxis::Horizontal), 2);
}

#[test]
fn explicit_count_zero_cost_repetition_repeats_once() {
    // A repeated group whose tracks and gap resolve to zero space cannot
    // change what fits; the guarded fallback repeats the group once.
    let grid_style = Style {
        size: sized(120, 120),
        grid_template_columns: vec![repeat(GridTrackRepetition::AutoFill, vec![
            NonRepeatedTrackSizingFunction::length(0),
        ])],
        ..Default::default()
    };
    assert_eq!(compute_explicit_grid_size_in_axis(&grid_style, AbsoluteAxis::Horizontal), 1);
}

#[test]
fn explicit_count_percent_tracks_resolve_against_inner_size() {
    let grid_style = Style {
        size: sized(100, 100),
        grid_template_columns: vec![repeat(GridTrackRepetition::AutoFill, vec![
            NonRepeatedTrackSizingFunction::percent(25),
        ])],
        ..Default::default()
    };
    assert_eq!(compute_explicit_grid_size_in_axis(&grid_style, AbsoluteAxis::Horizontal), 4);
}

#[test]
fn explicit_count_percent_gap_resolves_against_inner_size() {
    // A 10 percent gap of the 200-unit content box is 20 units: each extra
    // repetition costs 60, so two more fit after the first.
    let grid_style = Style {
        size: sized(200, 200),
        grid_template_columns: vec![repeat(GridTrackRepetition::AutoFill, vec![
            NonRepeatedTrackSizingFunction::length(40),
        ])],
        gap: Size {
            width: LengthPercentage::Percent(10),
            height: LengthPercentage::Percent(10),
        },
        ..Default::default()
    };
    assert_eq!(compute_explicit_grid_size_in_axis(&grid_style, AbsoluteAxis::Horizontal), 3);
}

#[test]
fn explicit_count_percent_padding_shrinks_inner_size() {
    // Each horizontal padding edge is 10 percent of the 100-unit outer
    // size, leaving an 80-unit content box for four 20-unit tracks.
    let grid_style = Style {
        size: sized(100, 100),
        padding: Rect {
            left: LengthPercentage::Percent(10),
            right: LengthPercentage::Percent(10),
            top: LengthPercentage::Length(0),
            bottom: LengthPercentage::Length(0),
        },
        grid_template_columns: vec![repeat(GridTrackRepetition::AutoFill, vec![
            NonRepeatedTrackSizingFunction::length(20),
        ])],
        ..Default::default()
    };
    assert_eq!(compute_explicit_grid_size_in_axis(&grid_style, AbsoluteAxis::Horizontal), 4);
}

#[test]
fn explicit_count_minmax_space_reads_max_for_both_candidates() {
    // Regression test for the definite-value quirk: while counting
    // repetitions, both the maximum-oriented and the minimum-oriented
    // candidate of a track's definite space are read from the max sizing
    // function, so a `minmax(100, 200)` track consumes 200, not 100.
    // Were the minimum read from the min sizing function, the non-repeating
    // space would be 100, leaving room for 12 repetitions and a count of 13.
    let grid_style = Style {
        size: sized(600, 600),
        grid_template_columns: vec![
            TrackSizingFunction::Single(NonRepeatedTrackSizingFunction::minmax(
                MinTrackSizingFunction::Fixed(LengthPercentage::Length(100)),
                MaxTrackSizingFunction::Fixed(LengthPercentage::Length(200)),
            )),
            repeat(GridTrackRepetition::AutoFill, vec![
                NonRepeatedTrackSizingFunction::length(40),
            ]),
        ],
        ..Default::default()
    };
    assert_eq!(compute_explicit_grid_size_in_axis(&grid_style, AbsoluteAxis::Horizontal), 11);
}

#[test]
fn explicit_count_preferred_size_capped_by_max_size() {
    // The outer size is the minimum of the preferred and maximum sizes.
    let grid_style = Style {
        size: sized(200, 200),
        max_size: sized(120, 120),
        grid_template_columns: vec![repeat(GridTrackRepetition::AutoFill, vec![
            NonRepeatedTrackSizingFunction::length(40),
        ])],
        ..Default::default()
    };
    assert_eq!(compute_explicit_grid_size_in_axis(&grid_style, AbsoluteAxis::Horizontal), 3);
}

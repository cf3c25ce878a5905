use grid_tracks::initializer::{create_implicit_tracks, initialize_grid_tracks, ItemTable, NoItems};
use grid_tracks::style::{
    GridTrackRepetition, LengthPercentage, MaxTrackSizingFunction, MinTrackSizingFunction,
    NonRepeatedTrackSizingFunction, TrackSizingFunction,
};
use grid_tracks::track::{GridTrack, GridTrackKind, TrackCounts};

#[test]
fn test_initialize_grid_tracks() {
    let px0 = LengthPercentage::Length(0);
    let px20 = LengthPercentage::Length(20);
    let px100 = LengthPercentage::Length(100);

    // Setup test
    let track_template = vec![
        TrackSizingFunction::Single(NonRepeatedTrackSizingFunction::length(100)),
        TrackSizingFunction::Single(NonRepeatedTrackSizingFunction::minmax(
            MinTrackSizingFunction::Fixed(px100),
            MaxTrackSizingFunction::Flex(2),
        )),
        TrackSizingFunction::Single(NonRepeatedTrackSizingFunction::flex(1)),
    ];
    let track_counts = TrackCounts {
        negative_implicit: 3,
        explicit: track_template.len() as u16,
        positive_implicit: 3,
    };
    let auto_tracks = vec![
        NonRepeatedTrackSizingFunction::auto(),
        NonRepeatedTrackSizingFunction::length(100),
    ];
    let gap = px20;

    // Call function
    let mut tracks = Vec::new();
    initialize_grid_tracks(&mut tracks, track_counts, &track_template, &auto_tracks, gap, &NoItems);

    // Assertions
    let expected = vec![
        // Gutter
        (GridTrackKind::Gutter, MinTrackSizingFunction::Fixed(px0), MaxTrackSizingFunction::Fixed(px0)),
        // Negative implicit tracks
        (GridTrackKind::Track, MinTrackSizingFunction::Fixed(px100), MaxTrackSizingFunction::Fixed(px100)),
        (GridTrackKind::Gutter, MinTrackSizingFunction::Fixed(px20), MaxTrackSizingFunction::Fixed(px20)),
        (GridTrackKind::Track, MinTrackSizingFunction::Auto, MaxTrackSizingFunction::Auto),
        (GridTrackKind::Gutter, MinTrackSizingFunction::Fixed(px20), MaxTrackSizingFunction::Fixed(px20)),
        (GridTrackKind::Track, MinTrackSizingFunction::Fixed(px100), MaxTrackSizingFunction::Fixed(px100)),
        (GridTrackKind::Gutter, MinTrackSizingFunction::Fixed(px20), MaxTrackSizingFunction::Fixed(px20)),
        // Explicit tracks
        (GridTrackKind::Track, MinTrackSizingFunction::Fixed(px100), MaxTrackSizingFunction::Fixed(px100)),
        (GridTrackKind::Gutter, MinTrackSizingFunction::Fixed(px20), MaxTrackSizingFunction::Fixed(px20)),
        (GridTrackKind::Track, MinTrackSizingFunction::Fixed(px100), MaxTrackSizingFunction::Flex(2)), // Note: separate min-max functions
        (GridTrackKind::Gutter, MinTrackSizingFunction::Fixed(px20), MaxTrackSizingFunction::Fixed(px20)),
        (GridTrackKind::Track, MinTrackSizingFunction::Auto, MaxTrackSizingFunction::Flex(1)), // Note: min sizing function of flex sizing functions is auto
        (GridTrackKind::Gutter, MinTrackSizingFunction::Fixed(px20), MaxTrackSizingFunction::Fixed(px20)),
        // Positive implicit tracks
        (GridTrackKind::Track, MinTrackSizingFunction::Auto, MaxTrackSizingFunction::Auto),
        (GridTrackKind::Gutter, MinTrackSizingFunction::Fixed(px20), MaxTrackSizingFunction::Fixed(px20)),
        (GridTrackKind::Track, MinTrackSizingFunction::Fixed(px100), MaxTrackSizingFunction::Fixed(px100)),
        (GridTrackKind::Gutter, MinTrackSizingFunction::Fixed(px20), MaxTrackSizingFunction::Fixed(px20)),
        (GridTrackKind::Track, MinTrackSizingFunction::Auto, MaxTrackSizingFunction::Auto),
        (GridTrackKind::Gutter, MinTrackSizingFunction::Fixed(px0), MaxTrackSizingFunction::Fixed(px0)),
    ];

    assert_eq!(tracks.len(), expected.len(), "Number of tracks doesn't match");

    for (idx, (actual, (kind, min, max))) in tracks.into_iter().zip(expected).enumerate() {
        assert_eq!(actual.kind, kind, "Track {idx} (0-based index)");
        assert_eq!(actual.min_track_sizing_function, min, "Track {idx} (0-based index)");
        assert_eq!(actual.max_track_sizing_function, max, "Track {idx} (0-based index)");
    }
}

#[test]
fn initialize_empty_grid_has_collapsed_boundaries() {
    // Zero tracks, zero gap: the sequence is the single boundary gutter,
    // collapsed to a fixed zero length.
    let template: Vec<TrackSizingFunction> = Vec::new();
    let auto_tracks: Vec<NonRepeatedTrackSizingFunction> = Vec::new();
    let counts = TrackCounts { negative_implicit: 0, explicit: 0, positive_implicit: 0 };
    let mut tracks = Vec::new();
    initialize_grid_tracks(
        &mut tracks,
        counts,
        &template,
        &auto_tracks,
        LengthPercentage::Length(0),
        &NoItems,
    );
    assert_eq!(tracks.len(), 1);
    assert_eq!(tracks[0].kind, GridTrackKind::Gutter);
    assert!(tracks[0].collapsed);
    assert_eq!(
        tracks[0].min_track_sizing_function,
        MinTrackSizingFunction::Fixed(LengthPercentage::Length(0))
    );
}

#[test]
fn initialize_alternates_and_collapses_boundaries() {
    // 1 negative-implicit, 2 explicit, 1 positive-implicit track with a
    // zero gap: 2 * 4 + 1 entries, strictly alternating, real gutter
    // entries even at zero gap, boundaries collapsed.
    let template = vec![
        TrackSizingFunction::Single(NonRepeatedTrackSizingFunction::length(10)),
        TrackSizingFunction::Single(NonRepeatedTrackSizingFunction::length(20)),
    ];
    let auto_tracks: Vec<NonRepeatedTrackSizingFunction> = Vec::new();
    let counts = TrackCounts { negative_implicit: 1, explicit: 2, positive_implicit: 1 };
    let mut tracks = Vec::new();
    initialize_grid_tracks(
        &mut tracks,
        counts,
        &template,
        &auto_tracks,
        LengthPercentage::Length(0),
        &NoItems,
    );
    assert_eq!(tracks.len(), 9);
    for (idx, track) in tracks.iter().enumerate() {
        let expected_kind = if idx % 2 == 0 { GridTrackKind::Gutter } else { GridTrackKind::Track };
        assert_eq!(track.kind, expected_kind, "entry {idx}");
    }
    assert!(tracks[0].collapsed);
    assert!(tracks[8].collapsed);
    assert!(!tracks[4].collapsed);
}

#[test]
fn initialize_auto_fit_collapses_empty_tracks() {
    // Three auto-fit tracks; only absolute index 0 holds an item, so the
    // second and third tracks and their trailing gutters collapse.
    let template = vec![TrackSizingFunction::AutoRepeat(GridTrackRepetition::AutoFit, vec![
        NonRepeatedTrackSizingFunction::length(40),
    ])];
    let auto_tracks: Vec<NonRepeatedTrackSizingFunction> = Vec::new();
    let counts = TrackCounts { negative_implicit: 0, explicit: 3, positive_implicit: 0 };
    let presence = ItemTable { occupied: vec![true] };
    let mut tracks = Vec::new();
    initialize_grid_tracks(
        &mut tracks,
        counts,
        &template,
        &auto_tracks,
        LengthPercentage::Length(20),
        &presence,
    );
    assert_eq!(tracks.len(), 7);
    let collapsed: Vec<bool> = tracks.iter().map(|t| t.collapsed).collect();
    assert_eq!(collapsed, vec![true, false, false, true, true, true, true]);
    assert_eq!(
        tracks[1].min_track_sizing_function,
        MinTrackSizingFunction::Fixed(LengthPercentage::Length(40))
    );
    // A collapsed track keeps its slot but is forced to zero length.
    assert_eq!(
        tracks[3].min_track_sizing_function,
        MinTrackSizingFunction::Fixed(LengthPercentage::Length(0))
    );
}

#[test]
fn initialize_skips_template_when_explicit_count_zero() {
    // An explicit count of zero disregards the template entirely, even when
    // it is non-empty: the mechanism by which an invalid template, already
    // reduced to zero by the resolver, is ignored.
    let template = vec![
        TrackSizingFunction::Single(NonRepeatedTrackSizingFunction::length(10)),
    ];
    let auto_tracks: Vec<NonRepeatedTrackSizingFunction> = Vec::new();
    let counts = TrackCounts { negative_implicit: 0, explicit: 0, positive_implicit: 2 };
    let mut tracks = Vec::new();
    initialize_grid_tracks(
        &mut tracks,
        counts,
        &template,
        &auto_tracks,
        LengthPercentage::Length(0),
        &NoItems,
    );
    assert_eq!(tracks.len(), 5);
    assert_eq!(tracks[1].min_track_sizing_function, MinTrackSizingFunction::Auto);
    assert_eq!(tracks[3].min_track_sizing_function, MinTrackSizingFunction::Auto);
}

#[test]
fn initialize_reuse_is_idempotent() {
    // Calling the initializer twice in succession with identical inputs on
    // the same reused sequence yields identical output both times.
    let template = vec![
        TrackSizingFunction::Single(NonRepeatedTrackSizingFunction::length(100)),
        TrackSizingFunction::AutoRepeat(GridTrackRepetition::AutoFill, vec![
            NonRepeatedTrackSizingFunction::length(40),
        ]),
    ];
    let auto_tracks = vec![NonRepeatedTrackSizingFunction::length(60)];
    let counts = TrackCounts { negative_implicit: 2, explicit: 4, positive_implicit: 1 };
    let gap = LengthPercentage::Length(8);
    let mut tracks: Vec<GridTrack> = Vec::new();
    initialize_grid_tracks(&mut tracks, counts, &template, &auto_tracks, gap, &NoItems);
    let first_pass = tracks.clone();
    initialize_grid_tracks(&mut tracks, counts, &template, &auto_tracks, gap, &NoItems);
    assert_eq!(tracks, first_pass);
}

#[test]
fn create_implicit_tracks_cycles_from_offset() {
    let auto_tracks = vec![
        NonRepeatedTrackSizingFunction::length(10),
        NonRepeatedTrackSizingFunction::length(20),
        NonRepeatedTrackSizingFunction::length(30),
    ];
    let mut tracks: Vec<GridTrack> = Vec::new();
    create_implicit_tracks(&mut tracks, 4, &auto_tracks, 2, LengthPercentage::Length(5));
    assert_eq!(tracks.len(), 8);
    let mins: Vec<MinTrackSizingFunction> = tracks
        .iter()
        .step_by(2)
        .map(|t| t.min_track_sizing_function)
        .collect();
    assert_eq!(
        mins,
        vec![
            MinTrackSizingFunction::Fixed(LengthPercentage::Length(30)),
            MinTrackSizingFunction::Fixed(LengthPercentage::Length(10)),
            MinTrackSizingFunction::Fixed(LengthPercentage::Length(20)),
            MinTrackSizingFunction::Fixed(LengthPercentage::Length(30)),
        ]
    );
    assert_eq!(tracks[1].kind, GridTrackKind::Gutter);
    assert_eq!(
        tracks[1].min_track_sizing_function,
        MinTrackSizingFunction::Fixed(LengthPercentage::Length(5))
    );
}

#[test]
fn initialize_auto_tracks_with_no_negative_implicit() {
    // A non-empty auto-tracks list with zero negative-implicit tracks: the
    // phase offset is irrelevant because nothing is emitted on the negative
    // side; the call succeeds and the positive side cycles from zero.
    let template: Vec<TrackSizingFunction> = Vec::new();
    let auto_tracks = vec![
        NonRepeatedTrackSizingFunction::length(10),
        NonRepeatedTrackSizingFunction::length(20),
    ];
    let counts = TrackCounts { negative_implicit: 0, explicit: 0, positive_implicit: 3 };
    let mut tracks = Vec::new();
    initialize_grid_tracks(
        &mut tracks,
        counts,
        &template,
        &auto_tracks,
        LengthPercentage::Length(0),
        &NoItems,
    );
    assert_eq!(tracks.len(), 7);
    let mins: Vec<MinTrackSizingFunction> = tracks
        .iter()
        .skip(1)
        .step_by(2)
        .map(|t| t.min_track_sizing_function)
        .collect();
    assert_eq!(
        mins,
        vec![
            MinTrackSizingFunction::Fixed(LengthPercentage::Length(10)),
            MinTrackSizingFunction::Fixed(LengthPercentage::Length(20)),
            MinTrackSizingFunction::Fixed(LengthPercentage::Length(10)),
        ]
    );
    assert!(tracks[0].collapsed);
    assert!(tracks[6].collapsed);
}

#[test]
fn initialize_negative_implicit_phase_offset() {
    // Two auto tracks and three negative-implicit tracks: the negative side
    // starts at offset max(2, 3) % min(2, 3) = 1, the positive side at 0.
    let template: Vec<TrackSizingFunction> = Vec::new();
    let auto_tracks = vec![
        NonRepeatedTrackSizingFunction::length(10),
        NonRepeatedTrackSizingFunction::length(20),
    ];
    let counts = TrackCounts { negative_implicit: 3, explicit: 0, positive_implicit: 2 };
    let mut tracks = Vec::new();
    initialize_grid_tracks(
        &mut tracks,
        counts,
        &template,
        &auto_tracks,
        LengthPercentage::Length(0),
        &NoItems,
    );
    assert_eq!(tracks.len(), 11);
    let mins: Vec<MinTrackSizingFunction> = tracks
        .iter()
        .skip(1)
        .step_by(2)
        .map(|t| t.min_track_sizing_function)
        .collect();
    assert_eq!(
        mins,
        vec![
            // Negative-implicit: cycle from offset 1 → 20, 10, 20.
            MinTrackSizingFunction::Fixed(LengthPercentage::Length(20)),
            MinTrackSizingFunction::Fixed(LengthPercentage::Length(10)),
            MinTrackSizingFunction::Fixed(LengthPercentage::Length(20)),
            // Positive-implicit: cycle from offset 0 → 10, 20.
            MinTrackSizingFunction::Fixed(LengthPercentage::Length(10)),
            MinTrackSizingFunction::Fixed(LengthPercentage::Length(20)),
        ]
    );
}

//! The output unit of the initializer: tracks, gutters, and the per-axis
//! track counts.

use crate::style::{
    LengthPercentage, MaxTrackSizingFunction, MinTrackSizingFunction,
    NonRepeatedTrackSizingFunction,
};
use vstd::prelude::*;

verus! {

/// Whether a sequence entry is a real track lane or the spacing slot
/// between two lanes.
#[derive(Clone, Copy, Debug, PartialEq, Eq, Structural)]
pub enum GridTrackKind {
    Track,
    Gutter,
}

/// One entry of the materialized track sequence.
///
/// A collapsed entry is retained for indexing purposes but carries zero
/// space: collapsing forces both sizing functions to a fixed zero length.
#[derive(Clone, Copy, Debug, PartialEq, Eq, Structural)]
pub struct GridTrack {
    pub kind: GridTrackKind,
    pub min_track_sizing_function: MinTrackSizingFunction,
    pub max_track_sizing_function: MaxTrackSizingFunction,
    pub collapsed: bool,
}

/// The track made from the sizing pair `def`, not collapsed.
pub open spec fn spec_track(def: NonRepeatedTrackSizingFunction) -> GridTrack {
    GridTrack {
        kind: GridTrackKind::Track,
        min_track_sizing_function: def.min,
        max_track_sizing_function: def.max,
        collapsed: false,
    }
}

/// The gutter sized to `gap`, not collapsed.
pub open spec fn spec_gutter(gap: LengthPercentage) -> GridTrack {
    GridTrack {
        kind: GridTrackKind::Gutter,
        min_track_sizing_function: MinTrackSizingFunction::Fixed(gap),
        max_track_sizing_function: MaxTrackSizingFunction::Fixed(gap),
        collapsed: false,
    }
}

/// `t` collapsed: same kind, both sizing functions forced to a fixed zero
/// length.
pub open spec fn spec_collapse(t: GridTrack) -> GridTrack {
    GridTrack {
        kind: t.kind,
        min_track_sizing_function: MinTrackSizingFunction::Fixed(LengthPercentage::Length(0)),
        max_track_sizing_function: MaxTrackSizingFunction::Fixed(LengthPercentage::Length(0)),
        collapsed: true,
    }
}

impl GridTrack {
    /// A new track lane with the given sizing functions.
    pub fn new(
        min_track_sizing_function: MinTrackSizingFunction,
        max_track_sizing_function: MaxTrackSizingFunction,
    ) -> (t: GridTrack)
        ensures
            t == (GridTrack {
                kind: GridTrackKind::Track,
                min_track_sizing_function,
                max_track_sizing_function,
                collapsed: false,
            }),
    {
        GridTrack {
            kind: GridTrackKind::Track,
            min_track_sizing_function,
            max_track_sizing_function,
            collapsed: false,
        }
    }

    /// A new gutter sized to `gap`.
    pub fn gutter(gap: LengthPercentage) -> (t: GridTrack)
        ensures
            t == spec_gutter(gap),
    {
        GridTrack {
            kind: GridTrackKind::Gutter,
            min_track_sizing_function: MinTrackSizingFunction::Fixed(gap),
            max_track_sizing_function: MaxTrackSizingFunction::Fixed(gap),
            collapsed: false,
        }
    }

    /// Mark this entry as collapsed: it keeps its slot in the sequence but
    /// contributes zero space to later sizing.
    pub fn collapse(&mut self)
        ensures
            *final(self) == spec_collapse(*old(self)),
    {
        self.collapsed = true;
        self.min_track_sizing_function = MinTrackSizingFunction::Fixed(
            LengthPercentage::Length(0),
        );
        self.max_track_sizing_function = MaxTrackSizingFunction::Fixed(
            LengthPercentage::Length(0),
        );
    }
}

/// The number of negative-implicit, explicit and positive-implicit tracks of
/// one axis. `explicit` is expected to originate from the resolver, the
/// other two from item placement.
#[derive(Clone, Copy, Debug, PartialEq, Eq, Structural)]
pub struct TrackCounts {
    pub negative_implicit: u16,
    pub explicit: u16,
    pub positive_implicit: u16,
}

impl TrackCounts {
    /// The total number of tracks of the axis.
    pub open spec fn spec_len(self) -> int {
        self.negative_implicit as int + self.explicit as int + self.positive_implicit as int
    }

    /// The total number of tracks of the axis.
    pub fn len(&self) -> (n: usize)
        ensures
            n == self.spec_len(),
    {
        self.negative_implicit as usize + self.explicit as usize + self.positive_implicit as usize
    }
}

} // verus!

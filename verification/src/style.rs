//! Style values consumed by the resolver and the initializer: lengths,
//! sizing functions, track templates and the per-axis style record.
//!
//! Lengths are integer distances; a percentage is an integer percent value
//! and resolves against a parent length by flooring division. Well-formed
//! values are bounded (`MAX_LENGTH`, `MAX_PERCENT`) so that every sum and
//! product formed while resolving a template fits in `i64`.

use crate::geometry::{AbsoluteAxis, Size};
use crate::numeric::{floor_div, lemma_div_range, opt_int};
use vstd::prelude::*;

verus! {

/// Largest well-formed length or dimension value.
pub const MAX_LENGTH: i64 = 1_000_000_000;

/// Largest well-formed percent value (`100` is the whole parent length).
pub const MAX_PERCENT: i64 = 1_000;

/// Bound on every parent length a percentage is resolved against.
pub const PARENT_BOUND: i64 = 100_000_000_000;

/// Bound on every resolved length (`PARENT_BOUND * MAX_PERCENT / 100`).
pub const RESOLVED_BOUND: i64 = 1_000_000_000_000;

/// A length that is either absolute or a percentage of a parent length.
#[derive(Clone, Copy, Debug, PartialEq, Eq, Structural)]
pub enum LengthPercentage {
    /// An absolute distance.
    Length(i64),
    /// A percent value of the parent length (`100` is the whole parent).
    Percent(i64),
}

impl LengthPercentage {
    /// Payload within the bounds the resolver's arithmetic relies on.
    pub open spec fn wf(self) -> bool {
        match self {
            LengthPercentage::Length(v) => 0 <= v <= MAX_LENGTH,
            LengthPercentage::Percent(p) => 0 <= p <= MAX_PERCENT,
        }
    }

    /// The resolved value against an optional parent length; a percentage
    /// with no parent resolves to zero.
    pub open spec fn spec_resolve_or_zero(self, parent: Option<int>) -> int {
        match self {
            LengthPercentage::Length(v) => v as int,
            LengthPercentage::Percent(p) => match parent {
                Some(s) => (s * p) / 100,
                None => 0,
            },
        }
    }

    /// Resolve against an optional parent length; a percentage with no
    /// parent resolves to zero.
    pub fn resolve_or_zero(self, parent: Option<i64>) -> (r: i64)
        requires
            self.wf(),
            match parent {
                Some(s) => -PARENT_BOUND <= s <= PARENT_BOUND,
                None => true,
            },
        ensures
            r as int == self.spec_resolve_or_zero(opt_int(parent)),
            -RESOLVED_BOUND <= r <= RESOLVED_BOUND,
            (match parent {
                Some(s) => 0 <= s <= MAX_LENGTH,
                None => true,
            }) ==> 0 <= r <= 10_000_000_000,
    {
        match self {
            LengthPercentage::Length(v) => v,
            LengthPercentage::Percent(p) => match parent {
                Some(s) => percent_of(s, p),
                None => 0,
            },
        }
    }
}

/// `parent * p / 100`, rounding toward negative infinity.
pub fn percent_of(parent: i64, p: i64) -> (r: i64)
    requires
        -PARENT_BOUND <= parent <= PARENT_BOUND,
        0 <= p <= MAX_PERCENT,
    ensures
        r as int == (parent as int * p as int) / 100,
        -RESOLVED_BOUND <= r <= RESOLVED_BOUND,
        0 <= parent ==> 0 <= r,
        0 <= parent <= MAX_LENGTH ==> r <= 10_000_000_000,
{
    proof {
        assert(-100_000_000_000_000 <= parent as int * p as int <= 100_000_000_000_000)
            by (nonlinear_arith)
            requires
                -PARENT_BOUND <= parent <= PARENT_BOUND,
                0 <= p <= MAX_PERCENT,
        ;
        lemma_div_range(
            parent as int * p as int,
            100,
            -1_000_000_000_000,
            1_000_000_000_000,
        );
        if 0 <= parent {
            assert(0 <= parent as int * p as int) by (nonlinear_arith)
                requires
                    0 <= parent,
                    0 <= p,
            ;
            if parent <= MAX_LENGTH {
                assert(parent as int * p as int <= 1_000_000_000_000) by (nonlinear_arith)
                    requires
                        0 <= parent <= MAX_LENGTH,
                        0 <= p <= MAX_PERCENT,
                ;
                lemma_div_range(parent as int * p as int, 100, 0, 10_000_000_000);
            } else {
                lemma_div_range(parent as int * p as int, 100, 0, 1_000_000_000_000);
            }
        }
    }
    let prod: i64 = parent * p;
    floor_div(prod, 100)
}

/// A preferred, minimum or maximum box size for one dimension.
#[derive(Clone, Copy, Debug, PartialEq, Eq, Structural)]
pub enum Dimension {
    /// An absolute distance.
    Length(i64),
    /// A percent value of a parent that is unknown here; indefinite.
    Percent(i64),
    /// No size given; indefinite.
    Auto,
}

impl Dimension {
    pub open spec fn wf(self) -> bool {
        match self {
            Dimension::Length(v) => 0 <= v <= MAX_LENGTH,
            Dimension::Percent(p) => 0 <= p <= MAX_PERCENT,
            Dimension::Auto => true,
        }
    }

    /// The definite value, if any: only an absolute length is definite.
    pub open spec fn spec_into_option(self) -> Option<int> {
        match self {
            Dimension::Length(v) => Some(v as int),
            Dimension::Percent(_) => None,
            Dimension::Auto => None,
        }
    }

    /// The definite value, if any.
    pub fn into_option(self) -> (r: Option<i64>)
        ensures
            opt_int(r) == self.spec_into_option(),
    {
        match self {
            Dimension::Length(v) => Some(v),
            Dimension::Percent(_) => None,
            Dimension::Auto => None,
        }
    }
}

/// The minimum component of a track sizing pair.
#[derive(Clone, Copy, Debug, PartialEq, Eq, Structural)]
pub enum MinTrackSizingFunction {
    Fixed(LengthPercentage),
    MinContent,
    MaxContent,
    Auto,
}

impl MinTrackSizingFunction {
    pub open spec fn wf(self) -> bool {
        match self {
            MinTrackSizingFunction::Fixed(lp) => lp.wf(),
            _ => true,
        }
    }

    /// Whether this component is a fixed length or percentage.
    pub open spec fn spec_is_fixed(self) -> bool {
        self matches MinTrackSizingFunction::Fixed(_)
    }
}

/// The maximum component of a track sizing pair.
#[derive(Clone, Copy, Debug, PartialEq, Eq, Structural)]
pub enum MaxTrackSizingFunction {
    Fixed(LengthPercentage),
    MinContent,
    MaxContent,
    FitContent(LengthPercentage),
    Auto,
    /// A flexible track with an integer flex factor.
    Flex(i64),
}

impl MaxTrackSizingFunction {
    pub open spec fn wf(self) -> bool {
        match self {
            MaxTrackSizingFunction::Fixed(lp) => lp.wf(),
            MaxTrackSizingFunction::FitContent(lp) => lp.wf(),
            _ => true,
        }
    }

    /// Whether this component is a fixed length or percentage.
    pub open spec fn spec_is_fixed(self) -> bool {
        self matches MaxTrackSizingFunction::Fixed(_)
    }

    /// The definite value against an optional parent length: a fixed length
    /// always, a fixed percentage only when the parent is definite, nothing
    /// for the content-based and flexible cases.
    pub open spec fn spec_definite_value(self, parent: Option<int>) -> Option<int> {
        match self {
            MaxTrackSizingFunction::Fixed(lp) => match lp {
                LengthPercentage::Length(v) => Some(v as int),
                LengthPercentage::Percent(p) => match parent {
                    Some(s) => Some((s * p) / 100),
                    None => None,
                },
            },
            _ => None,
        }
    }

    /// The definite value against an optional parent length, if any.
    pub fn definite_value(&self, parent: Option<i64>) -> (r: Option<i64>)
        requires
            self.wf(),
            match parent {
                Some(s) => -PARENT_BOUND <= s <= PARENT_BOUND,
                None => true,
            },
        ensures
            opt_int(r) == self.spec_definite_value(opt_int(parent)),
            match r {
                Some(v) => -RESOLVED_BOUND <= v <= RESOLVED_BOUND,
                None => true,
            },
    {
        match self {
            MaxTrackSizingFunction::Fixed(lp) => match lp {
                LengthPercentage::Length(v) => Some(*v),
                LengthPercentage::Percent(p) => match parent {
                    Some(s) => Some(percent_of(s, *p)),
                    None => None,
                },
            },
            _ => None,
        }
    }
}

/// A (min, max) pair of sizing functions describing one track.
#[derive(Clone, Copy, Debug, PartialEq, Eq, Structural)]
pub struct NonRepeatedTrackSizingFunction {
    pub min: MinTrackSizingFunction,
    pub max: MaxTrackSizingFunction,
}

impl NonRepeatedTrackSizingFunction {
    pub open spec fn wf(self) -> bool {
        self.min.wf() && self.max.wf()
    }

    /// Whether either component resolves to a definite length independent of
    /// content and independent of the flexible case.
    pub open spec fn spec_has_fixed_component(self) -> bool {
        self.min.spec_is_fixed() || self.max.spec_is_fixed()
    }

    /// Whether either component is a fixed length or percentage.
    pub fn has_fixed_component(&self) -> (r: bool)
        ensures
            r == self.spec_has_fixed_component(),
    {
        match self.min {
            MinTrackSizingFunction::Fixed(_) => true,
            _ => match self.max {
                MaxTrackSizingFunction::Fixed(_) => true,
                _ => false,
            },
        }
    }

    /// The minimum component.
    pub fn min_sizing_function(&self) -> (r: MinTrackSizingFunction)
        ensures
            r == self.min,
    {
        self.min
    }

    /// The maximum component.
    pub fn max_sizing_function(&self) -> (r: MaxTrackSizingFunction)
        ensures
            r == self.max,
    {
        self.max
    }

    /// A track fixed to an absolute length on both components.
    pub fn length(v: i64) -> (r: Self)
        ensures
            r == (NonRepeatedTrackSizingFunction {
                min: MinTrackSizingFunction::Fixed(LengthPercentage::Length(v)),
                max: MaxTrackSizingFunction::Fixed(LengthPercentage::Length(v)),
            }),
    {
        NonRepeatedTrackSizingFunction {
            min: MinTrackSizingFunction::Fixed(LengthPercentage::Length(v)),
            max: MaxTrackSizingFunction::Fixed(LengthPercentage::Length(v)),
        }
    }

    /// A track fixed to a percentage of the container on both components.
    pub fn percent(p: i64) -> (r: Self)
        ensures
            r == (NonRepeatedTrackSizingFunction {
                min: MinTrackSizingFunction::Fixed(LengthPercentage::Percent(p)),
                max: MaxTrackSizingFunction::Fixed(LengthPercentage::Percent(p)),
            }),
    {
        NonRepeatedTrackSizingFunction {
            min: MinTrackSizingFunction::Fixed(LengthPercentage::Percent(p)),
            max: MaxTrackSizingFunction::Fixed(LengthPercentage::Percent(p)),
        }
    }

    /// An automatically sized track.
    pub fn auto() -> (r: Self)
        ensures
            r == (NonRepeatedTrackSizingFunction {
                min: MinTrackSizingFunction::Auto,
                max: MaxTrackSizingFunction::Auto,
            }),
    {
        NonRepeatedTrackSizingFunction {
            min: MinTrackSizingFunction::Auto,
            max: MaxTrackSizingFunction::Auto,
        }
    }

    /// A flexible track: a flexible maximum implies an automatic minimum
    /// unless the minimum is given independently (see [`Self::minmax`]).
    pub fn flex(factor: i64) -> (r: Self)
        ensures
            r == (NonRepeatedTrackSizingFunction {
                min: MinTrackSizingFunction::Auto,
                max: MaxTrackSizingFunction::Flex(factor),
            }),
    {
        NonRepeatedTrackSizingFunction {
            min: MinTrackSizingFunction::Auto,
            max: MaxTrackSizingFunction::Flex(factor),
        }
    }

    /// A track with independently given minimum and maximum components.
    pub fn minmax(min: MinTrackSizingFunction, max: MaxTrackSizingFunction) -> (r: Self)
        ensures
            r == (NonRepeatedTrackSizingFunction { min, max }),
    {
        NonRepeatedTrackSizingFunction { min, max }
    }
}

/// The two kinds of automatic repetition.
#[derive(Clone, Copy, Debug, PartialEq, Eq, Structural)]
pub enum GridTrackRepetition {
    /// Repeat to fill the container.
    AutoFill,
    /// Like `AutoFill`, but generated tracks holding no items are collapsed.
    AutoFit,
}

/// One entry of a track template list: a single track, or a group of tracks
/// repeated an automatically computed number of times.
#[derive(Debug, PartialEq)]
pub enum TrackSizingFunction {
    Single(NonRepeatedTrackSizingFunction),
    AutoRepeat(GridTrackRepetition, Vec<NonRepeatedTrackSizingFunction>),
}

impl TrackSizingFunction {
    pub open spec fn wf(self) -> bool {
        match self {
            TrackSizingFunction::Single(s) => s.wf(),
            TrackSizingFunction::AutoRepeat(_, group) => {
                &&& group@.len() <= u16::MAX
                &&& forall|i: int| 0 <= i < group@.len() ==> (#[trigger] group@[i]).wf()
            },
        }
    }

    /// Whether this entry is an automatic repetition.
    pub open spec fn spec_is_auto_repetition(self) -> bool {
        self matches TrackSizingFunction::AutoRepeat(_, _)
    }

    /// Whether this entry is an automatic repetition.
    pub fn is_auto_repetition(&self) -> (r: bool)
        ensures
            r == self.spec_is_auto_repetition(),
    {
        match self {
            TrackSizingFunction::Single(_) => false,
            TrackSizingFunction::AutoRepeat(_, _) => true,
        }
    }
}

/// The four edge widths of a padding or border area.
#[derive(Clone, Copy, Debug, PartialEq, Eq, Structural)]
pub struct Rect {
    pub left: LengthPercentage,
    pub right: LengthPercentage,
    pub top: LengthPercentage,
    pub bottom: LengthPercentage,
}

impl Rect {
    pub open spec fn wf(self) -> bool {
        self.left.wf() && self.right.wf() && self.top.wf() && self.bottom.wf()
    }

    /// A rect of zero absolute widths.
    pub open spec fn spec_zero() -> Rect {
        Rect {
            left: LengthPercentage::Length(0),
            right: LengthPercentage::Length(0),
            top: LengthPercentage::Length(0),
            bottom: LengthPercentage::Length(0),
        }
    }

    /// The two edges crossed when walking along `axis`, each resolved
    /// against `parent` (percentages of an indefinite parent count as zero),
    /// summed.
    pub open spec fn spec_resolved_axis_sum(self, axis: AbsoluteAxis, parent: Option<int>) -> int {
        match axis {
            AbsoluteAxis::Horizontal => self.left.spec_resolve_or_zero(parent)
                + self.right.spec_resolve_or_zero(parent),
            AbsoluteAxis::Vertical => self.top.spec_resolve_or_zero(parent)
                + self.bottom.spec_resolve_or_zero(parent),
        }
    }

    /// Resolve the two edges crossed along `axis` against `parent` and sum
    /// them.
    pub fn resolved_axis_sum(&self, axis: AbsoluteAxis, parent: Option<i64>) -> (r: i64)
        requires
            self.wf(),
            match parent {
                Some(s) => 0 <= s <= MAX_LENGTH,
                None => true,
            },
        ensures
            r as int == self.spec_resolved_axis_sum(axis, opt_int(parent)),
            0 <= r <= 20_000_000_000,
    {
        match axis {
            AbsoluteAxis::Horizontal => self.left.resolve_or_zero(parent)
                + self.right.resolve_or_zero(parent),
            AbsoluteAxis::Vertical => self.top.resolve_or_zero(parent)
                + self.bottom.resolve_or_zero(parent),
        }
    }
}

/// The per-axis style fields the resolver reads. The template lists are
/// shared with the initializer.
#[derive(Debug, PartialEq)]
pub struct Style {
    pub grid_template_rows: Vec<TrackSizingFunction>,
    pub grid_template_columns: Vec<TrackSizingFunction>,
    pub size: Size<Dimension>,
    pub min_size: Size<Dimension>,
    pub max_size: Size<Dimension>,
    pub padding: Rect,
    pub border: Rect,
    pub gap: Size<LengthPercentage>,
}

impl Style {
    /// Every length in the style within bounds, and the template lists short
    /// enough that their track counts fit in `u16`.
    pub open spec fn wf(self) -> bool {
        &&& self.grid_template_rows@.len() <= u16::MAX
        &&& self.grid_template_columns@.len() <= u16::MAX
        &&& forall|i: int|
            0 <= i < self.grid_template_rows@.len() ==> (#[trigger] self.grid_template_rows@[i]).wf()
        &&& forall|i: int|
            0 <= i < self.grid_template_columns@.len() ==> (
            #[trigger] self.grid_template_columns@[i]).wf()
        &&& self.size.width.wf() && self.size.height.wf()
        &&& self.min_size.width.wf() && self.min_size.height.wf()
        &&& self.max_size.width.wf() && self.max_size.height.wf()
        &&& self.padding.wf()
        &&& self.border.wf()
        &&& self.gap.width.wf() && self.gap.height.wf()
    }

    /// The template list for `axis`: columns along the horizontal axis, rows
    /// along the vertical one.
    pub open spec fn spec_grid_template_tracks(self, axis: AbsoluteAxis) -> Seq<
        TrackSizingFunction,
    > {
        match axis {
            AbsoluteAxis::Horizontal => self.grid_template_columns@,
            AbsoluteAxis::Vertical => self.grid_template_rows@,
        }
    }

    /// The template list for `axis`.
    pub fn grid_template_tracks(&self, axis: AbsoluteAxis) -> (r: &Vec<TrackSizingFunction>)
        ensures
            r@ == self.spec_grid_template_tracks(axis),
    {
        match axis {
            AbsoluteAxis::Horizontal => &self.grid_template_columns,
            AbsoluteAxis::Vertical => &self.grid_template_rows,
        }
    }

    /// Whether this is the style of a container with no templates,
    /// indefinite sizes, no padding or border, and zero gap.
    pub open spec fn spec_is_default(self) -> bool {
        &&& self.grid_template_rows@ == Seq::<TrackSizingFunction>::empty()
        &&& self.grid_template_columns@ == Seq::<TrackSizingFunction>::empty()
        &&& self.size == (Size { width: Dimension::Auto, height: Dimension::Auto })
        &&& self.min_size == (Size { width: Dimension::Auto, height: Dimension::Auto })
        &&& self.max_size == (Size { width: Dimension::Auto, height: Dimension::Auto })
        &&& self.padding == Rect::spec_zero()
        &&& self.border == Rect::spec_zero()
        &&& self.gap == (Size {
            width: LengthPercentage::Length(0),
            height: LengthPercentage::Length(0),
        })
    }
}

impl Default for Style {
    /// The style of a container with no templates, indefinite sizes, no
    /// padding or border, and zero gap.
    fn default() -> (s: Style)
        ensures
            s.spec_is_default(),
            s.wf(),
    {
        Style {
            grid_template_rows: Vec::new(),
            grid_template_columns: Vec::new(),
            size: Size { width: Dimension::Auto, height: Dimension::Auto },
            min_size: Size { width: Dimension::Auto, height: Dimension::Auto },
            max_size: Size { width: Dimension::Auto, height: Dimension::Auto },
            padding: Rect {
                left: LengthPercentage::Length(0),
                right: LengthPercentage::Length(0),
                top: LengthPercentage::Length(0),
                bottom: LengthPercentage::Length(0),
            },
            border: Rect {
                left: LengthPercentage::Length(0),
                right: LengthPercentage::Length(0),
                top: LengthPercentage::Length(0),
                bottom: LengthPercentage::Length(0),
            },
            gap: Size {
                width: LengthPercentage::Length(0),
                height: LengthPercentage::Length(0),
            },
        }
    }
}

} // verus!

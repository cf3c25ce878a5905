//! Axis selection and two-dimensional containers for per-axis style fields.

use vstd::prelude::*;

verus! {

/// One of the two orthogonal directions of a grid container.
///
/// `Horizontal` selects the width-related fields (and therefore columns),
/// `Vertical` the height-related fields (rows).
#[derive(Clone, Copy, Debug, PartialEq, Eq, Structural)]
pub enum AbsoluteAxis {
    Horizontal,
    Vertical,
}

/// A pair of values, one per dimension of the container.
#[derive(Clone, Copy, Debug, PartialEq, Eq)]
pub struct Size<T> {
    pub width: T,
    pub height: T,
}

impl<T: Copy> Size<T> {
    /// The field selected by `axis`: `width` for `Horizontal`, `height` for `Vertical`.
    pub open spec fn spec_get_abs(self, axis: AbsoluteAxis) -> T {
        match axis {
            AbsoluteAxis::Horizontal => self.width,
            AbsoluteAxis::Vertical => self.height,
        }
    }

    /// Pick the per-axis field.
    pub fn get_abs(&self, axis: AbsoluteAxis) -> (r: T)
        ensures
            r == self.spec_get_abs(axis),
    {
        match axis {
            AbsoluteAxis::Horizontal => self.width,
            AbsoluteAxis::Vertical => self.height,
        }
    }
}

} // verus!

//! Track resolution for one axis of a grid layout container.
//!
//! Two components are provided, used in sequence by a wider layout engine:
//!
//! - the explicit track count resolver ([`resolver::compute_explicit_grid_size_in_axis`]),
//!   which decides how many explicit tracks a `repeat()`-bearing template list
//!   produces given the container's available space, and
//! - the track list initializer ([`initializer::initialize_grid_tracks`]),
//!   which rewrites a caller-owned sequence into the fully materialized,
//!   ordered list of tracks and gutters with sizing functions and collapse
//!   flags resolved.
//!
//! All lengths are integer distances in an arbitrary unit chosen by the
//! caller; percentages are integer percent values resolved by flooring
//! division.

pub mod geometry;
pub mod initializer;
pub mod laws;
pub mod numeric;
pub mod resolver;
pub mod style;
pub mod track;

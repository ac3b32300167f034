//! Units of measure and index types shared by the whole layout.

use vstd::prelude::*;

verus! {

/// A distance or a coordinate, counted in thousandths of a stave space (the
/// gap between two neighbouring lines of a stave). Coordinates grow to the
/// right and downwards from the origin of the system.
pub type StaveSpaces = i32;

/// One whole stave space.
pub const STAVE_SPACE: StaveSpaces = 1000;

/// No distance at all.
pub const STAVE_SPACES_ZERO: StaveSpaces = 0;

/// A musical time, counted in ticks from the start of the movement.
pub type Ticks = u64;

/// The position of a horizontal grid line in its system's list.
pub type HorizontalGridLineIndex = usize;

/// The position of a vertical grid line in its system's list.
pub type VerticalGridLineIndex = usize;

/// The position of a block in its system's list.
pub type BlockIndex = usize;

} // verus!

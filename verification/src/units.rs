//! Units of measure and the fixed dimensions of the drawing.
//!
//! A length is a whole number of thousandths of the drawing unit. A
//! coordinate is a whole number of half-thousandths, so that half of any
//! length is a coordinate without rounding.

use vstd::prelude::*;

verus! {

/// Thousandths in one drawing unit.
pub const PER_UNIT: i64 = 1000;

/// The largest length the library accepts: one hundred thousand units.
pub const MAX_LENGTH: i64 = 100_000 * PER_UNIT;

/// Clear distance between the two members at the splice.
pub const GAP: i64 = 10 * PER_UNIT;

/// Half of `GAP`: the distance of either member's end from the splice.
pub const HALF_GAP: i64 = 5 * PER_UNIT;

/// How far the member is drawn to either side of the splice.
pub const MARGIN: i64 = 1000 * PER_UNIT;

/// Distance from the member's end to its first bolt column.
pub const EDGE: i64 = 40 * PER_UNIT;

/// Spacing of bolt columns along the member.
pub const PITCH: i64 = 60 * PER_UNIT;

/// Spacing of bolt columns along the member where the bolts are staggered.
pub const STAGGERED_PITCH: i64 = 45 * PER_UNIT;

/// How far a flange bolt's line runs past the plates it passes through.
pub const BOLT_MARGIN: i64 = 20 * PER_UNIT;

/// Length of each of the two strokes of a cross mark.
pub const CROSS_SIZE: i64 = 20 * PER_UNIT;

/// Clearance of a bolt hole around the bolt, on the radius.
pub const CLEARANCE: i64 = PER_UNIT;

/// Distance by which the cross-section view is drawn above the elevation.
pub const VIEW_SHIFT: i64 = 1000 * PER_UNIT;

/// Distance from a dimension's span to its text.
pub const DIMENSION_GAP: i64 = 5000 * PER_UNIT;

/// Height of the text of a dimension.
pub const TEXT_HEIGHT: i64 = 1000 * PER_UNIT;

/// Size of the arrows of a dimension.
pub const ARROW_SIZE: i64 = 500 * PER_UNIT;

/// Offset of the extension lines of a dimension.
pub const EXTENSION_OFFSET: i64 = 2000 * PER_UNIT;

/// Colour index of the member's layer.
pub const BASE_COLOR: u8 = 4;

/// Colour index of the bolts' layer.
pub const BOLT_COLOR: u8 = 2;

/// Colour index of the plates' layer.
pub const PLATE_COLOR: u8 = 1;

/// Secondary gauge of the flange bolts where none is given.
pub const DEFAULT_G2: i64 = 40 * PER_UNIT;

/// The coordinate at the distance `len` from the origin.
pub open spec fn full(len: int) -> int {
    2 * len
}

/// The coordinate at half the distance `len` from the origin.
pub open spec fn half(len: int) -> int {
    len
}

/// Whether `len` is a length the library can draw with.
pub open spec fn in_range(len: int) -> bool {
    0 < len <= MAX_LENGTH
}

/// The coordinate at the distance `len` from the origin.
pub fn full_of(len: i64) -> (c: i64)
    requires
        -MAX_LENGTH <= len <= MAX_LENGTH,
    ensures
        c == full(len as int),
{
    2 * len
}

/// The coordinate at half the distance `len` from the origin.
pub fn half_of(len: i64) -> (c: i64)
    ensures
        c == half(len as int),
{
    len
}

} // verus!

//! Drafting of a bolted H-section beam splice: from the joint's dimensions
//! to the lines, circles and dimensions of an elevation and a cross-section
//! view, with every coordinate computed exactly.
//!
//! - [`input`]: the joint, and what makes it one that can be drawn.
//! - [`units`]: lengths, coordinates and the fixed dimensions of a drawing.
//! - [`bolt_grid`]: the centres of the bolts.
//! - [`output_util`]: the drawing in the making and its primitives.
//! - [`output_x`], [`output_z`]: the elevation and the cross-section.
//! - [`output`]: the layers, the dimension style, and the whole drawing.
//! - [`symmetry`]: both views are their own mirror images.

use vstd::prelude::*;
use crate::input::{GeometryError, HJoint};
use crate::output::joint_drawing;
use crate::output_util::Draft;

pub mod bolt_grid;
pub mod input;
pub mod output;
pub mod output_util;
pub mod output_x;
pub mod output_z;
pub mod symmetry;
pub mod units;

verus! {

/// Draws a joint, or says why it cannot be drawn.
pub fn run(input: &HJoint) -> (r: Result<Draft, GeometryError>)
    ensures
        r is Ok <==> input.valid(),
        match r {
            Ok(drawing) => drawing@ == joint_drawing(input),
            Err(e) => input.violation() == Some(e),
        },
{
    match input.validate() {
        Ok(()) => Ok(crate::output::write(input)),
        Err(e) => Err(e),
    }
}

} // verus!

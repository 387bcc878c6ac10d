//! The whole drawing: the layers and the dimension style, then the two
//! views.

use vstd::prelude::*;
use crate::input::HJoint;
use crate::output_util::{
    dim_style_name,
    DimStyle,
    DimStyleView,
    Draft,
    DraftView,
    Shape,
};
use crate::output_x::{elevation, write_x_view};
use crate::output_z::{cross_section, write_z_view};
use crate::units::{
    ARROW_SIZE,
    BASE_COLOR,
    BOLT_COLOR,
    EXTENSION_OFFSET,
    PLATE_COLOR,
    TEXT_HEIGHT,
};

verus! {

/// The three layers of a joint's drawing: the member's, the bolts' and the
/// plates', each with its colour.
pub open spec fn layers(input: &HJoint) -> Seq<(Seq<char>, int)> {
    seq![
        (input.layer_name.base@, BASE_COLOR as int),
        (input.layer_name.bolt@, BOLT_COLOR as int),
        (input.layer_name.plate@, PLATE_COLOR as int),
    ]
}

/// The one dimension style.
pub open spec fn dim_style() -> DimStyleView {
    DimStyleView {
        name: dim_style_name(),
        text_height: TEXT_HEIGHT as int,
        arrow_size: ARROW_SIZE as int,
        extension_offset: EXTENSION_OFFSET as int,
    }
}

/// The drawing of a joint: its three layers behind the layer that a new
/// drawing holds, the dimension style, and the elevation followed by the
/// cross-section.
pub open spec fn joint_drawing(input: &HJoint) -> DraftView {
    DraftView {
        layers: DraftView::fresh().layers + layers(input),
        dim_styles: seq![dim_style()],
        entities: elevation(input) + cross_section(input),
    }
}

/// Three layers are declared for the drawing of a joint, each once: the
/// member's with the colour 4, the bolts' with the colour 2 and the plates'
/// with the colour 1. They stand behind the one layer that a new drawing
/// holds.
pub proof fn lemma_three_layers(input: &HJoint)
    ensures
        joint_drawing(input).layers.len() == DraftView::fresh().layers.len() + 3,
        joint_drawing(input).layers.len() == 4,
        joint_drawing(input).layers[0] == DraftView::fresh().layers[0],
        joint_drawing(input).layers[1] == (input.layer_name.base@, 4int),
        joint_drawing(input).layers[2] == (input.layer_name.bolt@, 2int),
        joint_drawing(input).layers[3] == (input.layer_name.plate@, 1int),
{
}

/// Draft on a drawing declares no layer, however much is drawn.
pub proof fn lemma_drawing_keeps_layers(drawing: DraftView, shapes: Seq<Shape>)
    ensures
        drawing.drawn(shapes).layers == drawing.layers,
        drawing.drawn(shapes).dim_styles == drawing.dim_styles,
{
}

/// Declares the three layers. Nothing else on the drawing changes.
pub fn set_layer(drawing: &mut Draft, input: &HJoint)
    ensures
        final(drawing)@ == (DraftView {
            layers: old(drawing)@.layers + layers(input),
            ..old(drawing)@
        }),
{
    drawing.add_layer(&input.layer_name.base, BASE_COLOR);
    drawing.add_layer(&input.layer_name.bolt, BOLT_COLOR);
    drawing.add_layer(&input.layer_name.plate, PLATE_COLOR);
    assert(drawing@.layers =~= old(drawing)@.layers + layers(input));
}

/// Declares the dimension style. Nothing else on the drawing changes.
pub fn set_dim_style(drawing: &mut Draft)
    ensures
        final(drawing)@ == old(drawing)@.with_dim_style(dim_style()),
{
    drawing.add_dim_style(
        DimStyle {
            name: "mydim".to_owned(),
            text_height: TEXT_HEIGHT,
            arrow_size: ARROW_SIZE,
            extension_offset: EXTENSION_OFFSET,
        },
    );
}

/// Draws a joint on a new drawing.
pub fn write(input: &HJoint) -> (drawing: Draft)
    requires
        input.valid(),
    ensures
        drawing@ == joint_drawing(input),
{
    let mut drawing = Draft::new();
    set_layer(&mut drawing, input);
    set_dim_style(&mut drawing);
    write_x_view(&mut drawing, input);
    write_z_view(&mut drawing, input);
    assert(drawing@.layers =~= DraftView::fresh().layers + layers(input));
    assert(drawing@.dim_styles =~= seq![dim_style()]);
    assert(drawing@.entities =~= elevation(input) + cross_section(input));
    drawing
}

} // verus!

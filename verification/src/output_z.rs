//! The cross-section: the flange seen from above, with its bolts.
//!
//! The splice is at `x = 0` and one edge of the flange at `y = 0`; the view
//! is drawn `VIEW_SHIFT` above the elevation, so that the two views do not
//! overlap.

use vstd::prelude::*;
use crate::bolt_grid::{
    flange_bolt_grid,
    flange_columns,
    flange_grid,
    has_room,
    lemma_flange_grid_on_flange,
};
use crate::input::HJoint;
use crate::output_util::{
    circle,
    cross,
    dimension,
    drawable,
    line,
    positions,
    write_circle,
    write_cross,
    write_dimension,
    write_line,
    Draft,
    Pos,
    Shape,
};
use crate::units::{
    full,
    full_of,
    half,
    half_of,
    CROSS_SIZE,
    EDGE,
    GAP,
    HALF_GAP,
    MARGIN,
    VIEW_SHIFT,
};

verus! {

/// The name of the layer of the dimensions.
pub open spec fn dimension_layer() -> Seq<char> {
    "0"@
}

/// The outline of the two flanges: their edges from the margin to the gap,
/// on the left and on the right, and the two ends that face each other
/// across the gap.
pub open spec fn base_lines(input: &HJoint) -> Seq<Shape> {
    let layer = input.layer_name.base@;
    let g = half(GAP as int);
    let m = full(MARGIN as int);
    let low = full(VIEW_SHIFT as int);
    let high = full(input.section.b as int) + full(VIEW_SHIFT as int);
    seq![
        line(-m, low, -g, low, layer),
        line(-m, high, -g, high, layer),
        line(m, low, g, low, layer),
        line(m, high, g, high, layer),
        line(g, low, g, high, layer),
        line(-g, low, -g, high, layer),
    ]
}

/// The outer splice plate: a rectangle of the plate's length and of the
/// flange's width.
pub open spec fn outer_plate_lines(input: &HJoint) -> Seq<Shape> {
    let layer = input.layer_name.plate@;
    let l = half(input.flange.outer_plate.l as int);
    let low = full(VIEW_SHIFT as int);
    let high = full(input.section.b as int) + full(VIEW_SHIFT as int);
    seq![
        line(-l, low, l, low, layer),
        line(-l, high, l, high, layer),
        line(-l, low, -l, high, layer),
        line(l, low, l, high, layer),
    ]
}

/// The centres of the flange bolts on the right of the splice, measured
/// from the flange's edge.
pub open spec fn flange_bolt_grid_of(input: &HJoint) -> Seq<Pos> {
    flange_grid(input.section.b as int, input.flange)
}

/// What is drawn for the two flange bolts of a column, at `p` and at `q`,
/// and for their mirror images on the other side of the splice: the four
/// holes on the layer `plate`, then the four cross marks on the layer
/// `bolt`.
pub open spec fn flange_bolt_column(
    p: Pos,
    q: Pos,
    radius: int,
    plate: Seq<char>,
    bolt: Seq<char>,
) -> Seq<Shape> {
    let low = p.y + full(VIEW_SHIFT as int);
    let high = q.y + full(VIEW_SHIFT as int);
    seq![
        circle(p.x, low, radius, plate),
        circle(-p.x, low, radius, plate),
        circle(q.x, high, radius, plate),
        circle(-q.x, high, radius, plate),
    ] + cross(p.x, low, CROSS_SIZE as int, bolt) + cross(-p.x, low, CROSS_SIZE as int, bolt)
        + cross(q.x, high, CROSS_SIZE as int, bolt) + cross(-q.x, high, CROSS_SIZE as int, bolt)
}

/// What is drawn for the flange bolts of the column `i`.
pub open spec fn flange_bolt_column_of(input: &HJoint, i: int) -> Seq<Shape> {
    flange_bolt_column(
        flange_bolt_grid_of(input)[2 * i],
        flange_bolt_grid_of(input)[2 * i + 1],
        input.bolt.hole_radius(),
        input.layer_name.plate@,
        input.layer_name.bolt@,
    )
}

/// What is drawn for the flange bolts of the first `k` columns.
pub open spec fn flange_bolt_columns(input: &HJoint, k: nat) -> Seq<Shape>
    decreases k,
{
    if k == 0 {
        Seq::empty()
    } else {
        flange_bolt_columns(input, (k - 1) as nat) + flange_bolt_column_of(input, k - 1)
    }
}

/// The flange bolts on both sides of the splice, column by column: each a
/// hole on the plates' layer and a cross mark on the bolts' layer. Nothing
/// is drawn where the flange has no row or no column of bolts.
pub open spec fn flange_bolt_marks(input: &HJoint) -> Seq<Shape> {
    flange_bolt_columns(input, flange_columns(input.flange))
}

/// Twelve shapes are drawn for each column of flange bolts: four holes and
/// the eight strokes of four cross marks.
pub proof fn lemma_flange_bolt_columns_len(input: &HJoint, k: nat)
    ensures
        flange_bolt_columns(input, k).len() == 12 * k,
    decreases k,
{
    if k > 0 {
        lemma_flange_bolt_columns_len(input, (k - 1) as nat);
    }
}

/// The shape `t` of what is drawn for the column `i` stands at the place
/// `12 * i + t` of what is drawn for the first `k` columns.
pub proof fn lemma_flange_bolt_columns_index(input: &HJoint, k: nat, i: int, t: int)
    requires
        0 <= i < k,
        0 <= t < 12,
    ensures
        flange_bolt_columns(input, k)[12 * i + t] == flange_bolt_column_of(input, i)[t],
    decreases k,
{
    lemma_flange_bolt_columns_len(input, (k - 1) as nat);
    if i < k - 1 {
        lemma_flange_bolt_columns_index(input, (k - 1) as nat, i, t);
    }
}

/// The holes of the flange bolts of the column `i` on the right of the
/// splice are the shapes `12 * i` and `12 * i + 2`, about the two centres
/// of the column, raised by `VIEW_SHIFT`; those on the left follow each.
pub proof fn lemma_flange_holes(input: &HJoint, i: int)
    requires
        0 <= i < flange_columns(input.flange),
    ensures
        flange_bolt_marks(input)[12 * i] == circle(
            flange_bolt_grid_of(input)[2 * i].x,
            flange_bolt_grid_of(input)[2 * i].y + full(VIEW_SHIFT as int),
            input.bolt.hole_radius(),
            input.layer_name.plate@,
        ),
        flange_bolt_marks(input)[12 * i + 1] == circle(
            -flange_bolt_grid_of(input)[2 * i].x,
            flange_bolt_grid_of(input)[2 * i].y + full(VIEW_SHIFT as int),
            input.bolt.hole_radius(),
            input.layer_name.plate@,
        ),
        flange_bolt_marks(input)[12 * i + 2] == circle(
            flange_bolt_grid_of(input)[2 * i + 1].x,
            flange_bolt_grid_of(input)[2 * i + 1].y + full(VIEW_SHIFT as int),
            input.bolt.hole_radius(),
            input.layer_name.plate@,
        ),
        flange_bolt_marks(input)[12 * i + 3] == circle(
            -flange_bolt_grid_of(input)[2 * i + 1].x,
            flange_bolt_grid_of(input)[2 * i + 1].y + full(VIEW_SHIFT as int),
            input.bolt.hole_radius(),
            input.layer_name.plate@,
        ),
{
    let columns = flange_columns(input.flange);
    lemma_flange_bolt_columns_index(input, columns, i, 0);
    lemma_flange_bolt_columns_index(input, columns, i, 1);
    lemma_flange_bolt_columns_index(input, columns, i, 2);
    lemma_flange_bolt_columns_index(input, columns, i, 3);
}

/// The flange has two bolts of each column on each side of the splice,
/// and none where it has no row or no column of bolts. They are as many as
/// its rows times its columns where it has two rows or none. Six shapes are
/// drawn for each of them and its mirror image.
pub proof fn lemma_flange_bolt_count(input: &HJoint)
    ensures
        flange_bolt_grid_of(input).len() == 2 * flange_columns(input.flange),
        input.flange.bolt.mf == 0 || input.flange.bolt.mf == 2 ==> flange_bolt_grid_of(
            input,
        ).len() == input.flange.bolt.nf * input.flange.bolt.mf,
        flange_bolt_marks(input).len() == 6 * flange_bolt_grid_of(input).len(),
        input.flange.bolt.mf == 0 || input.flange.bolt.nf == 0 ==> flange_bolt_marks(input).len()
            == 0,
{
    lemma_flange_bolt_columns_len(input, flange_columns(input.flange));
    assert(input.flange.bolt.mf == 0 ==> input.flange.bolt.nf * input.flange.bolt.mf == 0)
        by (nonlinear_arith);
}

/// Whether `s` lies between the heights `low` and `high`: a line by both
/// its ends, a circle by its centre.
pub open spec fn in_band(s: Shape, low: int, high: int) -> bool {
    match s {
        Shape::Line { start, end, .. } => low <= start.y <= high && low <= end.y <= high,
        Shape::Circle { center, .. } => low <= center.y <= high,
        Shape::Dimension { .. } => true,
    }
}

/// The outline and the plate of the cross-section lie in the band of the
/// view: between `VIEW_SHIFT` and the flange's width above it.
pub proof fn lemma_outline_in_band(input: &HJoint, i: int)
    requires
        input.valid(),
    ensures
        0 <= i < base_lines(input).len() ==> in_band(
            base_lines(input)[i],
            full(VIEW_SHIFT as int),
            full(VIEW_SHIFT as int) + full(input.section.b as int),
        ),
        0 <= i < outer_plate_lines(input).len() ==> in_band(
            outer_plate_lines(input)[i],
            full(VIEW_SHIFT as int),
            full(VIEW_SHIFT as int) + full(input.section.b as int),
        ),
{
}

/// Where the flange bolts have room on the flange, the centre of every
/// hole in the cross-section lies in the band of the view. The holes of
/// the column `i` are the first four of its shapes.
pub proof fn lemma_holes_in_band(input: &HJoint, i: int, t: int)
    requires
        input.valid(),
        has_room(input.section.b as int, input.flange),
        0 <= i < flange_columns(input.flange),
        0 <= t < 4,
    ensures
        flange_bolt_marks(input)[12 * i + t] is Circle,
        in_band(
            flange_bolt_marks(input)[12 * i + t],
            full(VIEW_SHIFT as int),
            full(VIEW_SHIFT as int) + full(input.section.b as int),
        ),
{
    lemma_flange_holes(input, i);
    lemma_flange_grid_on_flange(input.section.b as int, input.flange, 2 * i);
    lemma_flange_grid_on_flange(input.section.b as int, input.flange, 2 * i + 1);
}

/// The two dimensions along the member, both at the flange's edge: the gap,
/// and the distance from the member's end to the first bolt column.
pub open spec fn x_dimensions() -> Seq<Shape> {
    seq![
        dimension(
            -HALF_GAP as int,
            VIEW_SHIFT as int,
            HALF_GAP as int,
            VIEW_SHIFT as int,
            dimension_layer(),
        ),
        dimension(
            HALF_GAP as int,
            VIEW_SHIFT as int,
            HALF_GAP + EDGE,
            VIEW_SHIFT as int,
            dimension_layer(),
        ),
    ]
}

/// The cross-section: the flanges, the outer plate, the flange bolts and
/// the dimensions, in this order.
pub open spec fn cross_section(input: &HJoint) -> Seq<Shape> {
    base_lines(input) + outer_plate_lines(input) + flange_bolt_marks(input) + x_dimensions()
}

/// Draws the outline of the two flanges.
pub fn write_base(drawing: &mut Draft, input: &HJoint)
    requires
        input.valid(),
    ensures
        final(drawing)@ == old(drawing)@.drawn(base_lines(input)),
{
    let layer = &input.layer_name.base;
    let g = half_of(GAP);
    let m = full_of(MARGIN);
    let low = full_of(VIEW_SHIFT);
    let high = full_of(input.section.b) + full_of(VIEW_SHIFT);
    write_line(drawing, -m, low, -g, low, layer);
    write_line(drawing, -m, high, -g, high, layer);
    write_line(drawing, m, low, g, low, layer);
    write_line(drawing, m, high, g, high, layer);
    write_line(drawing, g, low, g, high, layer);
    write_line(drawing, -g, low, -g, high, layer);
    assert(drawing@.entities =~= old(drawing)@.entities + base_lines(input));
}

/// Draws the outer splice plate.
pub fn write_outer_plate(drawing: &mut Draft, input: &HJoint)
    requires
        input.valid(),
    ensures
        final(drawing)@ == old(drawing)@.drawn(outer_plate_lines(input)),
{
    let layer = &input.layer_name.plate;
    let l = half_of(input.flange.outer_plate.l);
    let low = full_of(VIEW_SHIFT);
    let high = full_of(input.section.b) + full_of(VIEW_SHIFT);
    write_line(drawing, -l, low, l, low, layer);
    write_line(drawing, -l, high, l, high, layer);
    write_line(drawing, -l, low, -l, high, layer);
    write_line(drawing, l, low, l, high, layer);
    assert(drawing@.entities =~= old(drawing)@.entities + outer_plate_lines(input));
}

/// Draws the flange bolts.
pub fn write_flange_bolt(drawing: &mut Draft, input: &HJoint)
    requires
        input.valid(),
    ensures
        final(drawing)@ == old(drawing)@.drawn(flange_bolt_marks(input)),
{
    let centers = flange_bolt_grid(input.section.b, &input.flange);
    let radius = input.bolt.hole_radius_of();
    let shift = full_of(VIEW_SHIFT);
    let plate = &input.layer_name.plate;
    let bolt = &input.layer_name.bolt;
    let mut k: usize = 0;
    assert(positions(centers@).len() == centers.len());
    assert(drawing@.entities =~= old(drawing)@.entities + flange_bolt_columns(input, 0));
    while k < centers.len()
        invariant
            k % 2 == 0,
            k <= centers.len(),
            centers.len() == 2 * flange_columns(input.flange),
            positions(centers@) == flange_bolt_grid_of(input),
            forall|j: int| 0 <= j < centers.len() ==> drawable(#[trigger] centers[j]@),
            radius == input.bolt.hole_radius(),
            shift == full(VIEW_SHIFT as int),
            plate@ == input.layer_name.plate@,
            bolt@ == input.layer_name.bolt@,
            drawing@ == old(drawing)@.drawn(flange_bolt_columns(input, (k / 2) as nat)),
        decreases centers.len() - k,
    {
        let ghost before = drawing@;
        let p = centers[k];
        let q = centers[k + 1];
        assert(drawable(centers[k as int]@));
        assert(drawable(centers[k + 1]@));
        let low = p.y + shift;
        let high = q.y + shift;
        write_circle(drawing, p.x, low, radius, plate);
        write_circle(drawing, -p.x, low, radius, plate);
        write_circle(drawing, q.x, high, radius, plate);
        write_circle(drawing, -q.x, high, radius, plate);
        write_cross(drawing, p.x, low, CROSS_SIZE, bolt);
        write_cross(drawing, -p.x, low, CROSS_SIZE, bolt);
        write_cross(drawing, q.x, high, CROSS_SIZE, bolt);
        write_cross(drawing, -q.x, high, CROSS_SIZE, bolt);
        proof {
            let i = k as int / 2;
            assert(positions(centers@)[2 * i] == p@);
            assert(positions(centers@)[2 * i + 1] == q@);
            assert(drawing@.entities =~= before.entities + flange_bolt_column_of(input, i));
            assert((k + 2) / 2 == i + 1);
            assert(drawing@.entities =~= old(drawing)@.entities + flange_bolt_columns(
                input,
                (i + 1) as nat,
            ));
        }
        k = k + 2;
    }
}

/// Draws the two dimensions along the member.
pub fn write_x_dim(drawing: &mut Draft, _input: &HJoint)
    ensures
        final(drawing)@ == old(drawing)@.drawn(x_dimensions()),
{
    let layer = "0".to_owned();
    write_dimension(drawing, -HALF_GAP, VIEW_SHIFT, HALF_GAP, VIEW_SHIFT, &layer);
    write_dimension(drawing, HALF_GAP, VIEW_SHIFT, HALF_GAP + EDGE, VIEW_SHIFT, &layer);
    assert(drawing@.entities =~= old(drawing)@.entities + x_dimensions());
}

/// Draws the cross-section.
pub fn write_z_view(drawing: &mut Draft, input: &HJoint)
    requires
        input.valid(),
    ensures
        final(drawing)@ == old(drawing)@.drawn(cross_section(input)),
{
    write_base(drawing, input);
    write_outer_plate(drawing, input);
    write_flange_bolt(drawing, input);
    write_x_dim(drawing, input);
    assert(drawing@.entities =~= old(drawing)@.entities + cross_section(input));
}

} // verus!

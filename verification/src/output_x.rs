//! The elevation: the joint seen from the side, along the member.
//!
//! The splice is at `x = 0` and the lower face of the lower flange at
//! `y = 0`.

use vstd::prelude::*;
use crate::bolt_grid::{
    bolt_grid,
    column_x,
    column_x_of,
    flange_columns,
    flange_columns_of,
    flange_pitch,
    grid,
    lemma_column_step,
    pitch_of,
};
use crate::input::HJoint;
use crate::output_util::{
    bolt_marks,
    lemma_bolt_marks_len,
    line,
    write_bolts,
    write_line,
    Draft,
    Pos,
    Shape,
};
use crate::units::{
    full,
    full_of,
    half,
    half_of,
    BOLT_MARGIN,
    EDGE,
    GAP,
    MARGIN,
    PER_UNIT,
    PITCH,
};

verus! {

/// The outline of the two members: the two ends that face each other
/// across the gap, and the four faces of the flanges, each drawn from the
/// margin to the gap on the left and from the gap to the margin on the
/// right.
pub open spec fn base_lines(input: &HJoint) -> Seq<Shape> {
    let layer = input.layer_name.base@;
    let g = half(GAP as int);
    let m = full(MARGIN as int);
    let h = full(input.section.h as int);
    let tf = full(input.section.tf as int);
    seq![
        line(-g, 0, -g, h, layer),
        line(g, 0, g, h, layer),
        line(-m, 0, -g, 0, layer),
        line(g, 0, m, 0, layer),
        line(-m, tf, -g, tf, layer),
        line(g, tf, m, tf, layer),
        line(-m, h - tf, -g, h - tf, layer),
        line(g, h - tf, m, h - tf, layer),
        line(-m, h, -g, h, layer),
        line(g, h, m, h, layer),
    ]
}

/// The two outer splice plates, each a rectangle of the plate's length and
/// thickness on the outer face of its flange: the upper one first.
pub open spec fn outer_plate_lines(input: &HJoint) -> Seq<Shape> {
    let layer = input.layer_name.plate@;
    let h = full(input.section.h as int);
    let t = full(input.flange.outer_plate.t as int);
    let l = half(input.flange.outer_plate.l as int);
    seq![
        line(-l, h + t, l, h + t, layer),
        line(-l, h, l, h, layer),
        line(-l, h, -l, h + t, layer),
        line(l, h, l, h + t, layer),
        line(-l, -t, l, -t, layer),
        line(-l, 0, l, 0, layer),
        line(-l, 0, -l, -t, layer),
        line(l, 0, l, -t, layer),
    ]
}

/// The two inner splice plates, each a rectangle of the outer plate's
/// length and of the inner plate's thickness on the inner face of its
/// flange: the upper one first.
pub open spec fn inner_plate_lines(input: &HJoint) -> Seq<Shape> {
    let layer = input.layer_name.plate@;
    let h = full(input.section.h as int);
    let tf = full(input.section.tf as int);
    let t = full(input.flange.inner_plate.t as int);
    let l = half(input.flange.outer_plate.l as int);
    seq![
        line(-l, h - tf - t, l, h - tf - t, layer),
        line(-l, h - tf, l, h - tf, layer),
        line(-l, h - tf, -l, h - tf - t, layer),
        line(l, h - tf, l, h - tf - t, layer),
        line(-l, tf + t, l, tf + t, layer),
        line(-l, tf, l, tf, layer),
        line(-l, tf, -l, tf + t, layer),
        line(l, tf, l, tf + t, layer),
    ]
}

/// The `x` of the flange bolt column `i`, on the right of the splice.
pub open spec fn flange_bolt_x(input: &HJoint, i: int) -> int {
    column_x(EDGE as int, pitch_of(input.flange.bolt.is_staggered), i)
}

/// The axes of the flange bolts of column `i`: through the lower flange and
/// through the upper one on the right of the splice, then the same on the
/// left. Each runs through both plates of its flange and `BOLT_MARGIN`
/// past them.
pub open spec fn flange_bolt_column(input: &HJoint, i: int) -> Seq<Shape> {
    let layer = input.layer_name.bolt@;
    let h = full(input.section.h as int);
    let tf = full(input.section.tf as int);
    let to = full(input.flange.outer_plate.t as int);
    let ti = full(input.flange.inner_plate.t as int);
    let m = full(BOLT_MARGIN as int);
    let x = flange_bolt_x(input, i);
    seq![
        line(x, -to - m, x, tf + ti + m, layer),
        line(x, h + to + m, x, h - tf - ti - m, layer),
        line(-x, -to - m, -x, tf + ti + m, layer),
        line(-x, h + to + m, -x, h - tf - ti - m, layer),
    ]
}

/// The axes of the flange bolts of the first `k` columns.
pub open spec fn flange_bolt_columns(input: &HJoint, k: nat) -> Seq<Shape>
    decreases k,
{
    if k == 0 {
        Seq::empty()
    } else {
        flange_bolt_columns(input, (k - 1) as nat) + flange_bolt_column(input, k - 1)
    }
}

/// Four axes are drawn for each column of flange bolts.
pub proof fn lemma_flange_bolt_columns_len(input: &HJoint, k: nat)
    ensures
        flange_bolt_columns(input, k).len() == 4 * k,
    decreases k,
{
    if k > 0 {
        lemma_flange_bolt_columns_len(input, (k - 1) as nat);
    }
}

/// The axis `t` of the column `i` stands at the place `4 * i + t` of the
/// axes of the first `k` columns.
pub proof fn lemma_flange_bolt_columns_index(input: &HJoint, k: nat, i: int, t: int)
    requires
        0 <= i < k,
        0 <= t < 4,
    ensures
        flange_bolt_columns(input, k)[4 * i + t] == flange_bolt_column(input, i)[t],
    decreases k,
{
    lemma_flange_bolt_columns_len(input, (k - 1) as nat);
    if i < k - 1 {
        lemma_flange_bolt_columns_index(input, (k - 1) as nat, i, t);
    }
}

/// The axes of all flange bolts. There is none where the flange has no row
/// or no column of bolts.
pub open spec fn flange_bolt_lines(input: &HJoint) -> Seq<Shape> {
    flange_bolt_columns(input, flange_columns(input.flange))
}

/// The web splice plate: a rectangle of the plate's length and width about
/// the middle of the section's depth.
pub open spec fn web_plate_lines(input: &HJoint) -> Seq<Shape> {
    let layer = input.layer_name.plate@;
    let l = half(input.web.plate.l as int);
    let low = half(input.section.h as int) - half(input.web.plate.b as int);
    let high = half(input.section.h as int) + half(input.web.plate.b as int);
    seq![
        line(-l, low, l, low, layer),
        line(-l, high, l, high, layer),
        line(-l, low, -l, high, layer),
        line(l, low, l, high, layer),
    ]
}

/// The centres of the web bolts on the right of the splice: `nw` columns
/// at the spacing `PITCH`, of `mw` rows at the pitch `pc` each.
pub open spec fn web_bolt_grid(input: &HJoint) -> Seq<Pos> {
    grid(
        input.section.h as int,
        EDGE as int,
        PITCH as int,
        input.web.bolt.pc as int,
        input.web.bolt.mw as nat,
        input.web.bolt.nw as nat,
    )
}

/// The web bolts on both sides of the splice: each a hole on the plates'
/// layer and a cross mark on the bolts' layer.
pub open spec fn web_bolt_marks(input: &HJoint) -> Seq<Shape> {
    bolt_marks(
        web_bolt_grid(input),
        0,
        input.bolt.hole_radius(),
        input.layer_name.plate@,
        input.layer_name.bolt@,
    )
}

/// The web has `mw * nw` bolts on each side of the splice, and six shapes
/// are drawn for each of them and its mirror image.
pub proof fn lemma_web_bolt_count(input: &HJoint)
    ensures
        web_bolt_grid(input).len() == input.web.bolt.mw * input.web.bolt.nw,
        web_bolt_marks(input).len() == 6 * (input.web.bolt.mw * input.web.bolt.nw),
{
    lemma_bolt_marks_len(
        web_bolt_grid(input),
        0,
        input.bolt.hole_radius(),
        input.layer_name.plate@,
        input.layer_name.bolt@,
    );
}

/// Two axes are drawn for each column of flange bolts on each side of the
/// splice, one through either flange, and none where the flange has no row
/// or no column of bolts. They are as many, on each side, as a flange has
/// bolts on one side where it has two rows or none.
pub proof fn lemma_flange_bolt_count(input: &HJoint)
    ensures
        flange_bolt_lines(input).len() == if input.flange.bolt.mf == 0 {
            0
        } else {
            4 * input.flange.bolt.nf
        },
        input.flange.bolt.mf == 0 || input.flange.bolt.mf == 2 ==> flange_bolt_lines(input).len()
            == 2 * (input.flange.bolt.nf * input.flange.bolt.mf),
{
    lemma_flange_bolt_columns_len(input, flange_columns(input.flange));
    assert(input.flange.bolt.mf == 0 ==> input.flange.bolt.nf * input.flange.bolt.mf == 0)
        by (nonlinear_arith);
}

/// Successive columns of flange bolt axes are 45 units apart where the
/// bolts are staggered and 60 units where they are not.
pub proof fn lemma_flange_bolt_pitch(input: &HJoint, i: int)
    ensures
        input.flange.bolt.is_staggered ==> flange_bolt_x(input, i + 1) - flange_bolt_x(input, i)
            == full(45 * PER_UNIT),
        !input.flange.bolt.is_staggered ==> flange_bolt_x(input, i + 1) - flange_bolt_x(input, i)
            == full(60 * PER_UNIT),
{
    lemma_column_step(EDGE as int, pitch_of(input.flange.bolt.is_staggered), i);
}

/// The elevation: the members, the flange plates, the flange bolts, the
/// web plate and the web bolts, in this order.
pub open spec fn elevation(input: &HJoint) -> Seq<Shape> {
    base_lines(input) + outer_plate_lines(input) + inner_plate_lines(input) + flange_bolt_lines(
        input,
    ) + web_plate_lines(input) + web_bolt_marks(input)
}

/// Draws the outline of the two members.
pub fn write_base(drawing: &mut Draft, input: &HJoint)
    requires
        input.valid(),
    ensures
        final(drawing)@ == old(drawing)@.drawn(base_lines(input)),
{
    let layer = &input.layer_name.base;
    let g = half_of(GAP);
    let m = full_of(MARGIN);
    let h = full_of(input.section.h);
    let tf = full_of(input.section.tf);
    write_line(drawing, -g, 0, -g, h, layer);
    write_line(drawing, g, 0, g, h, layer);
    write_line(drawing, -m, 0, -g, 0, layer);
    write_line(drawing, g, 0, m, 0, layer);
    write_line(drawing, -m, tf, -g, tf, layer);
    write_line(drawing, g, tf, m, tf, layer);
    write_line(drawing, -m, h - tf, -g, h - tf, layer);
    write_line(drawing, g, h - tf, m, h - tf, layer);
    write_line(drawing, -m, h, -g, h, layer);
    write_line(drawing, g, h, m, h, layer);
    assert(drawing@.entities =~= old(drawing)@.entities + base_lines(input));
}

/// Draws the two outer splice plates of the flanges.
pub fn write_outer_plate(drawing: &mut Draft, input: &HJoint)
    requires
        input.valid(),
    ensures
        final(drawing)@ == old(drawing)@.drawn(outer_plate_lines(input)),
{
    let layer = &input.layer_name.plate;
    let h = full_of(input.section.h);
    let t = full_of(input.flange.outer_plate.t);
    let l = half_of(input.flange.outer_plate.l);
    write_line(drawing, -l, h + t, l, h + t, layer);
    write_line(drawing, -l, h, l, h, layer);
    write_line(drawing, -l, h, -l, h + t, layer);
    write_line(drawing, l, h, l, h + t, layer);
    write_line(drawing, -l, -t, l, -t, layer);
    write_line(drawing, -l, 0, l, 0, layer);
    write_line(drawing, -l, 0, -l, -t, layer);
    write_line(drawing, l, 0, l, -t, layer);
    assert(drawing@.entities =~= old(drawing)@.entities + outer_plate_lines(input));
}

/// Draws the two inner splice plates of the flanges.
pub fn write_inner_plate(drawing: &mut Draft, input: &HJoint)
    requires
        input.valid(),
    ensures
        final(drawing)@ == old(drawing)@.drawn(inner_plate_lines(input)),
{
    let layer = &input.layer_name.plate;
    let h = full_of(input.section.h);
    let tf = full_of(input.section.tf);
    let t = full_of(input.flange.inner_plate.t);
    let l = half_of(input.flange.outer_plate.l);
    write_line(drawing, -l, h - tf - t, l, h - tf - t, layer);
    write_line(drawing, -l, h - tf, l, h - tf, layer);
    write_line(drawing, -l, h - tf, -l, h - tf - t, layer);
    write_line(drawing, l, h - tf, l, h - tf - t, layer);
    write_line(drawing, -l, tf + t, l, tf + t, layer);
    write_line(drawing, -l, tf, l, tf, layer);
    write_line(drawing, -l, tf, -l, tf + t, layer);
    write_line(drawing, l, tf, l, tf + t, layer);
    assert(drawing@.entities =~= old(drawing)@.entities + inner_plate_lines(input));
}

/// Draws the axes of the flange bolts.
pub fn write_flange_bolt(drawing: &mut Draft, input: &HJoint)
    requires
        input.valid(),
    ensures
        final(drawing)@ == old(drawing)@.drawn(flange_bolt_lines(input)),
{
    let layer = &input.layer_name.bolt;
    let pitch = flange_pitch(input.flange.bolt.is_staggered);
    let columns = flange_columns_of(&input.flange);
    let h = full_of(input.section.h);
    let tf = full_of(input.section.tf);
    let to = full_of(input.flange.outer_plate.t);
    let ti = full_of(input.flange.inner_plate.t);
    let m = full_of(BOLT_MARGIN);
    let mut i: u32 = 0;
    assert(drawing@.entities =~= old(drawing)@.entities + flange_bolt_columns(input, 0));
    while i < columns
        invariant
            i <= columns,
            columns == flange_columns(input.flange),
            input.valid(),
            layer@ == input.layer_name.bolt@,
            pitch == pitch_of(input.flange.bolt.is_staggered),
            h == full(input.section.h as int),
            tf == full(input.section.tf as int),
            to == full(input.flange.outer_plate.t as int),
            ti == full(input.flange.inner_plate.t as int),
            m == full(BOLT_MARGIN as int),
            drawing@ == old(drawing)@.drawn(flange_bolt_columns(input, i as nat)),
        decreases columns - i,
    {
        let ghost before = drawing@;
        let x = column_x_of(EDGE, pitch, i);
        write_line(drawing, x, -to - m, x, tf + ti + m, layer);
        write_line(drawing, x, h + to + m, x, h - tf - ti - m, layer);
        write_line(drawing, -x, -to - m, -x, tf + ti + m, layer);
        write_line(drawing, -x, h + to + m, -x, h - tf - ti - m, layer);
        proof {
            assert(drawing@.entities =~= before.entities + flange_bolt_column(input, i as int));
            assert(drawing@.entities =~= old(drawing)@.entities + flange_bolt_columns(
                input,
                (i + 1) as nat,
            ));
        }
        i = i + 1;
    }
}

/// Draws the web splice plate.
pub fn write_web_plate(drawing: &mut Draft, input: &HJoint)
    requires
        input.valid(),
    ensures
        final(drawing)@ == old(drawing)@.drawn(web_plate_lines(input)),
{
    let layer = &input.layer_name.plate;
    let l = half_of(input.web.plate.l);
    let low = half_of(input.section.h) - half_of(input.web.plate.b);
    let high = half_of(input.section.h) + half_of(input.web.plate.b);
    write_line(drawing, -l, low, l, low, layer);
    write_line(drawing, -l, high, l, high, layer);
    write_line(drawing, -l, low, -l, high, layer);
    write_line(drawing, l, low, l, high, layer);
    assert(drawing@.entities =~= old(drawing)@.entities + web_plate_lines(input));
}

/// Draws the web bolts.
pub fn write_web_bolt(drawing: &mut Draft, input: &HJoint)
    requires
        input.valid(),
    ensures
        final(drawing)@ == old(drawing)@.drawn(web_bolt_marks(input)),
{
    let centers = bolt_grid(
        input.section.h,
        EDGE,
        PITCH,
        input.web.bolt.pc,
        input.web.bolt.mw,
        input.web.bolt.nw,
    );
    let radius = input.bolt.hole_radius_of();
    write_bolts(drawing, &centers, 0, radius, &input.layer_name.plate, &input.layer_name.bolt);
}

/// Draws the elevation.
pub fn write_x_view(drawing: &mut Draft, input: &HJoint)
    requires
        input.valid(),
    ensures
        final(drawing)@ == old(drawing)@.drawn(elevation(input)),
{
    write_base(drawing, input);
    write_outer_plate(drawing, input);
    write_inner_plate(drawing, input);
    write_flange_bolt(drawing, input);
    write_web_plate(drawing, input);
    write_web_bolt(drawing, input);
    assert(drawing@.entities =~= old(drawing)@.entities + elevation(input));
}

} // verus!

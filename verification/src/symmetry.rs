//! The two views are their own mirror images: the elevation about the
//! splice, the cross-section about the splice and about the middle of the
//! flange.

use vstd::prelude::*;
use crate::bolt_grid::{flange_columns, flange_point};
use crate::input::HJoint;
use crate::output_util::{
    bolt_mark,
    bolt_marks,
    lemma_bolt_marks_index,
    lemma_bolt_marks_len,
    Pos,
    Shape,
};
use crate::output_x::{
    elevation,
    flange_bolt_column,
    flange_bolt_columns,
    flange_bolt_lines,
    inner_plate_lines,
    lemma_flange_bolt_columns_index,
    lemma_flange_bolt_columns_len,
    web_bolt_grid,
    web_bolt_marks,
    web_plate_lines,
};
use crate::output_z::{flange_bolt_column_of, flange_bolt_grid_of, flange_bolt_marks};
use crate::units::{full, VIEW_SHIFT};

verus! {

/// The mirror image of `p` about the line `x = 0`.
pub open spec fn across(p: Pos) -> Pos {
    Pos { x: -p.x, y: p.y }
}

/// The mirror image of `p` about the level line through `y = twice / 2`.
pub open spec fn over(p: Pos, twice: int) -> Pos {
    Pos { x: p.x, y: twice - p.y }
}

/// The mirror image of `s` about the line `x = 0`.
pub open spec fn mirrored_x(s: Shape) -> Shape {
    match s {
        Shape::Line { start, end, layer } => Shape::Line {
            start: across(start),
            end: across(end),
            layer,
        },
        Shape::Circle { center, radius, layer } => Shape::Circle {
            center: across(center),
            radius,
            layer,
        },
        Shape::Dimension { base, first, second, anchor, rotation, style, layer } => {
            Shape::Dimension {
                base: across(base),
                first: across(first),
                second: across(second),
                anchor: across(anchor),
                rotation,
                style,
                layer,
            }
        },
    }
}

/// The mirror image of `s` about the level line through `y = twice / 2`.
pub open spec fn mirrored_y(s: Shape, twice: int) -> Shape {
    match s {
        Shape::Line { start, end, layer } => Shape::Line {
            start: over(start, twice),
            end: over(end, twice),
            layer,
        },
        Shape::Circle { center, radius, layer } => Shape::Circle {
            center: over(center, twice),
            radius,
            layer,
        },
        Shape::Dimension { base, first, second, anchor, rotation, style, layer } => {
            Shape::Dimension {
                base: over(base, twice),
                first: over(first, twice),
                second: over(second, twice),
                anchor: over(anchor, twice),
                rotation,
                style,
                layer,
            }
        },
    }
}

/// A line drawn from its other end; any other shape as it is.
pub open spec fn reversed(s: Shape) -> Shape {
    match s {
        Shape::Line { start, end, layer } => Shape::Line { start: end, end: start, layer },
        _ => s,
    }
}

/// Whether `a` and `b` are the same figure on the same layer: the same
/// shape, or the same line drawn from either end.
pub open spec fn same_figure(a: Shape, b: Shape) -> bool {
    a == b || a == reversed(b)
}

/// Whether the figure `s` is among `shapes`.
pub open spec fn shows(shapes: Seq<Shape>, s: Shape) -> bool {
    exists|j: int| 0 <= j < shapes.len() && same_figure(s, #[trigger] shapes[j])
}

/// Whether `shapes` hold the mirror image about `x = 0` of each of their
/// figures.
pub open spec fn symmetric_x(shapes: Seq<Shape>) -> bool {
    forall|i: int| 0 <= i < shapes.len() ==> shows(shapes, mirrored_x(#[trigger] shapes[i]))
}

/// Whether `shapes` hold the mirror image about `y = twice / 2` of each of
/// their figures.
pub open spec fn symmetric_y(shapes: Seq<Shape>, twice: int) -> bool {
    forall|i: int|
        0 <= i < shapes.len() ==> shows(shapes, mirrored_y(#[trigger] shapes[i], twice))
}

/// Twice the height of the middle of a flange of the width `b` in the
/// cross-section.
pub open spec fn flange_axis(b: int) -> int {
    full(b) + 2 * full(VIEW_SHIFT as int)
}

/// What is among `a` or among `b` is among `a + b`.
pub proof fn lemma_shows_concat(a: Seq<Shape>, b: Seq<Shape>, s: Shape)
    requires
        shows(a, s) || shows(b, s),
    ensures
        shows(a + b, s),
{
    if shows(a, s) {
        let j = choose|j: int| 0 <= j < a.len() && same_figure(s, #[trigger] a[j]);
        assert((a + b)[j] == a[j]);
    } else {
        let j = choose|j: int| 0 <= j < b.len() && same_figure(s, #[trigger] b[j]);
        assert((a + b)[a.len() + j] == b[j]);
    }
}

/// Two sets of shapes that are symmetric about `x = 0` are so together.
pub proof fn lemma_symmetric_x_concat(a: Seq<Shape>, b: Seq<Shape>)
    requires
        symmetric_x(a),
        symmetric_x(b),
    ensures
        symmetric_x(a + b),
{
    assert forall|i: int| 0 <= i < (a + b).len() implies shows(
        a + b,
        mirrored_x(#[trigger] (a + b)[i]),
    ) by {
        if i < a.len() {
            assert((a + b)[i] == a[i]);
            lemma_shows_concat(a, b, mirrored_x(a[i]));
        } else {
            assert((a + b)[i] == b[i - a.len()]);
            lemma_shows_concat(a, b, mirrored_x(b[i - a.len()]));
        }
    }
}

/// Two sets of shapes that are symmetric about the same level line are so
/// together.
pub proof fn lemma_symmetric_y_concat(a: Seq<Shape>, b: Seq<Shape>, twice: int)
    requires
        symmetric_y(a, twice),
        symmetric_y(b, twice),
    ensures
        symmetric_y(a + b, twice),
{
    assert forall|i: int| 0 <= i < (a + b).len() implies shows(
        a + b,
        mirrored_y(#[trigger] (a + b)[i], twice),
    ) by {
        if i < a.len() {
            assert((a + b)[i] == a[i]);
            lemma_shows_concat(a, b, mirrored_y(a[i], twice));
        } else {
            assert((a + b)[i] == b[i - a.len()]);
            lemma_shows_concat(a, b, mirrored_y(b[i - a.len()], twice));
        }
    }
}

/// Shapes are symmetric about `x = 0` where each has a partner among them
/// that is its mirror image.
pub proof fn lemma_symmetric_x_by_partner(shapes: Seq<Shape>, partner: spec_fn(int) -> int)
    requires
        forall|i: int|
            0 <= i < shapes.len() ==> 0 <= #[trigger] partner(i) < shapes.len() && same_figure(
                mirrored_x(shapes[i]),
                shapes[partner(i)],
            ),
    ensures
        symmetric_x(shapes),
{
    assert forall|i: int| 0 <= i < shapes.len() implies shows(
        shapes,
        mirrored_x(#[trigger] shapes[i]),
    ) by {
        let j = partner(i);
        assert(same_figure(mirrored_x(shapes[i]), shapes[j]));
    }
}

/// Shapes are symmetric about a level line where each has a partner among
/// them that is its mirror image.
pub proof fn lemma_symmetric_y_by_partner(
    shapes: Seq<Shape>,
    twice: int,
    partner: spec_fn(int) -> int,
)
    requires
        forall|i: int|
            0 <= i < shapes.len() ==> 0 <= #[trigger] partner(i) < shapes.len() && same_figure(
                mirrored_y(shapes[i], twice),
                shapes[partner(i)],
            ),
    ensures
        symmetric_y(shapes, twice),
{
    assert forall|i: int| 0 <= i < shapes.len() implies shows(
        shapes,
        mirrored_y(#[trigger] shapes[i], twice),
    ) by {
        let j = partner(i);
        assert(same_figure(mirrored_y(shapes[i], twice), shapes[j]));
    }
}

/// The place, among the six shapes of a bolt and its mirror image, of the
/// mirror image about `x = 0` of the shape at the place `t`.
pub open spec fn mark_partner(t: int) -> int {
    if t == 0 {
        1
    } else if t == 1 {
        0
    } else if t == 2 {
        4
    } else if t == 3 {
        5
    } else if t == 4 {
        2
    } else {
        3
    }
}

/// Bolts are drawn symmetrically about `x = 0`, wherever their centres are.
pub proof fn lemma_bolt_marks_symmetric_x(
    centers: Seq<Pos>,
    shift: int,
    radius: int,
    plate: Seq<char>,
    bolt: Seq<char>,
)
    ensures
        symmetric_x(bolt_marks(centers, shift, radius, plate, bolt)),
{
    let marks = bolt_marks(centers, shift, radius, plate, bolt);
    let partner = |q: int| 6 * (q / 6) + mark_partner(q % 6);
    lemma_bolt_marks_len(centers, shift, radius, plate, bolt);
    assert forall|q: int| 0 <= q < marks.len() implies 0 <= #[trigger] partner(q) < marks.len()
        && same_figure(mirrored_x(marks[q]), marks[partner(q)]) by {
        let k = q / 6;
        let t = q % 6;
        let own = bolt_mark(centers[k], shift, radius, plate, bolt);
        lemma_bolt_marks_index(centers, shift, radius, plate, bolt, k, t);
        lemma_bolt_marks_index(centers, shift, radius, plate, bolt, k, mark_partner(t));
        assert(marks[q] == own[t]);
        assert(marks[partner(q)] == own[mark_partner(t)]);
        assert(same_figure(mirrored_x(own[t]), own[mark_partner(t)]));
    }
    lemma_symmetric_x_by_partner(marks, partner);
}

/// The axes of the flange bolts are drawn symmetrically about `x = 0`.
pub proof fn lemma_flange_bolt_lines_symmetric_x(input: &HJoint)
    ensures
        symmetric_x(flange_bolt_lines(input)),
{
    let nf = flange_columns(input.flange);
    let lines = flange_bolt_columns(input, nf);
    let partner = |q: int| 4 * (q / 4) + (q % 4 + 2) % 4;
    lemma_flange_bolt_columns_len(input, nf);
    assert forall|q: int| 0 <= q < lines.len() implies 0 <= #[trigger] partner(q) < lines.len()
        && same_figure(mirrored_x(lines[q]), lines[partner(q)]) by {
        let i = q / 4;
        let t = q % 4;
        let u = (t + 2) % 4;
        let own = flange_bolt_column(input, i);
        lemma_flange_bolt_columns_index(input, nf, i, t);
        lemma_flange_bolt_columns_index(input, nf, i, u);
        assert(lines[q] == own[t]);
        assert(lines[partner(q)] == own[u]);
        assert(same_figure(mirrored_x(own[t]), own[u]));
    }
    lemma_symmetric_x_by_partner(lines, partner);
}

/// The place of the mirror image of the side `i` of a rectangle that is
/// drawn as two level sides and then two upright ones, about an upright
/// line through its middle.
pub open spec fn side_partner(i: int) -> int {
    if i == 2 {
        3
    } else if i == 3 {
        2
    } else {
        i
    }
}

/// The place of the mirror image of the line `i` of two such rectangles.
pub open spec fn sides_partner(i: int) -> int {
    if i < 4 {
        side_partner(i)
    } else {
        4 + side_partner(i - 4)
    }
}

/// The place of the mirror image of the line `i` among lines that are
/// drawn in pairs, left and right.
pub open spec fn pair_partner(i: int) -> int {
    if i % 2 == 0 {
        i + 1
    } else {
        i - 1
    }
}

/// The outline of the members in the elevation is symmetric about
/// `x = 0`.
pub proof fn lemma_elevation_base_symmetric(input: &HJoint)
    ensures
        symmetric_x(crate::output_x::base_lines(input)),
{
    let lines = crate::output_x::base_lines(input);
    assert forall|i: int| 0 <= i < lines.len() implies 0 <= #[trigger] pair_partner(i)
        < lines.len() && same_figure(mirrored_x(lines[i]), lines[pair_partner(i)]) by {
        if i == 0 {
            assert(mirrored_x(lines[0]) == lines[1]);
        } else if i == 1 {
            assert(mirrored_x(lines[1]) == lines[0]);
        } else if i == 2 {
            assert(mirrored_x(lines[2]) == reversed(lines[3]));
        } else if i == 3 {
            assert(mirrored_x(lines[3]) == reversed(lines[2]));
        } else if i == 4 {
            assert(mirrored_x(lines[4]) == reversed(lines[5]));
        } else if i == 5 {
            assert(mirrored_x(lines[5]) == reversed(lines[4]));
        } else if i == 6 {
            assert(mirrored_x(lines[6]) == reversed(lines[7]));
        } else if i == 7 {
            assert(mirrored_x(lines[7]) == reversed(lines[6]));
        } else if i == 8 {
            assert(mirrored_x(lines[8]) == reversed(lines[9]));
        } else {
            assert(mirrored_x(lines[9]) == reversed(lines[8]));
        }
    }
    lemma_symmetric_x_by_partner(lines, |i: int| pair_partner(i));
}

/// Eight lines that are the sides of two rectangles, each about `x = 0`,
/// are symmetric about `x = 0`.
pub proof fn lemma_rectangles_symmetric(lines: Seq<Shape>)
    requires
        lines.len() == 8,
        mirrored_x(lines[0]) == reversed(lines[0]),
        mirrored_x(lines[1]) == reversed(lines[1]),
        mirrored_x(lines[2]) == lines[3],
        mirrored_x(lines[3]) == lines[2],
        mirrored_x(lines[4]) == reversed(lines[4]),
        mirrored_x(lines[5]) == reversed(lines[5]),
        mirrored_x(lines[6]) == lines[7],
        mirrored_x(lines[7]) == lines[6],
    ensures
        symmetric_x(lines),
{
    assert forall|i: int| 0 <= i < lines.len() implies 0 <= #[trigger] sides_partner(i)
        < lines.len() && same_figure(mirrored_x(lines[i]), lines[sides_partner(i)]) by {
        if i == 0 {
        } else if i == 1 {
        } else if i == 2 {
        } else if i == 3 {
        } else if i == 4 {
        } else if i == 5 {
        } else if i == 6 {
        } else {
        }
    }
    lemma_symmetric_x_by_partner(lines, |i: int| sides_partner(i));
}

/// Four lines that are the sides of a rectangle about `x = 0` are symmetric
/// about `x = 0`.
pub proof fn lemma_rectangle_symmetric(lines: Seq<Shape>)
    requires
        lines.len() == 4,
        mirrored_x(lines[0]) == reversed(lines[0]),
        mirrored_x(lines[1]) == reversed(lines[1]),
        mirrored_x(lines[2]) == lines[3],
        mirrored_x(lines[3]) == lines[2],
    ensures
        symmetric_x(lines),
{
    assert forall|i: int| 0 <= i < lines.len() implies 0 <= #[trigger] side_partner(i)
        < lines.len() && same_figure(mirrored_x(lines[i]), lines[side_partner(i)]) by {
        if i == 0 {
        } else if i == 1 {
        } else if i == 2 {
        } else {
        }
    }
    lemma_symmetric_x_by_partner(lines, |i: int| side_partner(i));
}

/// The outer plates of the elevation are symmetric about `x = 0`.
pub proof fn lemma_elevation_outer_plate_symmetric(input: &HJoint)
    ensures
        symmetric_x(crate::output_x::outer_plate_lines(input)),
{
    let lines = crate::output_x::outer_plate_lines(input);
    assert(lines.len() == 8);
    assert(mirrored_x(lines[0]) == reversed(lines[0]));
    assert(mirrored_x(lines[1]) == reversed(lines[1]));
    assert(mirrored_x(lines[2]) == lines[3]);
    assert(mirrored_x(lines[3]) == lines[2]);
    assert(mirrored_x(lines[4]) == reversed(lines[4]));
    assert(mirrored_x(lines[5]) == reversed(lines[5]));
    assert(mirrored_x(lines[6]) == lines[7]);
    assert(mirrored_x(lines[7]) == lines[6]);
    lemma_rectangles_symmetric(lines);
}

/// The inner plates of the elevation are symmetric about `x = 0`.
pub proof fn lemma_elevation_inner_plate_symmetric(input: &HJoint)
    ensures
        symmetric_x(inner_plate_lines(input)),
{
    let lines = inner_plate_lines(input);
    assert(lines.len() == 8);
    assert(mirrored_x(lines[0]) == reversed(lines[0]));
    assert(mirrored_x(lines[1]) == reversed(lines[1]));
    assert(mirrored_x(lines[2]) == lines[3]);
    assert(mirrored_x(lines[3]) == lines[2]);
    assert(mirrored_x(lines[4]) == reversed(lines[4]));
    assert(mirrored_x(lines[5]) == reversed(lines[5]));
    assert(mirrored_x(lines[6]) == lines[7]);
    assert(mirrored_x(lines[7]) == lines[6]);
    lemma_rectangles_symmetric(lines);
}

/// The web plate of the elevation is symmetric about `x = 0`.
pub proof fn lemma_elevation_web_plate_symmetric(input: &HJoint)
    ensures
        symmetric_x(web_plate_lines(input)),
{
    let lines = web_plate_lines(input);
    assert(lines.len() == 4);
    assert(mirrored_x(lines[0]) == reversed(lines[0]));
    assert(mirrored_x(lines[1]) == reversed(lines[1]));
    assert(mirrored_x(lines[2]) == lines[3]);
    assert(mirrored_x(lines[3]) == lines[2]);
    lemma_rectangle_symmetric(lines);
}

/// The elevation is symmetric about the splice: the mirror image about
/// `x = 0` of every line and circle of it is a line or circle of it, on the
/// same layer. This holds of every joint, staggered or not.
pub proof fn lemma_elevation_symmetric(input: &HJoint)
    ensures
        symmetric_x(elevation(input)),
{
    let base = crate::output_x::base_lines(input);
    let outer = crate::output_x::outer_plate_lines(input);
    let inner = inner_plate_lines(input);
    let bolts = flange_bolt_lines(input);
    let web = web_plate_lines(input);
    let marks = web_bolt_marks(input);
    lemma_elevation_base_symmetric(input);
    lemma_elevation_outer_plate_symmetric(input);
    lemma_elevation_inner_plate_symmetric(input);
    lemma_elevation_web_plate_symmetric(input);
    lemma_flange_bolt_lines_symmetric_x(input);
    lemma_bolt_marks_symmetric_x(
        web_bolt_grid(input),
        0,
        input.bolt.hole_radius(),
        input.layer_name.plate@,
        input.layer_name.bolt@,
    );
    lemma_symmetric_x_concat(base, outer);
    lemma_symmetric_x_concat(base + outer, inner);
    lemma_symmetric_x_concat(base + outer + inner, bolts);
    lemma_symmetric_x_concat(base + outer + inner + bolts, web);
    lemma_symmetric_x_concat(base + outer + inner + bolts + web, marks);
}

/// The outline, the plate and the bolts of the cross-section: all of it
/// but the dimensions.
pub open spec fn cross_section_geometry(input: &HJoint) -> Seq<Shape> {
    crate::output_z::base_lines(input) + crate::output_z::outer_plate_lines(input)
        + flange_bolt_marks(input)
}

/// The place, among the twelve shapes of a column of flange bolts, of the
/// mirror image about `x = 0` of the shape at the place `t`.
pub open spec fn column_partner_x(t: int) -> int {
    if t < 4 {
        pair_partner(t)
    } else if t < 6 || (8 <= t < 10) {
        t + 2
    } else {
        t - 2
    }
}

/// The place, among the twelve shapes of a column of flange bolts, of the
/// mirror image about the middle of the flange of the shape at the place
/// `t`.
pub open spec fn column_partner_y(t: int) -> int {
    if t < 2 {
        t + 2
    } else if t < 4 {
        t - 2
    } else if t < 8 {
        t + 4
    } else {
        t - 4
    }
}

/// The two flange bolts of a column are mirror images of each other about
/// the middle of the flange.
pub proof fn lemma_flange_column_centers(input: &HJoint, i: int)
    requires
        0 <= i < flange_columns(input.flange),
    ensures
        flange_bolt_grid_of(input)[2 * i + 1] == over(
            flange_bolt_grid_of(input)[2 * i],
            full(input.section.b as int),
        ),
{
    let b = input.section.b as int;
    assert(flange_bolt_grid_of(input)[2 * i] == flange_point(b, input.flange, 2 * i));
    assert(flange_bolt_grid_of(input)[2 * i + 1] == flange_point(b, input.flange, 2 * i + 1));
}

/// What is drawn for a column of flange bolts is symmetric about `x = 0`.
pub proof fn lemma_flange_column_mirrored_x(
    p: Pos,
    q: Pos,
    radius: int,
    plate: Seq<char>,
    bolt: Seq<char>,
    t: int,
)
    requires
        0 <= t < 12,
    ensures
        0 <= column_partner_x(t) < 12,
        same_figure(
            mirrored_x(crate::output_z::flange_bolt_column(p, q, radius, plate, bolt)[t]),
            crate::output_z::flange_bolt_column(p, q, radius, plate, bolt)[column_partner_x(t)],
        ),
{
    let own = crate::output_z::flange_bolt_column(p, q, radius, plate, bolt);
    assert(own.len() == 12);
    if t == 0 {
        assert(mirrored_x(own[0]) == own[1]);
    } else if t == 1 {
        assert(mirrored_x(own[1]) == own[0]);
    } else if t == 2 {
        assert(mirrored_x(own[2]) == own[3]);
    } else if t == 3 {
        assert(mirrored_x(own[3]) == own[2]);
    } else if t == 4 {
        assert(mirrored_x(own[4]) == reversed(own[6]));
    } else if t == 5 {
        assert(mirrored_x(own[5]) == own[7]);
    } else if t == 6 {
        assert(mirrored_x(own[6]) == reversed(own[4]));
    } else if t == 7 {
        assert(mirrored_x(own[7]) == own[5]);
    } else if t == 8 {
        assert(mirrored_x(own[8]) == reversed(own[10]));
    } else if t == 9 {
        assert(mirrored_x(own[9]) == own[11]);
    } else if t == 10 {
        assert(mirrored_x(own[10]) == reversed(own[8]));
    } else {
        assert(mirrored_x(own[11]) == own[9]);
    }
}

/// What is drawn for a column of flange bolts whose two centres are mirror
/// images of each other about the middle of the flange is symmetric about
/// that middle.
pub proof fn lemma_flange_column_mirrored_y(
    p: Pos,
    q: Pos,
    b: int,
    radius: int,
    plate: Seq<char>,
    bolt: Seq<char>,
    t: int,
)
    requires
        0 <= t < 12,
        q == over(p, full(b)),
    ensures
        0 <= column_partner_y(t) < 12,
        same_figure(
            mirrored_y(
                crate::output_z::flange_bolt_column(p, q, radius, plate, bolt)[t],
                flange_axis(b),
            ),
            crate::output_z::flange_bolt_column(p, q, radius, plate, bolt)[column_partner_y(t)],
        ),
{
    let twice = flange_axis(b);
    let own = crate::output_z::flange_bolt_column(p, q, radius, plate, bolt);
    assert(own.len() == 12);
    if t == 0 {
        assert(mirrored_y(own[0], twice) == own[2]);
    } else if t == 1 {
        assert(mirrored_y(own[1], twice) == own[3]);
    } else if t == 2 {
        assert(mirrored_y(own[2], twice) == own[0]);
    } else if t == 3 {
        assert(mirrored_y(own[3], twice) == own[1]);
    } else if t == 4 {
        assert(mirrored_y(own[4], twice) == own[8]);
    } else if t == 5 {
        assert(mirrored_y(own[5], twice) == reversed(own[9]));
    } else if t == 6 {
        assert(mirrored_y(own[6], twice) == own[10]);
    } else if t == 7 {
        assert(mirrored_y(own[7], twice) == reversed(own[11]));
    } else if t == 8 {
        assert(mirrored_y(own[8], twice) == own[4]);
    } else if t == 9 {
        assert(mirrored_y(own[9], twice) == reversed(own[5]));
    } else if t == 10 {
        assert(mirrored_y(own[10], twice) == own[6]);
    } else {
        assert(mirrored_y(own[11], twice) == reversed(own[7]));
    }
}

/// The flange bolts are drawn symmetrically about `x = 0`.
pub proof fn lemma_flange_bolt_marks_symmetric_x(input: &HJoint)
    ensures
        symmetric_x(flange_bolt_marks(input)),
{
    let nf = flange_columns(input.flange);
    let marks = flange_bolt_marks(input);
    let partner = |s: int| 12 * (s / 12) + column_partner_x(s % 12);
    crate::output_z::lemma_flange_bolt_columns_len(input, nf);
    assert forall|s: int| 0 <= s < marks.len() implies 0 <= #[trigger] partner(s) < marks.len()
        && same_figure(mirrored_x(marks[s]), marks[partner(s)]) by {
        let i = s / 12;
        let t = s % 12;
        let u = column_partner_x(t);
        let own = flange_bolt_column_of(input, i);
        lemma_flange_column_mirrored_x(
            flange_bolt_grid_of(input)[2 * i],
            flange_bolt_grid_of(input)[2 * i + 1],
            input.bolt.hole_radius(),
            input.layer_name.plate@,
            input.layer_name.bolt@,
            t,
        );
        crate::output_z::lemma_flange_bolt_columns_index(input, nf, i, t);
        crate::output_z::lemma_flange_bolt_columns_index(input, nf, i, u);
        assert(marks[s] == own[t]);
        assert(marks[partner(s)] == own[u]);
    }
    lemma_symmetric_x_by_partner(marks, partner);
}

/// The flange bolts are drawn symmetrically about the middle of the flange.
pub proof fn lemma_flange_bolt_marks_symmetric_y(input: &HJoint)
    ensures
        symmetric_y(flange_bolt_marks(input), flange_axis(input.section.b as int)),
{
    let b = input.section.b as int;
    let twice = flange_axis(b);
    let nf = flange_columns(input.flange);
    let marks = flange_bolt_marks(input);
    let partner = |s: int| 12 * (s / 12) + column_partner_y(s % 12);
    crate::output_z::lemma_flange_bolt_columns_len(input, nf);
    assert forall|s: int| 0 <= s < marks.len() implies 0 <= #[trigger] partner(s) < marks.len()
        && same_figure(mirrored_y(marks[s], twice), marks[partner(s)]) by {
        let i = s / 12;
        let t = s % 12;
        let u = column_partner_y(t);
        let own = flange_bolt_column_of(input, i);
        lemma_flange_column_centers(input, i);
        lemma_flange_column_mirrored_y(
            flange_bolt_grid_of(input)[2 * i],
            flange_bolt_grid_of(input)[2 * i + 1],
            b,
            input.bolt.hole_radius(),
            input.layer_name.plate@,
            input.layer_name.bolt@,
            t,
        );
        crate::output_z::lemma_flange_bolt_columns_index(input, nf, i, t);
        crate::output_z::lemma_flange_bolt_columns_index(input, nf, i, u);
        assert(marks[s] == own[t]);
        assert(marks[partner(s)] == own[u]);
    }
    lemma_symmetric_y_by_partner(marks, twice, partner);
}

/// The outline of the flanges in the cross-section is symmetric about
/// `x = 0`.
pub proof fn lemma_cross_section_base_symmetric_x(input: &HJoint)
    ensures
        symmetric_x(crate::output_z::base_lines(input)),
{
    let lines = crate::output_z::base_lines(input);
    let partner = |i: int|
        if i < 2 {
            i + 2
        } else if i < 4 {
            i - 2
        } else if i == 4 {
            5
        } else {
            4
        };
    assert forall|i: int| 0 <= i < lines.len() implies 0 <= #[trigger] partner(i) < lines.len()
        && same_figure(mirrored_x(lines[i]), lines[partner(i)]) by {
        if i == 0 {
            assert(mirrored_x(lines[0]) == lines[2]);
        } else if i == 1 {
            assert(mirrored_x(lines[1]) == lines[3]);
        } else if i == 2 {
            assert(mirrored_x(lines[2]) == lines[0]);
        } else if i == 3 {
            assert(mirrored_x(lines[3]) == lines[1]);
        } else if i == 4 {
            assert(mirrored_x(lines[4]) == lines[5]);
        } else {
            assert(mirrored_x(lines[5]) == lines[4]);
        }
    }
    lemma_symmetric_x_by_partner(lines, partner);
}

/// The outline of the flanges in the cross-section is symmetric about the
/// middle of the flange.
pub proof fn lemma_cross_section_base_symmetric_y(input: &HJoint)
    ensures
        symmetric_y(crate::output_z::base_lines(input), flange_axis(input.section.b as int)),
{
    let twice = flange_axis(input.section.b as int);
    let lines = crate::output_z::base_lines(input);
    let partner = |i: int|
        if i < 4 {
            pair_partner(i)
        } else {
            i
        };
    assert forall|i: int| 0 <= i < lines.len() implies 0 <= #[trigger] partner(i) < lines.len()
        && same_figure(mirrored_y(lines[i], twice), lines[partner(i)]) by {
        if i == 0 {
            assert(mirrored_y(lines[0], twice) == lines[1]);
        } else if i == 1 {
            assert(mirrored_y(lines[1], twice) == lines[0]);
        } else if i == 2 {
            assert(mirrored_y(lines[2], twice) == lines[3]);
        } else if i == 3 {
            assert(mirrored_y(lines[3], twice) == lines[2]);
        } else if i == 4 {
            assert(mirrored_y(lines[4], twice) == reversed(lines[4]));
        } else {
            assert(mirrored_y(lines[5], twice) == reversed(lines[5]));
        }
    }
    lemma_symmetric_y_by_partner(lines, twice, partner);
}

/// The plate of the cross-section is symmetric about `x = 0`.
pub proof fn lemma_cross_section_plate_symmetric_x(input: &HJoint)
    ensures
        symmetric_x(crate::output_z::outer_plate_lines(input)),
{
    let lines = crate::output_z::outer_plate_lines(input);
    assert(lines.len() == 4);
    assert(mirrored_x(lines[0]) == reversed(lines[0]));
    assert(mirrored_x(lines[1]) == reversed(lines[1]));
    assert(mirrored_x(lines[2]) == lines[3]);
    assert(mirrored_x(lines[3]) == lines[2]);
    lemma_rectangle_symmetric(lines);
}

/// The plate of the cross-section is symmetric about the middle of the
/// flange.
pub proof fn lemma_cross_section_plate_symmetric_y(input: &HJoint)
    ensures
        symmetric_y(
            crate::output_z::outer_plate_lines(input),
            flange_axis(input.section.b as int),
        ),
{
    let twice = flange_axis(input.section.b as int);
    let lines = crate::output_z::outer_plate_lines(input);
    let partner = |i: int|
        if i < 2 {
            pair_partner(i)
        } else {
            i
        };
    assert forall|i: int| 0 <= i < lines.len() implies 0 <= #[trigger] partner(i) < lines.len()
        && same_figure(mirrored_y(lines[i], twice), lines[partner(i)]) by {
        if i == 0 {
            assert(mirrored_y(lines[0], twice) == lines[1]);
        } else if i == 1 {
            assert(mirrored_y(lines[1], twice) == lines[0]);
        } else if i == 2 {
            assert(mirrored_y(lines[2], twice) == reversed(lines[2]));
        } else {
            assert(mirrored_y(lines[3], twice) == reversed(lines[3]));
        }
    }
    lemma_symmetric_y_by_partner(lines, twice, partner);
}

/// The cross-section is symmetric about the splice and about the middle of
/// the flange: the mirror image, about `x = 0` and about half the flange's
/// width, of every line and circle of it is a line or circle of it, on the
/// same layer. This holds of every joint, staggered or not. The dimensions
/// stand on one side and are left out.
pub proof fn lemma_cross_section_symmetric(input: &HJoint)
    ensures
        symmetric_x(cross_section_geometry(input)),
        symmetric_y(cross_section_geometry(input), flange_axis(input.section.b as int)),
{
    let twice = flange_axis(input.section.b as int);
    let base = crate::output_z::base_lines(input);
    let outer = crate::output_z::outer_plate_lines(input);
    let marks = flange_bolt_marks(input);
    lemma_cross_section_base_symmetric_x(input);
    lemma_cross_section_plate_symmetric_x(input);
    lemma_flange_bolt_marks_symmetric_x(input);
    lemma_symmetric_x_concat(base, outer);
    lemma_symmetric_x_concat(base + outer, marks);
    lemma_cross_section_base_symmetric_y(input);
    lemma_cross_section_plate_symmetric_y(input);
    lemma_flange_bolt_marks_symmetric_y(input);
    lemma_symmetric_y_concat(base, outer, twice);
    lemma_symmetric_y_concat(base + outer, marks, twice);
}

} // verus!

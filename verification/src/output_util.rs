//! The drawing in the making, and the four primitives that the views are
//! made of: a line, a circle, a cross mark, a dimension.
//!
//! Layers are declared on the DXF drawing at once. What is drawn is kept
//! beside it in exact coordinates, whole numbers of half-thousandths of the
//! drawing unit, until the drawing is written.

use vstd::prelude::*;
use crate::units::{full, full_of, half, half_of, CROSS_SIZE, DIMENSION_GAP, MAX_LENGTH};

verus! {

/// The largest coordinate, to either side of the origin, that the
/// primitives take.
pub const MAX_COORD: i64 = 4_000_000_000_000_000_000;

/// The largest coordinate, to either side of the origin, of a bolt's
/// centre.
pub const MAX_CENTER: i64 = 2_000_000_000_000_000_000;

/// A point of the drawing.
#[derive(Clone, Copy, Debug, PartialEq, Eq)]
pub struct Point {
    pub x: i64,
    pub y: i64,
}

/// A dimension style. Its three sizes are lengths.
#[derive(Clone, Debug, PartialEq, Eq)]
pub struct DimStyle {
    pub name: String,
    pub text_height: i64,
    pub arrow_size: i64,
    pub extension_offset: i64,
}

/// Something drawn.
#[derive(Clone, Debug, PartialEq, Eq)]
pub enum Entity {
    /// A straight line between two points.
    Line { start: Point, end: Point, layer: String },
    /// A circle. The radius is a distance between coordinates.
    Circle { center: Point, radius: i64, layer: String },
    /// An ordinate dimension between two reference points, with the place
    /// of its text and the angle of the text in degrees.
    Dimension {
        base: Point,
        first: Point,
        second: Point,
        anchor: Point,
        rotation: u16,
        style: String,
        layer: String,
    },
}

/// A drawing in the making: the DXF drawing with its layers, and the
/// dimension styles and entities that are to be put on it, in the order in
/// which they were drawn.
#[derive(Debug)]
pub struct Draft {
    pub sink: dxf::Drawing,
    pub dim_styles: Vec<DimStyle>,
    pub entities: Vec<Entity>,
}

/// The drawing of the `dxf` crate.
#[verifier::external_type_specification]
#[verifier::external_body]
pub struct ExDxfDrawing(dxf::Drawing);

/// The layers of a DXF drawing in the order in which they stand on it, each
/// by its name and the number of its colour, as `dxf::Color::from_index`
/// takes it.
pub uninterp spec fn declared_layers(sink: dxf::Drawing) -> Seq<(Seq<char>, int)>;

/// `dxf::Drawing::new`. Not proved: a new DXF drawing holds one layer, of
/// the name "0" and the colour 7.
#[verifier::external_body]
fn new_sink() -> (sink: dxf::Drawing)
    ensures
        declared_layers(sink) == seq![("0"@, 7int)],
{
    dxf::Drawing::new()
}

/// `dxf::Drawing::add_layer`, for a layer of the given name and of the
/// colour that `dxf::Color::from_index` makes of `color`. Not proved: the
/// layer is put behind the layers that the drawing holds, which stay as
/// they are.
#[verifier::external_body]
fn declare_layer(sink: &mut dxf::Drawing, name: &String, color: u8)
    ensures
        declared_layers(*final(sink)) == declared_layers(*old(sink)).push((name@, color as int)),
{
    sink.add_layer(
        dxf::tables::Layer {
            name: name.clone(),
            color: dxf::Color::from_index(color),
            ..Default::default()
        },
    );
}

/// A point of the plane.
pub struct Pos {
    pub x: int,
    pub y: int,
}

/// A dimension style as a value.
pub struct DimStyleView {
    pub name: Seq<char>,
    pub text_height: int,
    pub arrow_size: int,
    pub extension_offset: int,
}

/// Something drawn, as a value.
pub enum Shape {
    Line { start: Pos, end: Pos, layer: Seq<char> },
    Circle { center: Pos, radius: int, layer: Seq<char> },
    Dimension {
        base: Pos,
        first: Pos,
        second: Pos,
        anchor: Pos,
        rotation: int,
        style: Seq<char>,
        layer: Seq<char>,
    },
}

/// A drawing as a value.
#[verifier::ext_equal]
pub struct DraftView {
    pub layers: Seq<(Seq<char>, int)>,
    pub dim_styles: Seq<DimStyleView>,
    pub entities: Seq<Shape>,
}

impl View for Point {
    type V = Pos;

    open spec fn view(&self) -> Pos {
        Pos { x: self.x as int, y: self.y as int }
    }
}

impl View for DimStyle {
    type V = DimStyleView;

    open spec fn view(&self) -> DimStyleView {
        DimStyleView {
            name: self.name@,
            text_height: self.text_height as int,
            arrow_size: self.arrow_size as int,
            extension_offset: self.extension_offset as int,
        }
    }
}

impl View for Entity {
    type V = Shape;

    open spec fn view(&self) -> Shape {
        match *self {
            Entity::Line { start, end, layer } => Shape::Line {
                start: start@,
                end: end@,
                layer: layer@,
            },
            Entity::Circle { center, radius, layer } => Shape::Circle {
                center: center@,
                radius: radius as int,
                layer: layer@,
            },
            Entity::Dimension { base, first, second, anchor, rotation, style, layer } => {
                Shape::Dimension {
                    base: base@,
                    first: first@,
                    second: second@,
                    anchor: anchor@,
                    rotation: rotation as int,
                    style: style@,
                    layer: layer@,
                }
            },
        }
    }
}

impl View for Draft {
    type V = DraftView;

    open spec fn view(&self) -> DraftView {
        DraftView {
            layers: declared_layers(self.sink),
            dim_styles: Seq::new(self.dim_styles@.len(), |i: int| self.dim_styles@[i]@),
            entities: Seq::new(self.entities@.len(), |i: int| self.entities@[i]@),
        }
    }
}

/// The points of `points` as values.
pub open spec fn positions(points: Seq<Point>) -> Seq<Pos> {
    Seq::new(points.len(), |i: int| points[i]@)
}

/// Whether `p` can be the centre of a bolt.
pub open spec fn drawable(p: Pos) -> bool {
    -MAX_CENTER <= p.x <= MAX_CENTER && -MAX_CENTER <= p.y <= MAX_CENTER
}

impl DraftView {
    /// The drawing with nothing drawn on it: it holds the layer "0" of
    /// the colour 7, as every DXF drawing does.
    pub open spec fn fresh() -> DraftView {
        DraftView {
            layers: seq![("0"@, 7int)],
            dim_styles: Seq::empty(),
            entities: Seq::empty(),
        }
    }

    /// The drawing after one more layer was declared.
    pub open spec fn with_layer(self, name: Seq<char>, color: int) -> DraftView {
        DraftView { layers: self.layers.push((name, color)), ..self }
    }

    /// The drawing after one more dimension style was declared.
    pub open spec fn with_dim_style(self, style: DimStyleView) -> DraftView {
        DraftView { dim_styles: self.dim_styles.push(style), ..self }
    }

    /// The drawing after `shape` was drawn.
    pub open spec fn with(self, shape: Shape) -> DraftView {
        DraftView { entities: self.entities.push(shape), ..self }
    }

    /// The drawing after `shapes` were drawn, one after the other.
    pub open spec fn drawn(self, shapes: Seq<Shape>) -> DraftView {
        DraftView { entities: self.entities + shapes, ..self }
    }
}

/// The line from `(x1, y1)` to `(x2, y2)`.
pub open spec fn line(x1: int, y1: int, x2: int, y2: int, layer: Seq<char>) -> Shape {
    Shape::Line { start: Pos { x: x1, y: y1 }, end: Pos { x: x2, y: y2 }, layer }
}

/// The circle about `(x, y)`.
pub open spec fn circle(x: int, y: int, radius: int, layer: Seq<char>) -> Shape {
    Shape::Circle { center: Pos { x, y }, radius, layer }
}

/// The cross mark at `(x, y)`: a level stroke and an upright one, each of
/// the length `size` and with `(x, y)` at its middle.
pub open spec fn cross(x: int, y: int, size: int, layer: Seq<char>) -> Seq<Shape> {
    seq![
        line(x - half(size), y, x + half(size), y, layer),
        line(x, y - half(size), x, y + half(size), layer),
    ]
}

/// What is drawn for the bolt at `c` and for its mirror image on the other
/// side of the splice, in a view that is drawn at the height `shift`: the
/// two holes of the radius `radius` on the layer `plate`, then the two
/// cross marks on the layer `bolt`.
pub open spec fn bolt_mark(c: Pos, shift: int, radius: int, plate: Seq<char>, bolt: Seq<char>)
    -> Seq<Shape> {
    seq![circle(c.x, c.y + shift, radius, plate), circle(-c.x, c.y + shift, radius, plate)]
        + cross(c.x, c.y + shift, CROSS_SIZE as int, bolt) + cross(
        -c.x,
        c.y + shift,
        CROSS_SIZE as int,
        bolt,
    )
}

/// What is drawn for the bolts at `centers`, one bolt after the other.
pub open spec fn bolt_marks(
    centers: Seq<Pos>,
    shift: int,
    radius: int,
    plate: Seq<char>,
    bolt: Seq<char>,
) -> Seq<Shape>
    decreases centers.len(),
{
    if centers.len() == 0 {
        Seq::empty()
    } else {
        bolt_marks(centers.drop_last(), shift, radius, plate, bolt) + bolt_mark(
            centers.last(),
            shift,
            radius,
            plate,
            bolt,
        )
    }
}

/// Six shapes are drawn for each bolt of one side: two holes and the four
/// strokes of two cross marks.
pub proof fn lemma_bolt_marks_len(
    centers: Seq<Pos>,
    shift: int,
    radius: int,
    plate: Seq<char>,
    bolt: Seq<char>,
)
    ensures
        bolt_marks(centers, shift, radius, plate, bolt).len() == 6 * centers.len(),
    decreases centers.len(),
{
    if centers.len() > 0 {
        lemma_bolt_marks_len(centers.drop_last(), shift, radius, plate, bolt);
    }
}

/// The shape `t` of what is drawn for the bolt `k` stands at the place
/// `6 * k + t` of what is drawn for all bolts.
pub proof fn lemma_bolt_marks_index(
    centers: Seq<Pos>,
    shift: int,
    radius: int,
    plate: Seq<char>,
    bolt: Seq<char>,
    k: int,
    t: int,
)
    requires
        0 <= k < centers.len(),
        0 <= t < 6,
    ensures
        bolt_marks(centers, shift, radius, plate, bolt)[6 * k + t] == bolt_mark(
            centers[k],
            shift,
            radius,
            plate,
            bolt,
        )[t],
    decreases centers.len(),
{
    lemma_bolt_marks_len(centers.drop_last(), shift, radius, plate, bolt);
    if k < centers.len() - 1 {
        lemma_bolt_marks_index(centers.drop_last(), shift, radius, plate, bolt, k, t);
    }
}

/// The holes of the bolt `k` are the shapes `6 * k` and `6 * k + 1`: about
/// the bolt's centre, raised by `shift`, and about its mirror image.
pub proof fn lemma_holes(
    centers: Seq<Pos>,
    shift: int,
    radius: int,
    plate: Seq<char>,
    bolt: Seq<char>,
    k: int,
)
    requires
        0 <= k < centers.len(),
    ensures
        bolt_marks(centers, shift, radius, plate, bolt)[6 * k] == circle(
            centers[k].x,
            centers[k].y + shift,
            radius,
            plate,
        ),
        bolt_marks(centers, shift, radius, plate, bolt)[6 * k + 1] == circle(
            -centers[k].x,
            centers[k].y + shift,
            radius,
            plate,
        ),
{
    lemma_bolt_marks_index(centers, shift, radius, plate, bolt, k, 0);
    lemma_bolt_marks_index(centers, shift, radius, plate, bolt, k, 1);
}

/// The name of the one dimension style.
pub open spec fn dim_style_name() -> Seq<char> {
    "mydim"@
}

/// Whether the dimension between two reference points stands upright: it
/// does where both have the same `x`.
pub open spec fn upright(x1: int, x2: int) -> bool {
    x1 == x2
}

/// The dimension between the reference points at the distances `(x1, y1)`
/// and `(x2, y2)` from the origin. The first of them is its base point. Its
/// text is at `DIMENSION_GAP` from the middle of the two: to the right and
/// turned by 270 degrees where the dimension stands upright, above and not
/// turned where it does not.
pub open spec fn dimension(x1: int, y1: int, x2: int, y2: int, layer: Seq<char>) -> Shape {
    let first = Pos { x: full(x1), y: full(y1) };
    let second = Pos { x: full(x2), y: full(y2) };
    let middle = Pos { x: half(x1 + x2), y: half(y1 + y2) };
    Shape::Dimension {
        base: first,
        first,
        second,
        anchor: if upright(x1, x2) {
            Pos { x: middle.x + full(DIMENSION_GAP as int), y: middle.y }
        } else {
            Pos { x: middle.x, y: middle.y + full(DIMENSION_GAP as int) }
        },
        rotation: if upright(x1, x2) {
            270
        } else {
            0
        },
        style: dim_style_name(),
        layer,
    }
}

impl Draft {
    /// A drawing with nothing drawn on it.
    pub fn new() -> (drawing: Draft)
        ensures
            drawing@ == DraftView::fresh(),
    {
        Draft { sink: new_sink(), dim_styles: Vec::new(), entities: Vec::new() }
    }

    /// Declares a layer.
    pub fn add_layer(&mut self, name: &String, color: u8)
        ensures
            final(self)@ == old(self)@.with_layer(name@, color as int),
    {
        declare_layer(&mut self.sink, name, color);
    }

    /// Declares a dimension style.
    pub fn add_dim_style(&mut self, style: DimStyle)
        ensures
            final(self)@ == old(self)@.with_dim_style(style@),
    {
        self.dim_styles.push(style);
        assert(self@.dim_styles =~= old(self)@.dim_styles.push(style@));
    }

    /// Draws `entity`.
    pub fn add_entity(&mut self, entity: Entity)
        ensures
            final(self)@ == old(self)@.with(entity@),
    {
        self.entities.push(entity);
        assert(self@.entities =~= old(self)@.entities.push(entity@));
    }
}

/// Draws the line from `(x1, y1)` to `(x2, y2)`.
pub fn write_line(drawing: &mut Draft, x1: i64, y1: i64, x2: i64, y2: i64, layer: &String)
    ensures
        final(drawing)@ == old(drawing)@.with(
            line(x1 as int, y1 as int, x2 as int, y2 as int, layer@),
        ),
{
    drawing.add_entity(
        Entity::Line {
            start: Point { x: x1, y: y1 },
            end: Point { x: x2, y: y2 },
            layer: layer.clone(),
        },
    );
}

/// Draws the circle about `(x, y)`.
pub fn write_circle(drawing: &mut Draft, x: i64, y: i64, radius: i64, layer: &String)
    ensures
        final(drawing)@ == old(drawing)@.with(circle(x as int, y as int, radius as int, layer@)),
{
    drawing.add_entity(Entity::Circle { center: Point { x, y }, radius, layer: layer.clone() });
}

/// Draws the cross mark of the length `size` at `(x, y)`.
pub fn write_cross(drawing: &mut Draft, x: i64, y: i64, size: i64, layer: &String)
    requires
        -MAX_COORD <= x <= MAX_COORD,
        -MAX_COORD <= y <= MAX_COORD,
        0 <= size <= MAX_LENGTH,
    ensures
        final(drawing)@ == old(drawing)@.drawn(cross(x as int, y as int, size as int, layer@)),
{
    let reach = half_of(size);
    write_line(drawing, x - reach, y, x + reach, y, layer);
    write_line(drawing, x, y - reach, x, y + reach, layer);
    assert(drawing@.entities =~= old(drawing)@.entities + cross(
        x as int,
        y as int,
        size as int,
        layer@,
    ));
}

/// Draws the bolts at `centers` and their mirror images on the other side
/// of the splice, in a view that is drawn at the height `shift`.
pub fn write_bolts(
    drawing: &mut Draft,
    centers: &Vec<Point>,
    shift: i64,
    radius: i64,
    plate: &String,
    bolt: &String,
)
    requires
        forall|k: int| 0 <= k < centers.len() ==> drawable(#[trigger] centers[k]@),
        -2 * MAX_LENGTH <= shift <= 2 * MAX_LENGTH,
    ensures
        final(drawing)@ == old(drawing)@.drawn(
            bolt_marks(positions(centers@), shift as int, radius as int, plate@, bolt@),
        ),
{
    let mut k: usize = 0;
    assert(positions(centers@).take(0) =~= Seq::<Pos>::empty());
    assert(drawing@.entities =~= old(drawing)@.entities + Seq::<Shape>::empty());
    while k < centers.len()
        invariant
            k <= centers.len(),
            forall|k: int| 0 <= k < centers.len() ==> drawable(#[trigger] centers[k]@),
            -2 * MAX_LENGTH <= shift <= 2 * MAX_LENGTH,
            drawing@ == old(drawing)@.drawn(
                bolt_marks(
                    positions(centers@).take(k as int),
                    shift as int,
                    radius as int,
                    plate@,
                    bolt@,
                ),
            ),
        decreases centers.len() - k,
    {
        let ghost before = drawing@;
        let c = centers[k];
        assert(drawable(centers[k as int]@));
        let y = c.y + shift;
        write_circle(drawing, c.x, y, radius, plate);
        write_circle(drawing, -c.x, y, radius, plate);
        write_cross(drawing, c.x, y, CROSS_SIZE, bolt);
        write_cross(drawing, -c.x, y, CROSS_SIZE, bolt);
        proof {
            let done = positions(centers@).take(k as int);
            let next = positions(centers@).take(k + 1);
            assert(next.drop_last() =~= done);
            assert(next.last() == c@);
            assert(drawing@.entities =~= before.entities + bolt_mark(
                c@,
                shift as int,
                radius as int,
                plate@,
                bolt@,
            ));
            assert(drawing@.entities =~= old(drawing)@.entities + bolt_marks(
                next,
                shift as int,
                radius as int,
                plate@,
                bolt@,
            ));
        }
        k = k + 1;
    }
    assert(positions(centers@).take(centers.len() as int) =~= positions(centers@));
}

/// Draws the dimension between the reference points at the distances
/// `(x1, y1)` and `(x2, y2)` from the origin.
pub fn write_dimension(drawing: &mut Draft, x1: i64, y1: i64, x2: i64, y2: i64, layer: &String)
    requires
        -MAX_LENGTH <= x1 <= MAX_LENGTH,
        -MAX_LENGTH <= y1 <= MAX_LENGTH,
        -MAX_LENGTH <= x2 <= MAX_LENGTH,
        -MAX_LENGTH <= y2 <= MAX_LENGTH,
    ensures
        final(drawing)@ == old(drawing)@.with(
            dimension(x1 as int, y1 as int, x2 as int, y2 as int, layer@),
        ),
{
    let first = Point { x: full_of(x1), y: full_of(y1) };
    let second = Point { x: full_of(x2), y: full_of(y2) };
    let middle = Point { x: half_of(x1 + x2), y: half_of(y1 + y2) };
    let is_upright = x1 == x2;
    let anchor = if is_upright {
        Point { x: middle.x + full_of(DIMENSION_GAP), y: middle.y }
    } else {
        Point { x: middle.x, y: middle.y + full_of(DIMENSION_GAP) }
    };
    let rotation: u16 = if is_upright {
        270
    } else {
        0
    };
    drawing.add_entity(
        Entity::Dimension {
            base: first,
            first,
            second,
            anchor,
            rotation,
            style: "mydim".to_owned(),
            layer: layer.clone(),
        },
    );
}

} // verus!

use stdr_sjoint::input::{
    Bolt, Flange, FlangeBolt, Gauge, HJoint, InnerPlate, LayerName, OuterPlate, Section, Web,
    WebBolt, WebPlate,
};
use stdr_sjoint::output_util::{Draft, Entity, Point};
use stdr_sjoint::output_x::write_x_view;
use stdr_sjoint::output_z::write_z_view;
use stdr_sjoint::run;

/// Coordinate steps in one drawing unit.
const C: i64 = 2000;

fn joint(nf: u32, mf: u32, is_staggered: bool) -> HJoint {
    HJoint {
        section: Section { h: 400_000, b: 200_000, tw: 8_000, tf: 13_000 },
        bolt: Bolt { diameter: 20 },
        flange: Flange {
            bolt: FlangeBolt { nf, mf, is_staggered },
            gauge: Gauge { g1: 100_000, g2: 40_000 },
            outer_plate: OuterPlate { t: 10_000, l: 300_000 },
            inner_plate: InnerPlate { t: 10_000, b: 150_000 },
        },
        web: Web {
            bolt: WebBolt { mw: 3, nw: 2, pc: 70_000 },
            plate: WebPlate { t: 8_000, b: 150_000, l: 200_000 },
        },
        layer_name: LayerName::default(),
    }
}

fn elevation_of(input: &HJoint) -> Vec<Entity> {
    let mut drawing = Draft::new();
    write_x_view(&mut drawing, input);
    drawing.entities
}

fn cross_section_of(input: &HJoint) -> Vec<Entity> {
    let mut drawing = Draft::new();
    write_z_view(&mut drawing, input);
    drawing.entities
}

fn lines_on(entities: &[Entity], name: &str) -> Vec<(Point, Point)> {
    let mut found = Vec::new();
    for e in entities {
        if let Entity::Line { start, end, layer } = e {
            if layer == name {
                found.push((*start, *end));
            }
        }
    }
    found
}

fn circles_on(entities: &[Entity], name: &str) -> Vec<(Point, i64)> {
    let mut found = Vec::new();
    for e in entities {
        if let Entity::Circle { center, radius, layer } = e {
            if layer == name {
                found.push((*center, *radius));
            }
        }
    }
    found
}

#[test]
fn elevation_has_ten_outline_lines() {
    let input = joint(4, 2, false);
    let lines = lines_on(&elevation_of(&input), &input.layer_name.base);
    assert_eq!(lines.len(), 10);
    assert_eq!(lines[0], (Point { x: -5 * C, y: 0 }, Point { x: -5 * C, y: 400 * C }));
    assert_eq!(lines[1], (Point { x: 5 * C, y: 0 }, Point { x: 5 * C, y: 400 * C }));
    assert_eq!(lines[2], (Point { x: -1000 * C, y: 0 }, Point { x: -5 * C, y: 0 }));
    assert_eq!(lines[3], (Point { x: 5 * C, y: 0 }, Point { x: 1000 * C, y: 0 }));
    assert_eq!(lines[4], (Point { x: -1000 * C, y: 13 * C }, Point { x: -5 * C, y: 13 * C }));
    assert_eq!(lines[5], (Point { x: 5 * C, y: 13 * C }, Point { x: 1000 * C, y: 13 * C }));
    assert_eq!(lines[6], (Point { x: -1000 * C, y: 387 * C }, Point { x: -5 * C, y: 387 * C }));
    assert_eq!(lines[7], (Point { x: 5 * C, y: 387 * C }, Point { x: 1000 * C, y: 387 * C }));
    assert_eq!(lines[8], (Point { x: -1000 * C, y: 400 * C }, Point { x: -5 * C, y: 400 * C }));
    assert_eq!(lines[9], (Point { x: 5 * C, y: 400 * C }, Point { x: 1000 * C, y: 400 * C }));
}

#[test]
fn elevation_has_eight_flange_bolt_axes_on_each_side() {
    let input = joint(4, 2, false);
    let lines = lines_on(&elevation_of(&input), &input.layer_name.bolt);
    let axes: Vec<&(Point, Point)> =
        lines.iter().filter(|(a, b)| a.x == b.x && (a.y - b.y).abs() > 20 * C).collect();
    assert_eq!(axes.iter().filter(|(a, _)| a.x > 0).count(), 8);
    assert_eq!(axes.iter().filter(|(a, _)| a.x < 0).count(), 8);
    assert_eq!(axes.len(), 16);
    assert_eq!(*axes[0], (Point { x: 45 * C, y: -30 * C }, Point { x: 45 * C, y: 43 * C }));
    assert_eq!(*axes[1], (Point { x: 45 * C, y: 430 * C }, Point { x: 45 * C, y: 357 * C }));
    assert_eq!(*axes[2], (Point { x: -45 * C, y: -30 * C }, Point { x: -45 * C, y: 43 * C }));
    assert_eq!(*axes[3], (Point { x: -45 * C, y: 430 * C }, Point { x: -45 * C, y: 357 * C }));
    assert_eq!(axes[4].0.x, 105 * C);
    assert_eq!(axes[8].0.x, 165 * C);
    assert_eq!(axes[12].0.x, 225 * C);
}

#[test]
fn elevation_has_six_web_bolts_on_each_side() {
    let input = joint(4, 2, false);
    let entities = elevation_of(&input);
    let holes = circles_on(&entities, &input.layer_name.plate);
    assert_eq!(holes.iter().filter(|(c, _)| c.x > 0).count(), 6);
    assert_eq!(holes.iter().filter(|(c, _)| c.x < 0).count(), 6);
    let right: Vec<Point> = holes.iter().filter(|(c, _)| c.x > 0).map(|(c, _)| *c).collect();
    assert_eq!(
        right,
        vec![
            Point { x: 45 * C, y: 130 * C },
            Point { x: 45 * C, y: 200 * C },
            Point { x: 45 * C, y: 270 * C },
            Point { x: 105 * C, y: 130 * C },
            Point { x: 105 * C, y: 200 * C },
            Point { x: 105 * C, y: 270 * C },
        ]
    );
    for (_, radius) in &holes {
        assert_eq!(*radius, 11 * C);
    }
    let strokes = lines_on(&entities, &input.layer_name.bolt);
    let level: Vec<&(Point, Point)> = strokes.iter().filter(|(a, b)| a.y == b.y).collect();
    assert_eq!(level.iter().filter(|(a, b)| a.x + b.x > 0).count(), 6);
    assert_eq!(level.iter().filter(|(a, b)| a.x + b.x < 0).count(), 6);
    assert_eq!(*level[0], (Point { x: 35 * C, y: 130 * C }, Point { x: 55 * C, y: 130 * C }));
    let upright: Vec<&(Point, Point)> =
        strokes.iter().filter(|(a, b)| a.x == b.x && (a.y - b.y).abs() == 20 * C).collect();
    assert_eq!(upright.len(), 12);
    assert_eq!(*upright[0], (Point { x: 45 * C, y: 120 * C }, Point { x: 45 * C, y: 140 * C }));
}

#[test]
fn elevation_counts_all_shapes() {
    let input = joint(4, 2, false);
    let entities = elevation_of(&input);
    assert_eq!(entities.len(), 10 + 8 + 8 + 16 + 4 + 36);
    assert_eq!(lines_on(&entities, &input.layer_name.plate).len(), 8 + 8 + 4);
}

#[test]
fn cross_section_bolts_follow_the_gauges() {
    let input = joint(4, 2, false);
    let holes = circles_on(&cross_section_of(&input), &input.layer_name.plate);
    assert_eq!(holes.len(), 16);
    let right: Vec<Point> = holes.iter().filter(|(c, _)| c.x > 0).map(|(c, _)| *c).collect();
    assert_eq!(right.len(), 8);
    for i in 0..4 {
        assert_eq!(right[2 * i], Point { x: (45 + 60 * i as i64) * C, y: (1000 + 30) * C });
        assert_eq!(right[2 * i + 1], Point { x: (45 + 60 * i as i64) * C, y: (1000 + 170) * C });
    }
    for (_, radius) in &holes {
        assert_eq!(*radius, 11 * C);
    }
}

#[test]
fn cross_section_bolts_of_a_single_row() {
    let input = joint(4, 1, false);
    let holes = circles_on(&cross_section_of(&input), &input.layer_name.plate);
    let right: Vec<Point> = holes.iter().filter(|(c, _)| c.x > 0).map(|(c, _)| *c).collect();
    for i in 0..4 {
        assert_eq!(right[2 * i].y, (1000 + 50) * C);
        assert_eq!(right[2 * i + 1].y, (1000 + 150) * C);
    }
    for i in 0..3 {
        assert_eq!(right[2 * (i + 1)].x - right[2 * i].x, 60 * C);
    }
}

#[test]
fn cross_section_outline_and_plate() {
    let input = joint(4, 2, false);
    let entities = cross_section_of(&input);
    let outline = lines_on(&entities, &input.layer_name.base);
    assert_eq!(
        outline,
        vec![
            (Point { x: -1000 * C, y: 1000 * C }, Point { x: -5 * C, y: 1000 * C }),
            (Point { x: -1000 * C, y: 1200 * C }, Point { x: -5 * C, y: 1200 * C }),
            (Point { x: 1000 * C, y: 1000 * C }, Point { x: 5 * C, y: 1000 * C }),
            (Point { x: 1000 * C, y: 1200 * C }, Point { x: 5 * C, y: 1200 * C }),
            (Point { x: 5 * C, y: 1000 * C }, Point { x: 5 * C, y: 1200 * C }),
            (Point { x: -5 * C, y: 1000 * C }, Point { x: -5 * C, y: 1200 * C }),
        ]
    );
    let plate = lines_on(&entities, &input.layer_name.plate);
    assert_eq!(
        plate,
        vec![
            (Point { x: -150 * C, y: 1000 * C }, Point { x: 150 * C, y: 1000 * C }),
            (Point { x: -150 * C, y: 1200 * C }, Point { x: 150 * C, y: 1200 * C }),
            (Point { x: -150 * C, y: 1000 * C }, Point { x: -150 * C, y: 1200 * C }),
            (Point { x: 150 * C, y: 1000 * C }, Point { x: 150 * C, y: 1200 * C }),
        ]
    );
}

#[test]
fn cross_section_has_two_dimensions() {
    let input = joint(4, 2, false);
    let entities = cross_section_of(&input);
    let dimensions: Vec<&Entity> =
        entities.iter().filter(|e| matches!(e, Entity::Dimension { .. })).collect();
    assert_eq!(dimensions.len(), 2);
    assert_eq!(
        *dimensions[0],
        Entity::Dimension {
            base: Point { x: -5 * C, y: 1000 * C },
            first: Point { x: -5 * C, y: 1000 * C },
            second: Point { x: 5 * C, y: 1000 * C },
            anchor: Point { x: 0, y: 6000 * C },
            rotation: 0,
            style: "mydim".to_string(),
            layer: "0".to_string(),
        }
    );
    assert_eq!(
        *dimensions[1],
        Entity::Dimension {
            base: Point { x: 5 * C, y: 1000 * C },
            first: Point { x: 5 * C, y: 1000 * C },
            second: Point { x: 45 * C, y: 1000 * C },
            anchor: Point { x: 25 * C, y: 6000 * C },
            rotation: 0,
            style: "mydim".to_string(),
            layer: "0".to_string(),
        }
    );
    assert_eq!(entities[entities.len() - 2], *dimensions[0]);
}

#[test]
fn staggered_columns_are_closer_and_offset() {
    let input = joint(4, 2, true);
    let holes = circles_on(&cross_section_of(&input), &input.layer_name.plate);
    let right: Vec<Point> = holes.iter().filter(|(c, _)| c.x > 0).map(|(c, _)| *c).collect();
    assert_eq!(right.len(), 8);
    for i in 0..3 {
        assert_eq!(right[2 * (i + 1)].x - right[2 * i].x, 45 * C);
    }
    assert_eq!(right[0].y, 1030 * C);
    assert_eq!(right[2].y, 1070 * C);
    assert_eq!(right[4].y, 1030 * C);
    assert_eq!(right[6].y, 1070 * C);
    assert_eq!(right[2].y - right[0].y, 40 * C);
    assert_eq!(right[1].y, 1170 * C);
    assert_eq!(right[3].y, 1130 * C);
    let axes = lines_on(&elevation_of(&input), &input.layer_name.bolt);
    assert_eq!(axes[0].0.x, 45 * C);
    assert_eq!(axes[4].0.x, 90 * C);
    assert_eq!(axes[8].0.x, 135 * C);
}

#[test]
fn plain_columns_share_their_rows() {
    let input = joint(5, 2, false);
    let holes = circles_on(&cross_section_of(&input), &input.layer_name.plate);
    let right: Vec<Point> = holes.iter().filter(|(c, _)| c.x > 0).map(|(c, _)| *c).collect();
    for i in 0..5 {
        assert_eq!(right[2 * i].y, right[0].y);
        assert_eq!(right[2 * i + 1].y, right[1].y);
    }
}

#[test]
fn three_layers_are_declared_once() {
    let input = joint(4, 2, false);
    let drawing = run(&input).unwrap();
    let layers: Vec<(String, Option<u8>)> =
        drawing.sink.layers().map(|l| (l.name.clone(), l.color.index())).collect();
    assert_eq!(
        layers,
        vec![
            ("0".to_string(), Some(7)),
            ("S母材".to_string(), Some(4)),
            ("Sボルト".to_string(), Some(2)),
            ("Sプレート".to_string(), Some(1)),
        ]
    );
}

#[test]
fn one_dimension_style_is_declared() {
    let drawing = run(&joint(4, 2, false)).unwrap();
    assert_eq!(drawing.dim_styles.len(), 1);
    assert_eq!(drawing.dim_styles[0].name, "mydim");
    assert_eq!(drawing.dim_styles[0].text_height, 1_000_000);
    assert_eq!(drawing.dim_styles[0].arrow_size, 500_000);
    assert_eq!(drawing.dim_styles[0].extension_offset, 2_000_000);
}

#[test]
fn run_draws_the_elevation_then_the_cross_section() {
    let input = joint(4, 2, false);
    let drawing = run(&input).unwrap();
    let mut expected = elevation_of(&input);
    expected.extend(cross_section_of(&input));
    assert_eq!(drawing.entities, expected);
    let written = stdr_sjoint::output::write(&input);
    assert_eq!(written.entities, drawing.entities);
    assert_eq!(written.dim_styles, drawing.dim_styles);
    assert_eq!(written.sink.layers().count(), 4);
}

#[test]
fn views_add_to_what_is_drawn() {
    let input = joint(2, 2, false);
    let mut drawing = Draft::new();
    write_z_view(&mut drawing, &input);
    let before = drawing.entities.clone();
    write_x_view(&mut drawing, &input);
    assert_eq!(drawing.entities[..before.len()], before[..]);
    assert_eq!(drawing.entities[before.len()..], elevation_of(&input)[..]);
    assert_eq!(drawing.sink.layers().count(), 1);
    assert!(drawing.dim_styles.is_empty());
}

fn mirrored_x(e: &Entity) -> Entity {
    match e {
        Entity::Line { start, end, layer } => Entity::Line {
            start: Point { x: -start.x, y: start.y },
            end: Point { x: -end.x, y: end.y },
            layer: layer.clone(),
        },
        Entity::Circle { center, radius, layer } => Entity::Circle {
            center: Point { x: -center.x, y: center.y },
            radius: *radius,
            layer: layer.clone(),
        },
        other => other.clone(),
    }
}

fn mirrored_y(e: &Entity, twice: i64) -> Entity {
    match e {
        Entity::Line { start, end, layer } => Entity::Line {
            start: Point { x: start.x, y: twice - start.y },
            end: Point { x: end.x, y: twice - end.y },
            layer: layer.clone(),
        },
        Entity::Circle { center, radius, layer } => Entity::Circle {
            center: Point { x: center.x, y: twice - center.y },
            radius: *radius,
            layer: layer.clone(),
        },
        other => other.clone(),
    }
}

fn reversed(e: &Entity) -> Entity {
    match e {
        Entity::Line { start, end, layer } => {
            Entity::Line { start: *end, end: *start, layer: layer.clone() }
        }
        other => other.clone(),
    }
}

fn shows(entities: &[Entity], e: &Entity) -> bool {
    entities.iter().any(|f| f == e || *f == reversed(e))
}

#[test]
fn elevation_is_symmetric_about_the_splice() {
    for staggered in [false, true] {
        let entities = elevation_of(&joint(3, 2, staggered));
        for e in &entities {
            assert!(shows(&entities, &mirrored_x(e)));
        }
    }
}

#[test]
fn cross_section_is_symmetric_both_ways() {
    for staggered in [false, true] {
        let entities: Vec<Entity> = cross_section_of(&joint(3, 2, staggered))
            .into_iter()
            .filter(|e| !matches!(e, Entity::Dimension { .. }))
            .collect();
        for e in &entities {
            assert!(shows(&entities, &mirrored_x(e)));
            assert!(shows(&entities, &mirrored_y(e, (200 + 2 * 1000) * C)));
        }
    }
}

#[test]
fn no_bolts_where_a_count_is_zero() {
    let mut input = joint(0, 2, false);
    input.web.bolt.mw = 0;
    let elevation = elevation_of(&input);
    assert!(circles_on(&elevation, &input.layer_name.plate).is_empty());
    assert!(lines_on(&elevation, &input.layer_name.bolt).is_empty());
    assert_eq!(elevation.len(), 10 + 8 + 8 + 4);
    let section = cross_section_of(&input);
    assert!(circles_on(&section, &input.layer_name.plate).is_empty());
    assert_eq!(section.len(), 6 + 4 + 2);
    let mut input = joint(1, 2, false);
    input.web.bolt.mw = 3;
    input.web.bolt.nw = 0;
    assert!(circles_on(&elevation_of(&input), &input.layer_name.plate).is_empty());
}

#[test]
fn half_lengths_are_exact() {
    let mut input = joint(1, 2, false);
    input.section.h = 400_001;
    input.web.plate.b = 150_002;
    input.web.plate.l = 200_003;
    let lines = lines_on(&elevation_of(&input), &input.layer_name.plate);
    let web = &lines[16..];
    assert_eq!(web[0], (Point { x: -200_003, y: 249_999 }, Point { x: 200_003, y: 249_999 }));
    assert_eq!(web[1], (Point { x: -200_003, y: 550_003 }, Point { x: 200_003, y: 550_003 }));
}

fn segment(x1: i64, y1: i64, x2: i64, y2: i64) -> (Point, Point) {
    (Point { x: x1 * C, y: y1 * C }, Point { x: x2 * C, y: y2 * C })
}

#[test]
fn elevation_plates_lie_on_the_flanges_and_the_web() {
    let input = joint(4, 2, false);
    let lines = lines_on(&elevation_of(&input), &input.layer_name.plate);
    assert_eq!(
        lines[..8],
        [
            segment(-150, 410, 150, 410),
            segment(-150, 400, 150, 400),
            segment(-150, 400, -150, 410),
            segment(150, 400, 150, 410),
            segment(-150, -10, 150, -10),
            segment(-150, 0, 150, 0),
            segment(-150, 0, -150, -10),
            segment(150, 0, 150, -10),
        ]
    );
    assert_eq!(
        lines[8..16],
        [
            segment(-150, 377, 150, 377),
            segment(-150, 387, 150, 387),
            segment(-150, 387, -150, 377),
            segment(150, 387, 150, 377),
            segment(-150, 23, 150, 23),
            segment(-150, 13, 150, 13),
            segment(-150, 13, -150, 23),
            segment(150, 13, 150, 23),
        ]
    );
    assert_eq!(
        lines[16..],
        [
            segment(-100, 125, 100, 125),
            segment(-100, 275, 100, 275),
            segment(-100, 125, -100, 275),
            segment(100, 125, 100, 275),
        ]
    );
}

#[test]
fn each_part_of_a_view_can_be_drawn_alone() {
    let input = joint(4, 2, false);
    let mut drawing = Draft::new();
    stdr_sjoint::output_x::write_base(&mut drawing, &input);
    assert_eq!(drawing.entities.len(), 10);
    stdr_sjoint::output_x::write_outer_plate(&mut drawing, &input);
    assert_eq!(drawing.entities.len(), 18);
    stdr_sjoint::output_x::write_inner_plate(&mut drawing, &input);
    assert_eq!(drawing.entities.len(), 26);
    stdr_sjoint::output_x::write_flange_bolt(&mut drawing, &input);
    assert_eq!(drawing.entities.len(), 42);
    stdr_sjoint::output_x::write_web_plate(&mut drawing, &input);
    assert_eq!(drawing.entities.len(), 46);
    stdr_sjoint::output_x::write_web_bolt(&mut drawing, &input);
    assert_eq!(drawing.entities.len(), 82);
    assert_eq!(drawing.entities, elevation_of(&input));
    let mut drawing = Draft::new();
    stdr_sjoint::output_z::write_base(&mut drawing, &input);
    assert_eq!(drawing.entities.len(), 6);
    stdr_sjoint::output_z::write_outer_plate(&mut drawing, &input);
    assert_eq!(drawing.entities.len(), 10);
    stdr_sjoint::output_z::write_flange_bolt(&mut drawing, &input);
    assert_eq!(drawing.entities.len(), 10 + 48);
    stdr_sjoint::output_z::write_x_dim(&mut drawing, &input);
    assert_eq!(drawing.entities.len(), 60);
    assert_eq!(drawing.entities, cross_section_of(&input));
}

#[test]
fn a_column_of_flange_bolts_is_four_holes_then_four_marks() {
    let input = joint(1, 2, false);
    let entities = cross_section_of(&input);
    let column = &entities[10..22];
    let plate = input.layer_name.plate.clone();
    let bolt = input.layer_name.bolt.clone();
    let hole = |x: i64, y: i64| Entity::Circle {
        center: Point { x: x * C, y: y * C },
        radius: 11 * C,
        layer: plate.clone(),
    };
    let stroke = |x1: i64, y1: i64, x2: i64, y2: i64| Entity::Line {
        start: Point { x: x1 * C, y: y1 * C },
        end: Point { x: x2 * C, y: y2 * C },
        layer: bolt.clone(),
    };
    assert_eq!(
        column,
        [
            hole(45, 1030),
            hole(-45, 1030),
            hole(45, 1170),
            hole(-45, 1170),
            stroke(35, 1030, 55, 1030),
            stroke(45, 1020, 45, 1040),
            stroke(-55, 1030, -35, 1030),
            stroke(-45, 1020, -45, 1040),
            stroke(35, 1170, 55, 1170),
            stroke(45, 1160, 45, 1180),
            stroke(-55, 1170, -35, 1170),
            stroke(-45, 1160, -45, 1180),
        ]
    );
}

#[test]
fn no_flange_bolts_where_the_flange_has_no_row() {
    for staggered in [false, true] {
        let input = joint(4, 0, staggered);
        let elevation = elevation_of(&input);
        let axes: Vec<(Point, Point)> = lines_on(&elevation, &input.layer_name.bolt)
            .into_iter()
            .filter(|(a, b)| a.x == b.x && (a.y - b.y).abs() > 20 * C)
            .collect();
        assert!(axes.is_empty());
        assert_eq!(elevation.len(), 10 + 8 + 8 + 4 + 36);
        let section = cross_section_of(&input);
        assert!(circles_on(&section, &input.layer_name.plate).is_empty());
        assert!(lines_on(&section, &input.layer_name.bolt).is_empty());
        assert_eq!(section.len(), 6 + 4 + 2);
        let mut drawing = Draft::new();
        stdr_sjoint::output_z::write_flange_bolt(&mut drawing, &input);
        assert!(drawing.entities.is_empty());
        stdr_sjoint::output_x::write_flange_bolt(&mut drawing, &input);
        assert!(drawing.entities.is_empty());
    }
}

#[test]
fn the_cross_section_lies_in_its_band() {
    for staggered in [false, true] {
        for mf in [0, 1, 2, 3] {
            let mut input = joint(5, mf, staggered);
            input.section.b = 300_000;
            let low = 1000 * C;
            let high = (1000 + 300) * C;
            let section = cross_section_of(&input);
            for (center, _) in circles_on(&section, &input.layer_name.plate) {
                assert!(low <= center.y && center.y <= high);
            }
            for name in [&input.layer_name.base, &input.layer_name.plate] {
                for (a, b) in lines_on(&section, name) {
                    assert!(low <= a.y && a.y <= high && low <= b.y && b.y <= high);
                }
            }
        }
    }
    let mut narrow = joint(2, 0, true);
    narrow.section.b = 50_000;
    narrow.flange.gauge.g1 = 10_000;
    assert!(circles_on(&cross_section_of(&narrow), &narrow.layer_name.plate).is_empty());
}

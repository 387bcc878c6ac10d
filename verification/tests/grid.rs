use stdr_sjoint::bolt_grid::{
    bolt_grid, column_x_of, flange_bolt_grid, flange_columns_of, flange_pitch,
};
use stdr_sjoint::input::{Flange, FlangeBolt, Gauge, InnerPlate, OuterPlate};
use stdr_sjoint::output_util::Point;

fn flange(nf: u32, mf: u32, is_staggered: bool, g2: Option<i64>) -> Flange {
    Flange {
        bolt: FlangeBolt { nf, mf, is_staggered },
        gauge: Gauge::new(100_000, g2),
        outer_plate: OuterPlate { t: 10_000, l: 300_000 },
        inner_plate: InnerPlate { t: 10_000, b: 150_000 },
    }
}

#[test]
fn column_x_counts_from_the_edge_distance() {
    assert_eq!(column_x_of(40_000, 60_000, 0), 90_000);
    assert_eq!(column_x_of(40_000, 60_000, 1), 210_000);
    assert_eq!(column_x_of(40_000, 45_000, 3), 360_000);
    assert_eq!(column_x_of(1, 1, 0), 10_002);
    assert_eq!(column_x_of(1, 1, u32::MAX), 10_002 + 2 * (u32::MAX as i64));
}

#[test]
fn pitch_is_45_staggered_and_60_plain() {
    assert_eq!(flange_pitch(true), 45_000);
    assert_eq!(flange_pitch(false), 60_000);
}

#[test]
fn grid_goes_column_by_column_from_below() {
    let centers = bolt_grid(400_000, 40_000, 60_000, 70_000, 3, 2);
    assert_eq!(
        centers,
        vec![
            Point { x: 90_000, y: 260_000 },
            Point { x: 90_000, y: 400_000 },
            Point { x: 90_000, y: 540_000 },
            Point { x: 210_000, y: 260_000 },
            Point { x: 210_000, y: 400_000 },
            Point { x: 210_000, y: 540_000 },
        ]
    );
}

#[test]
fn grid_is_centred_on_half_the_height() {
    let centers = bolt_grid(300_001, 40_000, 60_000, 50_001, 4, 1);
    assert_eq!(centers.len(), 4);
    let low = centers[0].y;
    let high = centers[3].y;
    assert_eq!(low + high, 2 * 300_001);
    assert_eq!(low, 300_001 - 150_003);
    assert_eq!(centers[1].y - centers[0].y, 2 * 50_001);
    let one = bolt_grid(300_001, 40_000, 60_000, 50_001, 1, 1);
    assert_eq!(one, vec![Point { x: 90_000, y: 300_001 }]);
}

#[test]
fn grid_is_empty_without_rows_or_columns() {
    assert!(bolt_grid(400_000, 40_000, 60_000, 70_000, 0, 5).is_empty());
    assert!(bolt_grid(400_000, 40_000, 60_000, 70_000, 5, 0).is_empty());
    assert!(bolt_grid(400_000, 40_000, 60_000, 70_000, 0, 0).is_empty());
}

#[test]
fn grid_has_rows_times_columns_bolts() {
    for m in 0..5u32 {
        for n in 0..5u32 {
            let centers = bolt_grid(400_000, 40_000, 60_000, 70_000, m, n);
            assert_eq!(centers.len() as u32, m * n);
        }
    }
}

#[test]
fn flange_grid_has_two_bolts_to_a_column() {
    let centers = flange_bolt_grid(200_000, &flange(4, 2, false, Some(40_000)));
    assert_eq!(centers.len(), 4 * 2);
    assert_eq!(centers[0], Point { x: 90_000, y: 60_000 });
    assert_eq!(centers[1], Point { x: 90_000, y: 340_000 });
    assert_eq!(centers[2], Point { x: 210_000, y: 60_000 });
    assert_eq!(centers[7], Point { x: 450_000, y: 340_000 });
    assert!(flange_bolt_grid(200_000, &flange(0, 2, false, Some(40_000))).is_empty());
}

#[test]
fn flange_grid_staggers_every_second_column() {
    let centers = flange_bolt_grid(200_000, &flange(3, 2, true, Some(25_000)));
    assert_eq!(
        centers,
        vec![
            Point { x: 90_000, y: 75_000 },
            Point { x: 90_000, y: 325_000 },
            Point { x: 180_000, y: 125_000 },
            Point { x: 180_000, y: 275_000 },
            Point { x: 270_000, y: 75_000 },
            Point { x: 270_000, y: 325_000 },
        ]
    );
}

#[test]
fn flange_grid_follows_the_row_count() {
    let four = flange_bolt_grid(200_000, &flange(1, 4, false, Some(20_000)));
    assert_eq!(four, vec![Point { x: 90_000, y: 40_000 }, Point { x: 90_000, y: 360_000 }]);
    let one = flange_bolt_grid(200_000, &flange(1, 1, false, Some(20_000)));
    assert_eq!(one, vec![Point { x: 90_000, y: 100_000 }, Point { x: 90_000, y: 300_000 }]);
}

#[test]
fn flange_grid_is_empty_without_rows_or_columns() {
    assert!(flange_bolt_grid(200_000, &flange(1, 0, false, Some(20_000))).is_empty());
    assert!(flange_bolt_grid(200_000, &flange(7, 0, true, Some(40_000))).is_empty());
    assert!(flange_bolt_grid(200_000, &flange(u32::MAX, 0, true, None)).is_empty());
    assert!(flange_bolt_grid(200_000, &flange(0, 2, false, Some(40_000))).is_empty());
    assert!(flange_bolt_grid(200_000, &flange(0, 0, false, Some(40_000))).is_empty());
    assert_eq!(flange_columns_of(&flange(7, 0, true, None)), 0);
    assert_eq!(flange_columns_of(&flange(7, 1, true, None)), 7);
    assert_eq!(flange_columns_of(&flange(0, 3, false, None)), 0);
}

#[test]
fn omitted_g2_counts_as_forty() {
    let given = flange_bolt_grid(200_000, &flange(2, 3, true, Some(40_000)));
    let omitted = flange_bolt_grid(200_000, &flange(2, 3, true, None));
    assert_eq!(given, omitted);
    assert_eq!(omitted[0].y, 200_000 - 100_000 - 40_000 * 2);
    assert_eq!(omitted[2].y - omitted[0].y, 2 * 40_000);
    assert_eq!(Gauge::new(100_000, None), Gauge { g1: 100_000, g2: 40_000 });
    assert_eq!(Gauge::new(100_000, Some(35_500)), Gauge { g1: 100_000, g2: 35_500 });
}

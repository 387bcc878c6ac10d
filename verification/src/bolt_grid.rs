//! Where the bolts are: the centres of a grid of bolts on one side of the
//! splice, for a web and for a flange.
//!
//! The splice is at `x = 0`. A grid lies on the side of positive `x`; the
//! other side of the joint is its mirror image.

use vstd::prelude::*;
use vstd::arithmetic::div_mod::lemma_fundamental_div_mod_converse;
use crate::input::{g2_or_default, Flange};
use crate::output_util::{drawable, positions, Point, Pos};
use crate::units::{
    full,
    full_of,
    half,
    half_of,
    in_range,
    EDGE,
    GAP,
    MAX_LENGTH,
    PER_UNIT,
    PITCH,
    STAGGERED_PITCH,
};

verus! {

/// The `x` of the bolt column `i`, counted from the splice: half the gap,
/// the edge distance `e`, and `i` times the column spacing `g`.
pub open spec fn column_x(e: int, g: int, i: int) -> int {
    half(GAP as int) + full(e) + i * full(g)
}

/// The `y` of the bolt row `j` of `m` rows at the pitch `p`, counted from
/// below: the rows span `p * (m - 1)` and have the height `h / 2` at their
/// middle.
pub open spec fn row_y(h: int, p: int, m: int, j: int) -> int {
    half(h) - half(p * (m - 1)) + j * full(p)
}

/// The centre `k` of a grid of `m` rows: column by column, each column from
/// below.
pub open spec fn grid_point(h: int, e: int, g: int, p: int, m: int, k: int) -> Pos {
    Pos { x: column_x(e, g, k / m), y: row_y(h, p, m, k % m) }
}

/// The centres of a grid of `m` rows and `n` columns of bolts about the
/// height `h / 2`. It is empty where `m` or `n` is zero.
pub open spec fn grid(h: int, e: int, g: int, p: int, m: nat, n: nat) -> Seq<Pos> {
    Seq::new(m * n, |k: int| grid_point(h, e, g, p, m as int, k))
}

/// The spacing of the flange bolt columns along the member.
pub open spec fn pitch_of(is_staggered: bool) -> int {
    if is_staggered {
        STAGGERED_PITCH as int
    } else {
        PITCH as int
    }
}

/// How far the flange bolts of column `i` are offset across the flange: by
/// `g2` in every second column of a staggered pattern, counting the first
/// column as column 0, and not at all otherwise.
pub open spec fn stagger(is_staggered: bool, g2: int, i: int) -> int {
    if is_staggered && i % 2 == 1 {
        full(g2)
    } else {
        0
    }
}

/// The columns of flange bolts on one side of the splice: as many as the
/// flange is given, and none where it has no row of bolts.
pub open spec fn flange_columns(flange: Flange) -> nat {
    if flange.bolt.mf == 0 {
        0
    } else {
        flange.bolt.nf as nat
    }
}

/// The distance of the first row of flange bolts from the flange's edge, in
/// a column that is not offset.
pub open spec fn flange_y0(b: int, flange: Flange) -> int {
    half(b - flange.gauge.g1 - flange.gauge.g2 * (flange.bolt.mf - 1))
}

/// The `y` of the flange bolts of column `i` on the near side of the web,
/// measured across a flange of the width `b` from its edge.
pub open spec fn flange_y(b: int, flange: Flange, i: int) -> int {
    flange_y0(b, flange) + stagger(flange.bolt.is_staggered, flange.gauge.g2 as int, i)
}

/// The centre `k` of the flange bolts: two to a column, the second the
/// mirror image of the first about the middle of the flange.
pub open spec fn flange_point(b: int, flange: Flange, k: int) -> Pos {
    let i = k / 2;
    Pos {
        x: column_x(EDGE as int, pitch_of(flange.bolt.is_staggered), i),
        y: if k % 2 == 0 {
            flange_y(b, flange, i)
        } else {
            full(b) - flange_y(b, flange, i)
        },
    }
}

/// The centres of the flange bolts as seen across a flange of the width
/// `b`, on one side of the splice: two to a column. It is empty where the
/// flange has no row or no column of bolts.
pub open spec fn flange_grid(b: int, flange: Flange) -> Seq<Pos> {
    Seq::new(2 * flange_columns(flange), |k: int| flange_point(b, flange, k))
}

/// Each column is the column spacing further from the splice than the one
/// before it.
pub proof fn lemma_column_step(e: int, g: int, i: int)
    ensures
        column_x(e, g, i + 1) - column_x(e, g, i) == full(g),
{
    assert((i + 1) * full(g) == i * full(g) + full(g)) by (nonlinear_arith);
}

/// A grid of `m` rows and `n` columns has `m * n` bolts, and the bolt of
/// the row `j` in the column `i` is the bolt `i * m + j` of it, at the `x`
/// of its column and the `y` of its row.
pub proof fn lemma_grid(h: int, e: int, g: int, p: int, m: nat, n: nat, i: int, j: int)
    requires
        0 <= i < n,
        0 <= j < m,
    ensures
        grid(h, e, g, p, m, n).len() == m * n,
        0 <= i * m + j < m * n,
        grid(h, e, g, p, m, n)[i * m + j] == (Pos {
            x: column_x(e, g, i),
            y: row_y(h, p, m as int, j),
        }),
{
    assert(0 <= i * m && i * m + m <= m * n) by (nonlinear_arith)
        requires
            0 <= i < n,
            0 <= m,
    ;
    lemma_fundamental_div_mod_converse(i * m + j, m as int, i, j);
}

/// A grid has as many bolts as it has rows times columns, and none where
/// it has no row or no column.
pub proof fn lemma_grid_len(h: int, e: int, g: int, p: int, m: nat, n: nat)
    ensures
        grid(h, e, g, p, m, n).len() == m * n,
        m == 0 || n == 0 ==> grid(h, e, g, p, m, n).len() == 0,
{
    assert(m == 0 || n == 0 ==> m * n == 0) by (nonlinear_arith);
}

/// A flange has two bolts of each column on each side of the web, and
/// none where it has no row or no column of bolts. They are as many as its
/// rows times its columns where it has two rows or none.
pub proof fn lemma_flange_grid_len(b: int, flange: Flange)
    ensures
        flange_grid(b, flange).len() == if flange.bolt.mf == 0 {
            0
        } else {
            2 * flange.bolt.nf
        },
        flange.bolt.mf == 0 || flange.bolt.nf == 0 ==> flange_grid(b, flange).len() == 0,
        flange.bolt.mf == 0 || flange.bolt.mf == 2 ==> flange_grid(b, flange).len()
            == flange.bolt.nf * flange.bolt.mf,
{
    assert(flange.bolt.mf == 0 ==> flange.bolt.nf * flange.bolt.mf == 0) by (nonlinear_arith);
}

/// Successive columns of flange bolts are 45 units apart where the bolts
/// are staggered and 60 units where they are not.
pub proof fn lemma_flange_pitch(b: int, flange: Flange, i: int)
    requires
        0 <= i,
        i + 1 < flange_columns(flange),
    ensures
        flange.bolt.is_staggered ==> flange_grid(b, flange)[2 * (i + 1)].x - flange_grid(
            b,
            flange,
        )[2 * i].x == full(45 * PER_UNIT),
        !flange.bolt.is_staggered ==> flange_grid(b, flange)[2 * (i + 1)].x - flange_grid(
            b,
            flange,
        )[2 * i].x == full(60 * PER_UNIT),
        flange_grid(b, flange)[2 * i + 1].x == flange_grid(b, flange)[2 * i].x,
{
    lemma_column_step(EDGE as int, pitch_of(flange.bolt.is_staggered), i);
}

/// Where the bolts are staggered, those of an odd column are `g2` further
/// from the flange's edge than those of an even column. Where they are
/// not, those of all columns are at the same distance.
pub proof fn lemma_flange_stagger(b: int, flange: Flange, i: int, j: int)
    requires
        0 <= i < flange_columns(flange),
        0 <= j < flange_columns(flange),
    ensures
        flange.bolt.is_staggered && i % 2 == 1 && j % 2 == 0 ==> flange_grid(b, flange)[2 * i].y
            - flange_grid(b, flange)[2 * j].y == full(flange.gauge.g2 as int),
        flange.bolt.is_staggered && i % 2 == j % 2 ==> flange_grid(b, flange)[2 * i].y
            == flange_grid(b, flange)[2 * j].y,
        !flange.bolt.is_staggered ==> flange_grid(b, flange)[2 * i].y == flange_grid(
            b,
            flange,
        )[2 * j].y,
        flange_grid(b, flange)[2 * i + 1].y == full(b) - flange_grid(b, flange)[2 * i].y,
{
}

/// Whether the bolts of a flange of the width `b` have room on it: the
/// flange is as wide as its gauges take, and twice `g2` wider where the
/// bolts are staggered.
pub open spec fn has_room(b: int, flange: Flange) -> bool {
    b >= flange.gauge.g1 + flange.gauge.g2 * (flange.bolt.mf - 1) + if flange.bolt.is_staggered {
        2 * flange.gauge.g2
    } else {
        0
    }
}

/// Where the bolts of a flange have room on it, each of them is on it:
/// between the flange's edge at `y = 0` and its other edge.
pub proof fn lemma_flange_grid_on_flange(b: int, flange: Flange, k: int)
    requires
        flange.gauge.g1 > 0,
        flange.gauge.g2 > 0,
        has_room(b, flange),
        0 <= k < flange_grid(b, flange).len(),
    ensures
        0 <= flange_grid(b, flange)[k].y <= full(b),
{
    assert(flange.gauge.g2 * (flange.bolt.mf - 1) >= 0) by (nonlinear_arith)
        requires
            flange.gauge.g2 > 0,
            flange.bolt.mf >= 1,
    ;
}

/// Where no secondary gauge is given, the flange bolts are placed as with
/// a secondary gauge of 40 units: the first row, and the offset of a
/// staggered column.
pub proof fn lemma_default_g2(b: int, flange: Flange)
    requires
        flange.gauge.g2 == g2_or_default(None),
    ensures
        flange_y0(b, flange) == half(b - flange.gauge.g1 - 40 * PER_UNIT * (flange.bolt.mf - 1)),
        stagger(true, flange.gauge.g2 as int, 1) == full(40 * PER_UNIT),
{
}

/// The `x` of the bolt column `i`.
pub fn column_x_of(e: i64, g: i64, i: u32) -> (x: i64)
    requires
        in_range(e as int),
        in_range(g as int),
    ensures
        x == column_x(e as int, g as int, i as int),
        0 < x <= 1_000_000_000_000_000_000,
{
    let step = full_of(g);
    assert(0 <= i * step <= 0xffff_ffff * 200_000_000) by (nonlinear_arith)
        requires
            0 <= i <= 0xffff_ffff,
            0 <= step <= 200_000_000,
    ;
    half_of(GAP) + full_of(e) + (i as i64) * step
}

/// The centres of a grid of `m` rows and `n` columns of bolts on one side
/// of the splice: the columns at the spacing `g` from the edge distance
/// `e` on, the rows at the pitch `p` about the height `h / 2`.
pub fn bolt_grid(h: i64, e: i64, g: i64, p: i64, m: u32, n: u32) -> (centers: Vec<Point>)
    requires
        in_range(h as int),
        in_range(e as int),
        in_range(g as int),
        in_range(p as int),
    ensures
        positions(centers@) == grid(h as int, e as int, g as int, p as int, m as nat, n as nat),
        forall|k: int| 0 <= k < centers.len() ==> drawable(#[trigger] centers[k]@),
{
    let mut centers: Vec<Point> = Vec::new();
    assert(-MAX_LENGTH <= p * (m - 1) <= 0xffff_ffff * MAX_LENGTH) by (nonlinear_arith)
        requires
            0 < p <= MAX_LENGTH,
            0 <= m <= 0xffff_ffff,
    ;
    let span = p * (m as i64 - 1);
    let step = full_of(p);
    let mut i: u32 = 0;
    while i < n
        invariant
            i <= n,
            in_range(h as int),
            in_range(e as int),
            in_range(g as int),
            in_range(p as int),
            span == p * (m - 1),
            -MAX_LENGTH <= span <= 0xffff_ffff * MAX_LENGTH,
            step == full(p as int),
            centers.len() == i * m,
            forall|k: int|
                0 <= k < centers.len() ==> #[trigger] centers[k]@ == grid_point(
                    h as int,
                    e as int,
                    g as int,
                    p as int,
                    m as int,
                    k,
                ),
            forall|k: int| 0 <= k < centers.len() ==> drawable(#[trigger] centers[k]@),
        decreases n - i,
    {
        let x = column_x_of(e, g, i);
        let mut j: u32 = 0;
        while j < m
            invariant
                j <= m,
                i < n,
                in_range(h as int),
                in_range(p as int),
                span == p * (m - 1),
                -MAX_LENGTH <= span <= 0xffff_ffff * MAX_LENGTH,
                step == full(p as int),
                x == column_x(e as int, g as int, i as int),
                0 < x <= 1_000_000_000_000_000_000,
                centers.len() == i * m + j,
                forall|k: int|
                    0 <= k < centers.len() ==> #[trigger] centers[k]@ == grid_point(
                        h as int,
                        e as int,
                        g as int,
                        p as int,
                        m as int,
                        k,
                    ),
                forall|k: int| 0 <= k < centers.len() ==> drawable(#[trigger] centers[k]@),
            decreases m - j,
        {
            assert(0 <= j * step <= 0xffff_ffff * (2 * MAX_LENGTH)) by (nonlinear_arith)
                requires
                    0 <= j <= 0xffff_ffff,
                    0 <= step <= 2 * MAX_LENGTH,
            ;
            let y = half_of(h) - half_of(span) + (j as i64) * step;
            proof {
                lemma_fundamental_div_mod_converse(i * m + j, m as int, i as int, j as int);
            }
            centers.push(Point { x, y });
            j = j + 1;
        }
        assert(i * m + m == (i + 1) * m) by (nonlinear_arith);
        i = i + 1;
    }
    proof {
        assert(i * m == m * n) by (nonlinear_arith)
            requires
                i == n,
        ;
        assert(positions(centers@) =~= grid(
            h as int,
            e as int,
            g as int,
            p as int,
            m as nat,
            n as nat,
        ));
    }
    centers
}

/// The spacing of the flange bolt columns along the member.
pub fn flange_pitch(is_staggered: bool) -> (pitch: i64)
    ensures
        pitch == pitch_of(is_staggered),
{
    if is_staggered {
        STAGGERED_PITCH
    } else {
        PITCH
    }
}

/// The columns of flange bolts on one side of the splice.
pub fn flange_columns_of(flange: &Flange) -> (columns: u32)
    ensures
        columns == flange_columns(*flange),
{
    if flange.bolt.mf == 0 {
        0
    } else {
        flange.bolt.nf
    }
}

/// The centres of the flange bolts as seen across a flange of the width
/// `b`, on one side of the splice: two to a column, and none where the
/// flange has no row or no column of bolts.
pub fn flange_bolt_grid(b: i64, flange: &Flange) -> (centers: Vec<Point>)
    requires
        in_range(b as int),
        in_range(flange.gauge.g1 as int),
        in_range(flange.gauge.g2 as int),
    ensures
        positions(centers@) == flange_grid(b as int, *flange),
        forall|k: int| 0 <= k < centers.len() ==> drawable(#[trigger] centers[k]@),
{
    let g2 = flange.gauge.g2;
    let mf = flange.bolt.mf;
    let columns = flange_columns_of(flange);
    let is_staggered = flange.bolt.is_staggered;
    let pitch = flange_pitch(is_staggered);
    assert(-MAX_LENGTH <= g2 * (mf - 1) <= 0xffff_ffff * MAX_LENGTH) by (nonlinear_arith)
        requires
            0 < g2 <= MAX_LENGTH,
            0 <= mf <= 0xffff_ffff,
    ;
    let y0 = half_of(b - flange.gauge.g1 - g2 * (mf as i64 - 1));
    let mut centers: Vec<Point> = Vec::new();
    let mut i: u32 = 0;
    while i < columns
        invariant
            i <= columns,
            columns == flange_columns(*flange),
            is_staggered == flange.bolt.is_staggered,
            g2 == flange.gauge.g2,
            in_range(b as int),
            in_range(g2 as int),
            pitch == pitch_of(is_staggered),
            y0 == flange_y0(b as int, *flange),
            -2 * MAX_LENGTH - 0xffff_ffff * MAX_LENGTH <= y0 <= 2 * MAX_LENGTH,
            centers.len() == 2 * i,
            forall|k: int|
                0 <= k < centers.len() ==> #[trigger] centers[k]@ == flange_point(
                    b as int,
                    *flange,
                    k,
                ),
            forall|k: int| 0 <= k < centers.len() ==> drawable(#[trigger] centers[k]@),
        decreases columns - i,
    {
        let x = column_x_of(EDGE, pitch, i);
        let y = if is_staggered && i % 2 == 1 {
            y0 + full_of(g2)
        } else {
            y0
        };
        centers.push(Point { x, y });
        centers.push(Point { x, y: full_of(b) - y });
        i = i + 1;
    }
    proof {
        assert(positions(centers@) =~= flange_grid(b as int, *flange));
    }
    centers
}

} // verus!

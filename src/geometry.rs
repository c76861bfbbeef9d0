//! Fixed-point points, sizes, distances and the scaling of random draws.

use vstd::prelude::*;

verus! {

/// Sub-units per world unit: a coordinate of 1500 is one and a half units.
pub const MILLI: i32 = 1000;

/// A point or a vector in the world plane, in thousandths of a world unit.
#[derive(Clone, Copy, Debug, PartialEq, Eq, Structural)]
pub struct Point {
    pub x: i32,
    pub y: i32,
}

/// A width and a height in whole pixels (a window or a texture).
#[derive(Clone, Copy, Debug, PartialEq, Eq, Structural)]
pub struct Size {
    pub width: u16,
    pub height: u16,
}

/// Squared planar Euclidean distance between two points.
pub open spec fn dist_sq(a: Point, b: Point) -> int {
    (a.x - b.x) * (a.x - b.x) + (a.y - b.y) * (a.y - b.y)
}

/// `a` lies closer than `radius` to `b` (radius >= 0).
pub open spec fn within(a: Point, b: Point, radius: int) -> bool {
    dist_sq(a, b) < radius * radius
}

/// Half of a pixel length, in sub-units.
pub open spec fn half_span(px: u16) -> int {
    px * 500
}

/// A uniform draw mapped onto `[-span/2, span - span/2)`: the draw read as a
/// fraction of 2^32, times `span`, minus half of `span`.
pub open spec fn spread(draw: u32, span: nat) -> int {
    (draw as int * span as int) / 0x1_0000_0000 - (span as int) / 2
}

pub proof fn lemma_spread_bounds(draw: u32, span: nat)
    requires
        span <= u32::MAX,
    ensures
        -((span as int) / 2) <= spread(draw, span),
        spread(draw, span) <= span - (span as int) / 2,
        span > 0 ==> spread(draw, span) < span - (span as int) / 2,
{
    let p = draw as int * span as int;
    if span == 0 {
        assert(p == 0) by (nonlinear_arith)
            requires
                p == draw as int * span as int,
                span == 0,
        ;
    }
    assert(0 <= p) by (nonlinear_arith)
        requires
            p == draw as int * span as int,
            0 <= draw,
            0 <= span,
    ;
    if span > 0 {
        assert(p < 0x1_0000_0000 * (span as int)) by (nonlinear_arith)
            requires
                p == draw as int * span as int,
                draw < 0x1_0000_0000,
                span > 0,
        ;
        assert(p / 0x1_0000_0000 < span as int) by (nonlinear_arith)
            requires
                p < 0x1_0000_0000 * (span as int),
                0 <= p,
        ;
    }
}

/// Whether `a` lies closer than `radius` to `b`.
pub fn is_within(a: Point, b: Point, radius: i32) -> (r: bool)
    requires
        radius >= 0,
    ensures
        r == within(a, b, radius as int),
{
    let dx: i64 = a.x as i64 - b.x as i64;
    let dy: i64 = a.y as i64 - b.y as i64;
    assert(0 <= dx as int * dx as int <= 0x1_0000_0000 * 0x1_0000_0000) by (nonlinear_arith)
        requires
            -0x1_0000_0000 <= dx <= 0x1_0000_0000,
    ;
    assert(0 <= dy as int * dy as int <= 0x1_0000_0000 * 0x1_0000_0000) by (nonlinear_arith)
        requires
            -0x1_0000_0000 <= dy <= 0x1_0000_0000,
    ;
    assert(0 <= radius as int * radius as int <= 0x1_0000_0000 * 0x1_0000_0000) by (nonlinear_arith)
        requires
            0 <= radius <= 0x1_0000_0000,
    ;
    let d2: i128 = dx as i128 * dx as i128 + dy as i128 * dy as i128;
    let r2: i128 = radius as i128 * radius as i128;
    d2 < r2
}

/// Maps a random draw onto `[-span/2, span - span/2)`; see [`spread`].
pub fn spread_draw(draw: u32, span: u32) -> (r: i32)
    ensures
        r == spread(draw, span as nat),
        -((span as int) / 2) <= r,
        span > 0 ==> r < span - (span as int) / 2,
{
    proof {
        lemma_spread_bounds(draw, span as nat);
    }
    let p: u64 = draw as u64 * span as u64;
    let scaled: u64 = p / 0x1_0000_0000u64;
    let r: i64 = scaled as i64 - (span / 2) as i64;
    r as i32
}

/// Number of random points a convex collision hull is built from.
pub const HULL_POINTS: usize = 10;

/// Inside the bounding box of a texture of `size` centred on the origin.
pub open spec fn in_box(p: Point, size: Size) -> bool {
    &&& -half_span(size.width) <= p.x <= half_span(size.width)
    &&& -half_span(size.height) <= p.y <= half_span(size.height)
}

/// The hull point two draws give: each spread over the texture's extent.
pub open spec fn hull_point(size: Size, dx: u32, dy: u32) -> Point {
    Point {
        x: spread(dx, (size.width * 1000) as nat) as i32,
        y: spread(dy, (size.height * 1000) as nat) as i32,
    }
}

/// The hull that the draws from `start` on give, two draws per point.
pub open spec fn hull_of(size: Size, d: Seq<u32>, start: int) -> Seq<Point> {
    Seq::new(HULL_POINTS as nat, |i: int| hull_point(size, d[start + 2 * i], d[start + 2 * i + 1]))
}

pub proof fn lemma_hull_point_in_box(size: Size, dx: u32, dy: u32)
    ensures
        in_box(hull_point(size, dx, dy), size),
{
    let (w, h) = ((size.width * 1000) as nat, (size.height * 1000) as nat);
    lemma_spread_bounds(dx, w);
    lemma_spread_bounds(dy, h);
    assert(w / 2 == half_span(size.width) && h / 2 == half_span(size.height));
}

/// Samples the points of a collision hull for a texture of `size` from the
/// draws at `start` onwards.
pub fn sample_hull(size: Size, draws: &Vec<u32>, start: usize) -> (r: Vec<Point>)
    requires
        start + 2 * HULL_POINTS <= draws@.len(),
    ensures
        r@ == hull_of(size, draws@, start as int),
        forall|i: int| 0 <= i < r@.len() ==> in_box(#[trigger] r@[i], size),
{
    let w: u32 = size.width as u32 * 1000;
    let h: u32 = size.height as u32 * 1000;
    let mut r: Vec<Point> = Vec::new();
    let n = draws.len();
    for k in 0..HULL_POINTS
        invariant
            n == draws@.len(),
            start + 2 * HULL_POINTS <= draws@.len(),
            w == size.width * 1000,
            h == size.height * 1000,
            r@.len() == k,
            forall|i: int|
                0 <= i < k ==> #[trigger] r@[i] == hull_point(
                    size,
                    draws@[start + 2 * i],
                    draws@[start + 2 * i + 1],
                ),
            forall|i: int| 0 <= i < k ==> in_box(#[trigger] r@[i], size),
    {
        assert(start + 2 * k + 1 < draws@.len());
        let x = spread_draw(draws[start + 2 * k], w);
        let y = spread_draw(draws[start + 2 * k + 1], h);
        proof {
            lemma_hull_point_in_box(size, draws@[start + 2 * k], draws@[start + 2 * k + 1]);
        }
        r.push(Point { x, y });
    }
    assert(r@ == hull_of(size, draws@, start as int));
    r
}

} // verus!

//! The static walls that keep bodies inside the window.

use vstd::prelude::*;

use crate::geometry::{half_span, Point, Size};

verus! {

/// Half the length of a wall.
pub const WALL_HALF_LENGTH: i32 = 500_000;

/// Half the thickness of a wall.
pub const WALL_HALF_THICKNESS: i32 = 10_000;

/// A static box collider: its centre and half extents.
#[derive(Clone, Copy, Debug, PartialEq, Eq, Structural)]
pub struct Wall {
    pub center: Point,
    pub half_width: i32,
    pub half_height: i32,
}

pub open spec fn wall_at(x: int, y: int, half_width: i32, half_height: i32) -> Wall {
    Wall { center: Point { x: x as i32, y: y as i32 }, half_width, half_height }
}

/// A floor along the bottom edge of the window, then walls along its left
/// and right edges.
pub open spec fn walls_of(window: Size) -> Seq<Wall> {
    let (w, h) = (half_span(window.width), half_span(window.height));
    seq![
        wall_at(0, -h, WALL_HALF_LENGTH, WALL_HALF_THICKNESS),
        wall_at(-w, 0, WALL_HALF_THICKNESS, WALL_HALF_LENGTH),
        wall_at(w, 0, WALL_HALF_THICKNESS, WALL_HALF_LENGTH),
    ]
}

/// The walls for a window.
pub fn arena_walls(window: Size) -> (r: Vec<Wall>)
    ensures
        r@ == walls_of(window),
{
    let w: i32 = window.width as i32 * 500;
    let h: i32 = window.height as i32 * 500;
    let (nw, nh): (i32, i32) = (-w, -h);
    let v = vec![
        Wall {
            center: Point { x: 0, y: nh },
            half_width: WALL_HALF_LENGTH,
            half_height: WALL_HALF_THICKNESS,
        },
        Wall {
            center: Point { x: nw, y: 0 },
            half_width: WALL_HALF_THICKNESS,
            half_height: WALL_HALF_LENGTH,
        },
        Wall {
            center: Point { x: w, y: 0 },
            half_width: WALL_HALF_THICKNESS,
            half_height: WALL_HALF_LENGTH,
        },
    ];
    assert(v@ == walls_of(window));
    v
}

} // verus!

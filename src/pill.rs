//! Pills: spawn requests from beakers and the pills launched for them.

use rand::rngs::StdRng;
use vstd::prelude::*;

use crate::geometry::{
    hull_of, in_box, lemma_hull_point_in_box, lemma_spread_bounds, sample_hull, spread,
    spread_draw, Point, Size, HULL_POINTS,
};
use crate::beaker::{request_for, Beaker};
use crate::random::draws;

verus! {

/// Strength of the impulse that launches a pill.
pub const PILL_LAUNCH_FORCE: i32 = 300_000;

/// Width of the range a pill's spin impulse is drawn from, centred on zero.
pub const PILL_TORQUE_SPAN: u32 = 50;

/// Density of a pill's body.
pub const PILL_DENSITY: u32 = 50_000;

/// Restitution of a pill's body, in thousandths.
pub const PILL_RESTITUTION: u32 = 900;

/// Number of pill textures to pick from.
pub const PILL_TEXTURES: usize = 4;

/// Draws that one pill takes: two per hull point, then one for its spin.
pub const PILL_DRAWS: usize = 21;

/// A request to launch one pill from a beaker's position, along the beaker's
/// rotation (`dir`, degrees counterclockwise).
#[derive(Clone, Copy, Debug, PartialEq, Eq, Structural)]
pub struct SpawnPillEvent {
    pub pos: Point,
    pub dir: i32,
}

/// An impulse of `strength` along the "up" axis turned by `dir` degrees
/// counterclockwise.
#[derive(Clone, Copy, Debug, PartialEq, Eq, Structural)]
pub struct Launch {
    pub dir: i32,
    pub strength: i32,
}

/// A pill to spawn: its texture, collision hull (relative to its centre),
/// position, launch impulse and spin impulse.
#[derive(Debug)]
pub struct Pill {
    pub texture: usize,
    pub hull: Vec<Point>,
    pub pos: Point,
    pub launch: Launch,
    pub torque: i32,
}

/// The launch along a rotation: the fixed force, turned with the beaker.
pub open spec fn launch_for(dir: i32) -> Launch {
    Launch { dir, strength: PILL_LAUNCH_FORCE }
}

/// The texture a draw picks among `count`.
pub open spec fn pick(draw: u32, count: usize) -> int {
    draw as int % count as int
}

/// Builds the pill for a request from its draws: the hull from the first
/// twenty, the spin from the last.
pub fn pill_from_draws(request: SpawnPillEvent, texture: usize, size: Size, draws: &Vec<u32>) -> (r:
    Pill)
    requires
        draws@.len() == PILL_DRAWS,
    ensures
        r.texture == texture,
        r.hull@ == hull_of(size, draws@, 0),
        r.pos == request.pos,
        r.launch == launch_for(request.dir),
        r.torque == spread(draws@[2 * HULL_POINTS as int], PILL_TORQUE_SPAN as nat),
{
    let hull = sample_hull(size, draws, 0);
    let torque = spread_draw(draws[2 * HULL_POINTS], PILL_TORQUE_SPAN);
    Pill {
        texture,
        hull,
        pos: request.pos,
        launch: Launch { dir: request.dir, strength: PILL_LAUNCH_FORCE },
        torque,
    }
}

/// What holds of every pill spawned for a request, whatever was drawn.
pub open spec fn pill_fits(p: Pill, request: SpawnPillEvent, textures: Seq<Size>) -> bool {
    &&& p.texture < PILL_TEXTURES
    &&& p.pos == request.pos
    &&& p.launch == launch_for(request.dir)
    &&& p.hull@.len() == HULL_POINTS
    &&& forall|i: int| 0 <= i < HULL_POINTS ==> in_box(#[trigger] p.hull@[i], textures[p.texture as int])
    &&& -((PILL_TORQUE_SPAN as int) / 2) <= p.torque < (PILL_TORQUE_SPAN as int) / 2
}

/// Spawns one pill for each request. One texture, drawn first, serves all of
/// them; then each pill takes its own draws.
pub fn spawn_pills(rng: &mut StdRng, requests: &Vec<SpawnPillEvent>, textures: &Vec<Size>) -> (r:
    Vec<Pill>)
    requires
        textures@.len() == PILL_TEXTURES,
    ensures
        r@.len() == requests@.len(),
        forall|i: int|
            0 <= i < r@.len() ==> pill_fits(#[trigger] r@[i], requests@[i], textures@),
        forall|i: int| 0 <= i < r@.len() ==> (#[trigger] r@[i]).texture == r@[0].texture,
{
    let first = draws(rng, 1);
    let texture: usize = (first[0] % PILL_TEXTURES as u32) as usize;
    let size = textures[texture];
    let mut r: Vec<Pill> = Vec::new();
    let n = requests.len();
    for k in 0..n
        invariant
            n == requests@.len(),
            textures@.len() == PILL_TEXTURES,
            texture < PILL_TEXTURES,
            size == textures@[texture as int],
            r@.len() == k,
            forall|i: int| 0 <= i < k ==> pill_fits(#[trigger] r@[i], requests@[i], textures@),
            forall|i: int| 0 <= i < k ==> (#[trigger] r@[i]).texture == texture,
    {
        let d = draws(rng, PILL_DRAWS);
        let p = pill_from_draws(requests[k], texture, size, &d);
        proof {
            assert forall|i: int| 0 <= i < HULL_POINTS implies in_box(
                #[trigger] p.hull@[i],
                size,
            ) by {
                lemma_hull_point_in_box(size, d@[2 * i], d@[2 * i + 1]);
            }
            lemma_spread_bounds(d@[2 * HULL_POINTS as int], PILL_TORQUE_SPAN as nat);
        }
        r.push(p);
    }
    r
}

/// A pill spawned for a beaker's request starts at the beaker and is pushed
/// with the fixed force along the beaker's "up" axis turned by the beaker's
/// rotation.
pub proof fn lemma_launch_follows_beaker(b: Beaker, p: Pill, textures: Seq<Size>)
    requires
        pill_fits(p, request_for(b), textures),
    ensures
        p.pos == b.pos,
        p.launch == (Launch { dir: b.rotation, strength: PILL_LAUNCH_FORCE }),
{
}

} // verus!

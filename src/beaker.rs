//! Beakers: their fixed layout, hover highlighting and taps that fire pills.

use vstd::prelude::*;

use crate::geometry::{half_span, MILLI, is_within, within, Point, Size};
use crate::input::TapEvent;
use crate::pill::SpawnPillEvent;

verus! {

/// Distance kept between the beaker columns and rows and the window edges.
pub const BEAKER_MARGIN: i32 = 30_000;

/// Base tilt of the beakers, in degrees.
pub const BEAKER_TILT: i32 = 30;

/// A tap closer than this to a beaker fires it.
pub const BEAKER_CLICK_DIST: i32 = 100_000;

/// Number of beakers in the layout.
pub const BEAKER_SLOTS: usize = 6;

/// A beaker's world position and rotation (degrees counterclockwise).
#[derive(Clone, Copy, Debug, PartialEq, Eq, Structural)]
pub struct Beaker {
    pub pos: Point,
    pub rotation: i32,
}

pub open spec fn column_x(window: Size) -> int {
    half_span(window.width) - BEAKER_MARGIN
}

pub open spec fn row_y(window: Size) -> int {
    half_span(window.height) - BEAKER_MARGIN
}

pub open spec fn beaker_at(x: int, y: int, rotation: int) -> Beaker {
    Beaker { pos: Point { x: x as i32, y: y as i32 }, rotation: rotation as i32 }
}

/// The six beakers: a left column, bottom to top, tilted clockwise by half,
/// one and two times the base tilt, and its mirror image on the right.
pub open spec fn beaker_slots(window: Size) -> Seq<Beaker> {
    let x = column_x(window);
    let y = row_y(window);
    let r = BEAKER_TILT as int;
    seq![
        beaker_at(-x, -y, -(r / 2)),
        beaker_at(-x, 0, -r),
        beaker_at(-x, y, -2 * r),
        beaker_at(x, -y, r / 2),
        beaker_at(x, 0, r),
        beaker_at(x, y, 2 * r),
    ]
}

/// Places the six beakers for a window.
pub fn beaker_layout(window: Size) -> (r: Vec<Beaker>)
    ensures
        r@ == beaker_slots(window),
{
    let right: i32 = window.width as i32 * 500 - BEAKER_MARGIN;
    let top: i32 = window.height as i32 * 500 - BEAKER_MARGIN;
    let (left, bottom): (i32, i32) = (-right, -top);
    let (low, mid, high): (i32, i32, i32) = (BEAKER_TILT / 2, BEAKER_TILT, 2 * BEAKER_TILT);
    let (neg_low, neg_mid, neg_high): (i32, i32, i32) = (-low, -mid, -high);
    let v = vec![
        Beaker { pos: Point { x: left, y: bottom }, rotation: neg_low },
        Beaker { pos: Point { x: left, y: 0 }, rotation: neg_mid },
        Beaker { pos: Point { x: left, y: top }, rotation: neg_high },
        Beaker { pos: Point { x: right, y: bottom }, rotation: low },
        Beaker { pos: Point { x: right, y: 0 }, rotation: mid },
        Beaker { pos: Point { x: right, y: top }, rotation: high },
    ];
    assert(v@ == beaker_slots(window));
    v
}

/// The layout is mirrored about the vertical centre line: each right-hand
/// beaker is its left-hand partner with x and rotation negated. When the
/// window is at least two margins wide and high, every beaker lies strictly
/// inside the window and no closer than the margin to its edges.
pub proof fn lemma_layout_mirrored(window: Size)
    requires
        window.width * MILLI >= 2 * BEAKER_MARGIN,
        window.height * MILLI >= 2 * BEAKER_MARGIN,
    ensures
        beaker_slots(window).len() == BEAKER_SLOTS,
        forall|i: int|
            0 <= i < 3 ==> {
                let l = #[trigger] beaker_slots(window)[i];
                let r = beaker_slots(window)[i + 3];
                &&& r.pos.x == -l.pos.x
                &&& r.pos.y == l.pos.y
                &&& r.rotation == -l.rotation
            },
        forall|i: int|
            0 <= i < BEAKER_SLOTS ==> {
                let b = #[trigger] beaker_slots(window)[i];
                &&& -column_x(window) <= b.pos.x <= column_x(window)
                &&& -row_y(window) <= b.pos.y <= row_y(window)
                &&& -half_span(window.width) < b.pos.x < half_span(window.width)
                &&& -half_span(window.height) < b.pos.y < half_span(window.height)
            },
{
}

/// Which beakers lie within the click distance of the cursor, in order.
pub fn hovered_beakers(beakers: &Vec<Beaker>, cursor: Point) -> (r: Vec<bool>)
    ensures
        r@.len() == beakers@.len(),
        forall|i: int|
            0 <= i < beakers@.len() ==> r@[i] == within(
                #[trigger] beakers@[i].pos,
                cursor,
                BEAKER_CLICK_DIST as int,
            ),
{
    let mut r: Vec<bool> = Vec::new();
    let n = beakers.len();
    for j in 0..n
        invariant
            n == beakers@.len(),
            r@.len() == j,
            forall|i: int|
                0 <= i < j ==> r@[i] == within(
                    #[trigger] beakers@[i].pos,
                    cursor,
                    BEAKER_CLICK_DIST as int,
                ),
    {
        r.push(is_within(beakers[j].pos, cursor, BEAKER_CLICK_DIST));
    }
    r
}

/// The spawn request that a beaker answers a tap with.
pub open spec fn request_for(b: Beaker) -> SpawnPillEvent {
    SpawnPillEvent { pos: b.pos, dir: b.rotation }
}

/// The requests for one tap: one for each beaker within the click distance,
/// in the beakers' order.
pub open spec fn tap_requests(beakers: Seq<Beaker>, tap: Point) -> Seq<SpawnPillEvent>
    decreases beakers.len(),
{
    if beakers.len() == 0 {
        seq![]
    } else {
        let rest = tap_requests(beakers.drop_last(), tap);
        if within(beakers.last().pos, tap, BEAKER_CLICK_DIST as int) {
            rest.push(request_for(beakers.last()))
        } else {
            rest
        }
    }
}

/// The requests for a sequence of taps, tap by tap.
pub open spec fn dispatch(beakers: Seq<Beaker>, taps: Seq<TapEvent>) -> Seq<SpawnPillEvent>
    decreases taps.len(),
{
    if taps.len() == 0 {
        seq![]
    } else {
        dispatch(beakers, taps.drop_last()) + tap_requests(beakers, taps.last().0)
    }
}

/// Answers each tap with a spawn request from every beaker within the click
/// distance of it.
pub fn handle_taps(beakers: &Vec<Beaker>, taps: &Vec<TapEvent>) -> (r: Vec<SpawnPillEvent>)
    ensures
        r@ == dispatch(beakers@, taps@),
{
    let mut r: Vec<SpawnPillEvent> = Vec::new();
    let nt = taps.len();
    let nb = beakers.len();
    for t in 0..nt
        invariant
            nt == taps@.len(),
            nb == beakers@.len(),
            r@ == dispatch(beakers@, taps@.take(t as int)),
    {
        let tap = taps[t].0;
        let ghost before = r@;
        for k in 0..nb
            invariant
                nt == taps@.len(),
                nb == beakers@.len(),
                t < nt,
                tap == taps@[t as int].0,
                r@ == before + tap_requests(beakers@.take(k as int), tap),
        {
            let b = beakers[k];
            proof {
                assert(beakers@.take(k + 1).drop_last() == beakers@.take(k as int));
            }
            if is_within(b.pos, tap, BEAKER_CLICK_DIST) {
                r.push(SpawnPillEvent { pos: b.pos, dir: b.rotation });
            }
        }
        proof {
            assert(beakers@.take(nb as int) == beakers@);
            assert(taps@.take(t + 1).drop_last() == taps@.take(t as int));
        }
    }
    proof {
        assert(taps@.take(nt as int) == taps@);
    }
    r
}

/// How many times a request occurs in a sequence of requests.
pub open spec fn occurrences(s: Seq<SpawnPillEvent>, e: SpawnPillEvent) -> nat
    decreases s.len(),
{
    if s.len() == 0 {
        0
    } else {
        occurrences(s.drop_last(), e) + if s.last() == e {
            1nat
        } else {
            0nat
        }
    }
}

proof fn lemma_single_tap(beakers: Seq<Beaker>, tap: Point)
    ensures
        dispatch(beakers, seq![TapEvent(tap)]) == tap_requests(beakers, tap),
{
    let taps = seq![TapEvent(tap)];
    assert(taps.drop_last() =~= Seq::<TapEvent>::empty());
    assert(dispatch(beakers, taps.drop_last()) =~= Seq::<SpawnPillEvent>::empty());
    assert(Seq::<SpawnPillEvent>::empty() + tap_requests(beakers, tap) =~= tap_requests(
        beakers,
        tap,
    ));
}

proof fn lemma_far_prefix(beakers: Seq<Beaker>, tap: Point)
    requires
        forall|i: int|
            0 <= i < beakers.len() ==> !within(
                #[trigger] beakers[i].pos,
                tap,
                BEAKER_CLICK_DIST as int,
            ),
    ensures
        tap_requests(beakers, tap).len() == 0,
    decreases beakers.len(),
{
    if beakers.len() > 0 {
        let rest = beakers.drop_last();
        assert forall|i: int| 0 <= i < rest.len() implies !within(
            #[trigger] rest[i].pos,
            tap,
            BEAKER_CLICK_DIST as int,
        ) by {
            assert(rest[i] == beakers[i]);
        }
        lemma_far_prefix(rest, tap);
        assert(beakers.last() == beakers[beakers.len() - 1]);
    }
}

/// A tap at least the click distance away from every beaker fires none.
pub proof fn lemma_far_tap_fires_nothing(beakers: Seq<Beaker>, tap: Point)
    requires
        forall|i: int|
            0 <= i < beakers.len() ==> !within(
                #[trigger] beakers[i].pos,
                tap,
                BEAKER_CLICK_DIST as int,
            ),
    ensures
        dispatch(beakers, seq![TapEvent(tap)]) == Seq::<SpawnPillEvent>::empty(),
{
    lemma_single_tap(beakers, tap);
    lemma_far_prefix(beakers, tap);
    assert(tap_requests(beakers, tap) =~= Seq::<SpawnPillEvent>::empty());
}

proof fn lemma_near_prefix(beakers: Seq<Beaker>, tap: Point, k: int, m: int)
    requires
        0 <= k < beakers.len(),
        0 <= m <= beakers.len(),
        within(beakers[k].pos, tap, BEAKER_CLICK_DIST as int),
        forall|j: int| 0 <= j < beakers.len() && j != k ==> #[trigger] beakers[j].pos != beakers[k].pos,
    ensures
        occurrences(tap_requests(beakers.take(m), tap), request_for(beakers[k])) == if m > k {
            1nat
        } else {
            0nat
        },
    decreases m,
{
    let e = request_for(beakers[k]);
    if m > 0 {
        lemma_near_prefix(beakers, tap, k, m - 1);
        let pre = beakers.take(m);
        assert(pre.drop_last() == beakers.take(m - 1));
        assert(pre.last() == beakers[m - 1]);
        let rest = tap_requests(beakers.take(m - 1), tap);
        if within(pre.last().pos, tap, BEAKER_CLICK_DIST as int) {
            assert(rest.push(request_for(pre.last())).drop_last() == rest);
        }
    }
}

/// A tap closer than the click distance to a beaker yields exactly one
/// request with that beaker's position and rotation, provided no other
/// beaker stands at the same position.
pub proof fn lemma_near_tap_fires_once(beakers: Seq<Beaker>, tap: Point, k: int)
    requires
        0 <= k < beakers.len(),
        within(beakers[k].pos, tap, BEAKER_CLICK_DIST as int),
        forall|j: int| 0 <= j < beakers.len() && j != k ==> #[trigger] beakers[j].pos != beakers[k].pos,
    ensures
        occurrences(dispatch(beakers, seq![TapEvent(tap)]), request_for(beakers[k])) == 1,
{
    lemma_single_tap(beakers, tap);
    lemma_near_prefix(beakers, tap, k, beakers.len() as int);
    assert(beakers.take(beakers.len() as int) == beakers);
}

} // verus!

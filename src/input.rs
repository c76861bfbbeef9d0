//! Turning pointer and touch input into taps on the world plane.

use vstd::prelude::*;

use crate::geometry::Point;

verus! {

/// A completed tap at a world position.
#[derive(Clone, Copy, Debug, PartialEq, Eq, Structural)]
pub struct TapEvent(pub Point);

} // verus!

verus! {

/// One pointer or touch input of a frame. The positions are the world
/// positions the camera projects the cursor or the touch to, if it can.
#[derive(Clone, Copy, Debug, PartialEq, Eq, Structural)]
pub enum InputEvent {
    ButtonPressed,
    ButtonReleased(Option<Point>),
    TouchStarted(Option<Point>),
    TouchOther,
}

/// `y` negated; the one value without a negation maps to the largest value.
pub open spec fn mirror_y(p: Point) -> Point {
    Point { x: p.x, y: if p.y == i32::MIN { i32::MAX } else { (-p.y) as i32 } }
}

/// The tap an input gives: a released button at the cursor, or a started
/// touch (mirrored vertically when `flip_touch_y`); nothing otherwise.
pub open spec fn tap_of(ev: InputEvent, flip_touch_y: bool) -> Option<TapEvent> {
    match ev {
        InputEvent::ButtonReleased(Some(p)) => Some(TapEvent(p)),
        InputEvent::TouchStarted(Some(p)) => Some(
            TapEvent(
                if flip_touch_y {
                    mirror_y(p)
                } else {
                    p
                },
            ),
        ),
        _ => None,
    }
}

/// The taps of a sequence of inputs, in order.
pub open spec fn taps_of(events: Seq<InputEvent>, flip_touch_y: bool) -> Seq<TapEvent>
    decreases events.len(),
{
    if events.len() == 0 {
        seq![]
    } else {
        let rest = taps_of(events.drop_last(), flip_touch_y);
        match tap_of(events.last(), flip_touch_y) {
            Some(t) => rest.push(t),
            None => rest,
        }
    }
}

/// Turns a frame's inputs into taps: one for each released button and each
/// started touch whose position could be projected.
pub fn handle_clicks_and_touches(events: &Vec<InputEvent>, flip_touch_y: bool) -> (r: Vec<
    TapEvent,
>)
    ensures
        r@ == taps_of(events@, flip_touch_y),
{
    let mut r: Vec<TapEvent> = Vec::new();
    let n = events.len();
    for i in 0..n
        invariant
            n == events@.len(),
            r@ == taps_of(events@.take(i as int), flip_touch_y),
    {
        proof {
            assert(events@.take(i + 1).drop_last() == events@.take(i as int));
        }
        match events[i] {
            InputEvent::ButtonReleased(Some(p)) => r.push(TapEvent(p)),
            InputEvent::TouchStarted(Some(p)) => {
                if flip_touch_y {
                    let y: i32 = if p.y == i32::MIN {
                        i32::MAX
                    } else {
                        -p.y
                    };
                    r.push(TapEvent(Point { x: p.x, y }));
                } else {
                    r.push(TapEvent(p));
                }
            },
            _ => {},
        }
    }
    proof {
        assert(events@.take(n as int) == events@);
    }
    r
}

} // verus!

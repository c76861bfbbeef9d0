use pill_clinic::beaker::{
    beaker_layout, handle_taps, hovered_beakers, Beaker, BEAKER_CLICK_DIST, BEAKER_SLOTS,
};
use pill_clinic::geometry::{Point, Size};
use pill_clinic::input::TapEvent;
use pill_clinic::pill::SpawnPillEvent;

fn at(x: i32, y: i32) -> Point {
    Point { x, y }
}

#[test]
fn layout_for_800_by_600() {
    let v = beaker_layout(Size { width: 800, height: 600 });
    let expected = vec![
        Beaker { pos: at(-370_000, -270_000), rotation: -15 },
        Beaker { pos: at(-370_000, 0), rotation: -30 },
        Beaker { pos: at(-370_000, 270_000), rotation: -60 },
        Beaker { pos: at(370_000, -270_000), rotation: 15 },
        Beaker { pos: at(370_000, 0), rotation: 30 },
        Beaker { pos: at(370_000, 270_000), rotation: 60 },
    ];
    assert_eq!(v, expected);
}

#[test]
fn layout_is_mirrored_and_inside_the_margin() {
    let window = Size { width: 1280, height: 720 };
    let v = beaker_layout(window);
    assert_eq!(v.len(), BEAKER_SLOTS);
    let half_w = 1280 * 500;
    let half_h = 720 * 500;
    for i in 0..3 {
        assert_eq!(v[i + 3].pos.x, -v[i].pos.x);
        assert_eq!(v[i + 3].pos.y, v[i].pos.y);
        assert_eq!(v[i + 3].rotation, -v[i].rotation);
    }
    for b in &v {
        assert!(b.pos.x.abs() <= half_w - 30_000 && b.pos.x.abs() < half_w);
        assert!(b.pos.y.abs() <= half_h - 30_000 && b.pos.y.abs() < half_h);
    }
}

#[test]
fn layout_for_the_smallest_window_with_margins() {
    let v = beaker_layout(Size { width: 60, height: 60 });
    for b in &v {
        assert_eq!(b.pos, at(0, 0));
    }
}

#[test]
fn tap_near_the_only_beaker_fires_it() {
    let beakers = vec![Beaker { pos: at(0, 0), rotation: 0 }];
    let r = handle_taps(&beakers, &vec![TapEvent(at(0, 50_000))]);
    assert_eq!(r, vec![SpawnPillEvent { pos: at(0, 0), dir: 0 }]);
}

#[test]
fn tap_far_from_every_beaker_fires_none() {
    let beakers = beaker_layout(Size { width: 800, height: 600 });
    let r = handle_taps(&beakers, &vec![TapEvent(at(0, 0)), TapEvent(at(-200_000, 100_000))]);
    assert!(r.is_empty());
}

#[test]
fn tap_at_exactly_the_click_distance_fires_none() {
    let beakers = vec![Beaker { pos: at(1_000, 2_000), rotation: 30 }];
    let r = handle_taps(&beakers, &vec![TapEvent(at(1_000 + BEAKER_CLICK_DIST, 2_000))]);
    assert!(r.is_empty());
    let r = handle_taps(&beakers, &vec![TapEvent(at(1_000 + 60_000, 2_000 + 80_000))]);
    assert!(r.is_empty());
    let r = handle_taps(&beakers, &vec![TapEvent(at(1_000 + 60_000, 2_000 + 79_999))]);
    assert_eq!(r, vec![SpawnPillEvent { pos: at(1_000, 2_000), dir: 30 }]);
}

#[test]
fn tap_near_two_beakers_fires_both_in_order() {
    let beakers = vec![
        Beaker { pos: at(0, 0), rotation: 10 },
        Beaker { pos: at(500_000, 0), rotation: 20 },
        Beaker { pos: at(120_000, 0), rotation: -20 },
    ];
    let r = handle_taps(&beakers, &vec![TapEvent(at(60_000, 0))]);
    assert_eq!(
        r,
        vec![
            SpawnPillEvent { pos: at(0, 0), dir: 10 },
            SpawnPillEvent { pos: at(120_000, 0), dir: -20 },
        ]
    );
}

#[test]
fn each_tap_is_answered_in_turn() {
    let beakers = beaker_layout(Size { width: 800, height: 600 });
    let taps = vec![
        TapEvent(at(370_000, 270_000)),
        TapEvent(at(0, 0)),
        TapEvent(at(-370_000, -200_000)),
    ];
    let r = handle_taps(&beakers, &taps);
    assert_eq!(
        r,
        vec![
            SpawnPillEvent { pos: at(370_000, 270_000), dir: 60 },
            SpawnPillEvent { pos: at(-370_000, -270_000), dir: -15 },
        ]
    );
}

#[test]
fn hover_marks_beakers_near_the_cursor() {
    let beakers = beaker_layout(Size { width: 800, height: 600 });
    let r = hovered_beakers(&beakers, at(-350_000, 10_000));
    assert_eq!(r, vec![false, true, false, false, false, false]);
    let r = hovered_beakers(&beakers, at(0, 0));
    assert_eq!(r, vec![false; 6]);
}

use pill_clinic::arena::{arena_walls, Wall};
use pill_clinic::geometry::{Point, Size};
use pill_clinic::input::{handle_clicks_and_touches, InputEvent, TapEvent};
use pill_clinic::menu::{click_play_button, ButtonResponse, ButtonShade, GameState, Interaction};
use pill_clinic::patient::{
    CollisionEvent, EntityKind, PatientHealedEvent, Scene, Treatment,
};
use pill_clinic::ui::PatientTracker;

fn scene() -> Scene {
    let mut s = Scene::new();
    s.spawn(1, EntityKind::Pill);
    s.spawn(2, EntityKind::Patient);
    s.spawn(3, EntityKind::Patient);
    s.spawn(4, EntityKind::Pill);
    s.spawn(5, EntityKind::Beaker);
    s
}

#[test]
fn pill_meeting_patient_heals_it() {
    let mut s = scene();
    let mut tracker = PatientTracker::new();
    let t = s.handle_collisions(&vec![CollisionEvent::Started(1, 2)]);
    assert_eq!(t, vec![Treatment { pill: 1, patient: 2 }]);
    assert_eq!(s.kind_of(1), None);
    assert_eq!(s.kind_of(2), None);
    assert_eq!(s.kind_of(3), Some(EntityKind::Patient));
    let healed: Vec<PatientHealedEvent> = t.iter().map(|_| PatientHealedEvent).collect();
    tracker.record(&healed);
    assert_eq!(tracker.saved, 1);
}

#[test]
fn patient_meeting_pill_heals_it_too() {
    let mut s = scene();
    let t = s.handle_collision(CollisionEvent::Started(3, 4));
    assert_eq!(t, Some(Treatment { pill: 4, patient: 3 }));
    assert_eq!(s.kind_of(3), None);
    assert_eq!(s.kind_of(4), None);
}

#[test]
fn other_pairs_change_nothing() {
    let mut s = scene();
    let events = vec![
        CollisionEvent::Started(2, 3),
        CollisionEvent::Started(1, 4),
        CollisionEvent::Started(1, 5),
        CollisionEvent::Started(1, 99),
        CollisionEvent::Stopped(1, 2),
    ];
    assert!(s.handle_collisions(&events).is_empty());
    for id in 1..=5 {
        assert!(s.kind_of(id).is_some());
    }
}

#[test]
fn redelivered_event_heals_no_one_twice() {
    let mut s = scene();
    let t = s.handle_collisions(&vec![CollisionEvent::Started(1, 2), CollisionEvent::Started(1, 2)]);
    assert_eq!(t.len(), 1);
    assert!(!s.despawn(1));
    assert_eq!(s.kind_of(3), Some(EntityKind::Patient));
}

#[test]
fn a_pill_heals_only_the_first_patient_it_meets() {
    let mut s = scene();
    let t = s.handle_collisions(&vec![CollisionEvent::Started(1, 2), CollisionEvent::Started(3, 1)]);
    assert_eq!(t, vec![Treatment { pill: 1, patient: 2 }]);
    assert_eq!(s.kind_of(3), Some(EntityKind::Patient));
}

#[test]
fn despawn_reports_presence() {
    let mut s = scene();
    assert!(s.despawn(5));
    assert!(!s.despawn(5));
    assert_eq!(s.kind_of(5), None);
}

#[test]
fn three_heals_in_one_frame() {
    let mut tracker = PatientTracker::new();
    assert_eq!(tracker.text(), "Patients saved: 0");
    let r = tracker.record(&vec![PatientHealedEvent; 3]);
    assert_eq!(tracker.saved, 3);
    assert_eq!(r.as_deref(), Some("Patients saved: 3"));
}

#[test]
fn frame_without_heals_keeps_the_text() {
    let mut tracker = PatientTracker { saved: 9 };
    assert_eq!(tracker.record(&vec![]), None);
    assert_eq!(tracker.saved, 9);
    assert_eq!(tracker.record(&vec![PatientHealedEvent]).as_deref(), Some("Patients saved: 10"));
}

#[test]
fn score_text_writes_decimal_numerals() {
    assert_eq!(PatientTracker { saved: 1_234_567 }.text(), "Patients saved: 1234567");
    assert_eq!(
        PatientTracker { saved: u64::MAX }.text(),
        "Patients saved: 18446744073709551615"
    );
}

#[test]
fn releases_and_touch_starts_become_taps() {
    let p = Point { x: 100, y: 200 };
    let events = vec![
        InputEvent::ButtonPressed,
        InputEvent::ButtonReleased(Some(p)),
        InputEvent::ButtonReleased(None),
        InputEvent::TouchStarted(Some(p)),
        InputEvent::TouchStarted(None),
        InputEvent::TouchOther,
    ];
    assert_eq!(
        handle_clicks_and_touches(&events, true),
        vec![TapEvent(p), TapEvent(Point { x: 100, y: -200 })]
    );
    assert_eq!(handle_clicks_and_touches(&events, false), vec![TapEvent(p), TapEvent(p)]);
}

#[test]
fn touch_flip_saturates_at_the_lowest_value() {
    let events = vec![InputEvent::TouchStarted(Some(Point { x: 0, y: i32::MIN }))];
    assert_eq!(
        handle_clicks_and_touches(&events, true),
        vec![TapEvent(Point { x: 0, y: i32::MAX })]
    );
}

#[test]
fn play_button_responses() {
    assert_eq!(
        click_play_button(Interaction::Clicked),
        ButtonResponse { next_state: Some(GameState::Playing), shade: None }
    );
    assert_eq!(
        click_play_button(Interaction::Hovered),
        ButtonResponse { next_state: None, shade: Some(ButtonShade::Hovered) }
    );
    assert_eq!(
        click_play_button(Interaction::Idle),
        ButtonResponse { next_state: None, shade: Some(ButtonShade::Normal) }
    );
}

#[test]
fn walls_line_the_window() {
    let w = arena_walls(Size { width: 800, height: 600 });
    assert_eq!(
        w,
        vec![
            Wall { center: Point { x: 0, y: -300_000 }, half_width: 500_000, half_height: 10_000 },
            Wall { center: Point { x: -400_000, y: 0 }, half_width: 10_000, half_height: 500_000 },
            Wall { center: Point { x: 400_000, y: 0 }, half_width: 10_000, half_height: 500_000 },
        ]
    );
}

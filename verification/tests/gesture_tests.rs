use ao3reader_core::geom::{Point, Dir, Axis};
use ao3reader_core::gesture::{GestureEvent, ButtonCode, DeviceEvent, FingerStatus, ButtonStatus};
use ao3reader_core::parser::GestureParser;
use ao3reader_core::classify::interpret_segment;
use ao3reader_core::combine::combine_gestures;

fn pt(x: i32, y: i32) -> Point {
    Point { x, y }
}

fn down(id: i32, p: Point, time: u64) -> DeviceEvent {
    DeviceEvent::Finger { status: FingerStatus::Down, position: p, id, time }
}

fn motion(id: i32, p: Point, time: u64) -> DeviceEvent {
    DeviceEvent::Finger { status: FingerStatus::Motion, position: p, id, time }
}

fn up(id: i32, p: Point, time: u64) -> DeviceEvent {
    DeviceEvent::Finger { status: FingerStatus::Up, position: p, id, time }
}

#[test]
fn tap_within_jitter_classifies_at_first_sample() {
    let path = vec![pt(10, 10), pt(12, 11), pt(14, 13)];
    assert_eq!(interpret_segment(&path, 30), GestureEvent::Tap(pt(10, 10)));
}

#[test]
fn straight_path_classifies_as_swipe() {
    let path = vec![pt(0, 0), pt(50, 1), pt(100, 0)];
    assert_eq!(
        interpret_segment(&path, 30),
        GestureEvent::Swipe { dir: Dir::East, start: pt(0, 0), end: pt(100, 0) },
    );
}

#[test]
fn swipe_direction_quantizes_to_dominant_axis() {
    let south = vec![pt(0, 0), pt(5, 100)];
    match interpret_segment(&south, 30) {
        GestureEvent::Swipe { dir, .. } => assert_eq!(dir, Dir::South),
        g => panic!("expected a swipe, got {g:?}"),
    }
    let west = vec![pt(100, 0), pt(0, 10)];
    match interpret_segment(&west, 30) {
        GestureEvent::Swipe { dir, .. } => assert_eq!(dir, Dir::West),
        g => panic!("expected a swipe, got {g:?}"),
    }
}

#[test]
fn bowed_path_with_dominant_axis_is_an_arrow() {
    // The elbow bows far to the east of the vertical chord.
    let path = vec![pt(0, 0), pt(100, 50), pt(0, 100)];
    assert_eq!(
        interpret_segment(&path, 30),
        GestureEvent::Arrow { dir: Dir::East, start: pt(0, 0), end: pt(0, 100) },
    );
}

#[test]
fn bowed_path_with_diagonal_deviation_is_a_corner() {
    // Chord from north-west to south-east; the elbow deviates towards the
    // north-east diagonal.
    let path = vec![pt(0, 0), pt(100, 0), pt(100, 100)];
    match interpret_segment(&path, 30) {
        GestureEvent::Corner { start, end, .. } => {
            assert_eq!(start, pt(0, 0));
            assert_eq!(end, pt(100, 100));
        },
        g => panic!("expected a corner, got {g:?}"),
    }
}

#[test]
fn down_then_up_at_same_point_yields_exactly_one_tap() {
    let mut parser = GestureParser::new(30);
    let p = pt(200, 300);
    assert_eq!(parser.on_device_event(down(1, p, 1000)), None);
    let emitted = parser.on_device_event(up(1, p, 1001));
    assert_eq!(emitted, Some(GestureEvent::Tap(p)));
    // Nothing is left pending: the next tap is again a single tap.
    assert_eq!(parser.on_device_event(down(1, p, 2000)), None);
    assert_eq!(parser.on_device_event(up(1, p, 2001)), Some(GestureEvent::Tap(p)));
}

#[test]
fn two_stationary_overlapping_contacts_yield_one_multi_tap() {
    let mut parser = GestureParser::new(30);
    let p1 = pt(100, 100);
    let p2 = pt(400, 100);
    assert_eq!(parser.on_device_event(down(1, p1, 1000)), None);
    assert_eq!(parser.on_device_event(down(2, p2, 1001)), None);
    // The first release emits nothing: a second contact is still down.
    assert_eq!(parser.on_device_event(up(1, p1, 1200)), None);
    // The second release emits exactly one multi-tap, never two taps.
    assert_eq!(
        parser.on_device_event(up(2, p2, 1201)),
        Some(GestureEvent::MultiTap([p2, p1])),
    );
}

#[test]
fn opposite_swipes_that_close_in_make_a_pinch() {
    let mut parser = GestureParser::new(30);
    let s1 = pt(0, 0);
    let e1 = pt(100, 0);
    let s2 = pt(300, 0);
    let e2 = pt(200, 0);
    parser.on_device_event(down(1, s1, 1000));
    parser.on_device_event(down(2, s2, 1001));
    parser.on_device_event(motion(1, e1, 1050));
    parser.on_device_event(motion(2, e2, 1050));
    assert_eq!(parser.on_device_event(up(1, e1, 1100)), None);
    // Start distance 300, end distance 100: a pinch of strength 200.
    assert_eq!(
        parser.on_device_event(up(2, e2, 1101)),
        Some(GestureEvent::Pinch {
            axis: Axis::Horizontal,
            strength: 200,
            starts: [s2, s1],
            ends: [e2, e1],
        }),
    );
}

#[test]
fn parallel_swipes_make_a_multi_swipe() {
    let mut parser = GestureParser::new(30);
    let s1 = pt(0, 0);
    let e1 = pt(100, 0);
    let s2 = pt(0, 200);
    let e2 = pt(100, 200);
    parser.on_device_event(down(1, s1, 1000));
    parser.on_device_event(down(2, s2, 1001));
    assert_eq!(parser.on_device_event(up(1, e1, 1100)), None);
    assert_eq!(
        parser.on_device_event(up(2, e2, 1101)),
        Some(GestureEvent::MultiSwipe { dir: Dir::East, starts: [s2, s1], ends: [e2, e1] }),
    );
}

#[test]
fn east_and_west_arrows_cross_at_their_centroid() {
    let mut parser = GestureParser::new(30);
    // Eastward-bowed arrow starting at x = 0, overlapping a westward-bowed
    // arrow starting at x = 200.
    parser.on_device_event(down(1, pt(0, 0), 1000));
    parser.on_device_event(motion(1, pt(100, 50), 1050));
    parser.on_device_event(down(2, pt(200, 0), 1060));
    assert_eq!(parser.on_device_event(up(1, pt(0, 100), 1100)), None);
    parser.on_device_event(motion(2, pt(100, 50), 1150));
    let emitted = parser.on_device_event(up(2, pt(200, 100), 1300));
    assert_eq!(emitted, Some(GestureEvent::Cross(pt(100, 50))));
}

#[test]
fn tap_and_swipe_make_a_quarter_turn_rotation() {
    let mut parser = GestureParser::new(30);
    let c = pt(0, 0);
    let s = pt(100, 0);
    let e = pt(0, 100);
    parser.on_device_event(down(1, c, 1000));
    parser.on_device_event(down(2, s, 1001));
    assert_eq!(parser.on_device_event(up(1, c, 1100)), None);
    assert_eq!(
        parser.on_device_event(up(2, e, 1101)),
        Some(GestureEvent::Rotate { center: c, quarter_turns: 1, start: s, end: e }),
    );
}

#[test]
fn rotation_counts_negative_quarter_turns() {
    // The same geometry swept the other way around.
    let g1 = GestureEvent::Swipe { dir: Dir::South, start: pt(0, 100), end: pt(100, 0) };
    let g2 = GestureEvent::Tap(pt(0, 0));
    match combine_gestures(g1, g2) {
        Some(GestureEvent::Rotate { quarter_turns, .. }) => assert_eq!(quarter_turns, -1),
        g => panic!("expected a rotation, got {g:?}"),
    }
}

#[test]
fn unmatched_pairings_combine_to_nothing() {
    let g1 = GestureEvent::Swipe { dir: Dir::East, start: pt(0, 0), end: pt(100, 0) };
    let g2 = GestureEvent::Swipe { dir: Dir::South, start: pt(0, 0), end: pt(0, 100) };
    assert_eq!(combine_gestures(g1, g2), None);
}

#[test]
fn three_contacts_finishing_together_produce_no_gesture() {
    let mut parser = GestureParser::new(30);
    parser.on_device_event(down(1, pt(0, 0), 1000));
    parser.on_device_event(down(2, pt(100, 0), 1001));
    parser.on_device_event(down(3, pt(200, 0), 1002));
    assert_eq!(parser.on_device_event(up(1, pt(0, 0), 1100)), None);
    assert_eq!(parser.on_device_event(up(2, pt(100, 0), 1101)), None);
    // The last release discards all three pending strokes.
    assert_eq!(parser.on_device_event(up(3, pt(200, 0), 1102)), None);
    // The queue was cleared: a following tap is classified alone.
    assert_eq!(parser.on_device_event(down(4, pt(50, 50), 2000)), None);
    assert_eq!(
        parser.on_device_event(up(4, pt(50, 50), 2001)),
        Some(GestureEvent::Tap(pt(50, 50))),
    );
}

#[test]
fn stationary_hold_fires_short_then_long_and_swallows_the_release() {
    let mut parser = GestureParser::new(30);
    let p = pt(100, 100);
    parser.on_device_event(down(7, p, 1000));
    // The short re-validation finds the contact alone and still.
    assert_eq!(
        parser.check_finger_hold_short(7, p, 1000),
        Some(GestureEvent::HoldFingerShort(p, 7)),
    );
    // The long re-validation, after the longer delay, fires once more.
    assert_eq!(
        parser.check_finger_hold_long(7, p, 1000),
        Some(GestureEvent::HoldFingerLong(p, 7)),
    );
    // The contact was marked held: its release produces no stroke.
    assert_eq!(parser.on_device_event(up(7, p, 3000)), None);
}

#[test]
fn lifting_before_the_delay_suppresses_the_hold() {
    let mut parser = GestureParser::new(30);
    let p = pt(100, 100);
    parser.on_device_event(down(7, p, 1000));
    assert_eq!(parser.on_device_event(up(7, p, 1100)), Some(GestureEvent::Tap(p)));
    // The delayed check runs after the release and finds nothing.
    assert_eq!(parser.check_finger_hold_short(7, p, 1000), None);
    assert_eq!(parser.check_finger_hold_long(7, p, 1000), None);
}

#[test]
fn hold_checks_fail_for_a_moved_or_reused_contact() {
    let mut parser = GestureParser::new(30);
    let p = pt(100, 100);
    parser.on_device_event(down(7, p, 1000));
    parser.on_device_event(motion(7, pt(400, 100), 1050));
    // The finger moved past the jitter tolerance.
    assert_eq!(parser.check_finger_hold_short(7, p, 1000), None);
    // A reused id with a fresh down time fails the identity check.
    parser.on_device_event(up(7, pt(400, 100), 1100));
    parser.on_device_event(down(7, p, 2000));
    assert_eq!(parser.check_finger_hold_short(7, p, 1000), None);
}

#[test]
fn hold_checks_fail_while_a_second_contact_is_down() {
    let mut parser = GestureParser::new(30);
    let p = pt(100, 100);
    parser.on_device_event(down(1, p, 1000));
    parser.on_device_event(down(2, pt(300, 100), 1001));
    assert_eq!(parser.check_finger_hold_short(1, p, 1000), None);
}

#[test]
fn button_held_past_the_delay_fires_and_release_suppresses() {
    let mut parser = GestureParser::new(30);
    let press = DeviceEvent::Button {
        status: ButtonStatus::Pressed,
        code: ButtonCode::Forward,
        time: 500,
    };
    let release = DeviceEvent::Button {
        status: ButtonStatus::Released,
        code: ButtonCode::Forward,
        time: 900,
    };
    assert_eq!(parser.on_device_event(press), None);
    assert_eq!(
        parser.check_button_hold(ButtonCode::Forward, 500, false),
        Some(GestureEvent::HoldButtonShort(ButtonCode::Forward)),
    );
    // Released before the long delay: the long tier is suppressed.
    assert_eq!(parser.on_device_event(release), None);
    assert_eq!(parser.check_button_hold(ButtonCode::Forward, 500, true), None);
}

#[test]
fn motion_for_an_unknown_contact_is_ignored() {
    let mut parser = GestureParser::new(30);
    assert_eq!(parser.on_device_event(motion(9, pt(10, 10), 100)), None);
    let p = pt(5, 5);
    parser.on_device_event(down(1, p, 200));
    assert_eq!(parser.on_device_event(up(1, p, 300)), Some(GestureEvent::Tap(p)));
}

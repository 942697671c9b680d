use tilepan::anim::{Animate, Point, ONE};

#[test]
fn evaluate_init_is_initial_at_origin() {
    let a = Animate::new(Point { x: 0, y: 0 });
    assert_eq!(a.t, ONE);
    let p = a.point();
    assert_eq!(p, Point { x: 0, y: 0 });
}

#[test]
fn evaluate_init_is_initial_elsewhere() {
    let initial = Point { x: 3 * ONE, y: -2 * ONE };
    let a = Animate::new(initial);
    assert_eq!(a.point(), initial);
    assert_eq!(a.origin, Point { x: 0, y: 0 });
    assert_eq!(a.target, initial);
}

#[test]
fn evaluate_hits_the_endpoints_exactly() {
    let origin = Point { x: -5 * ONE, y: 7 * ONE };
    let target = Point { x: 2 * ONE, y: -ONE };
    let start = Animate { t: 0, origin, target };
    assert_eq!(start.point(), origin);
    let done = Animate { t: ONE, origin, target };
    assert_eq!(done.point(), target);
}

#[test]
fn evaluate_is_monotone_along_the_segment() {
    let origin = Point { x: 0, y: 4 * ONE };
    let target = Point { x: 10 * ONE, y: 0 };
    let mut a = Animate { t: 0, origin, target };
    let mut last = a.point();
    while a.t < ONE {
        a = a.advance(ONE / 16);
        let p = a.point();
        // x climbs toward the target, y sinks toward it.
        assert!(p.x >= last.x);
        assert!(p.y <= last.y);
        last = p;
    }
    assert_eq!(last, target);
}

#[test]
fn ease_out_is_fast_first_slow_last() {
    let origin = Point { x: 0, y: 0 };
    let target = Point { x: 16 * ONE, y: 0 };
    let a = Animate { t: 0, origin, target };
    let first_half = a.advance(ONE / 2).point().x;
    // A quartic ease-out covers 15/16 of the distance in the first half.
    assert_eq!(first_half, 15 * ONE);
}

#[test]
fn retarget_does_not_jump() {
    let a = Animate::new(Point { x: 0, y: 0 });
    let moving = a.with_target(Point { x: 4 * ONE, y: 2 * ONE }).advance(ONE / 3);
    let shown = moving.point();
    let retargeted = moving.with_target(Point { x: -6 * ONE, y: ONE });
    assert_eq!(retargeted.t, 0);
    assert_eq!(retargeted.point(), shown);
    assert_eq!(retargeted.origin, shown);
}

#[test]
fn advance_past_the_end_changes_nothing() {
    let target = Point { x: 9 * ONE, y: -3 * ONE };
    let done = Animate::new(target);
    assert_eq!(done.t, ONE);
    let later = done.advance(5).advance(ONE).advance(i64::MAX - ONE);
    assert_eq!(later, done);
    assert_eq!(later.point(), target);
}

#[test]
fn negative_advance_only_backs_off_to_zero() {
    let a = Animate { t: ONE / 4, origin: Point { x: 0, y: 0 }, target: Point { x: ONE, y: 0 } };
    let b = a.advance(-ONE);
    assert_eq!(b.t, 0);
    assert_eq!(b.origin, a.origin);
    assert_eq!(b.target, a.target);
}

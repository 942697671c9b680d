use tilepan::anim::{Point, ONE};
use tilepan::camera::{Camera, Frac, GridPos, ScreenSize, WORLD_UNIT};
use tilepan::router::{Action, Event, MoveKey, Router, Status};

#[test]
fn fresh_camera_rests_at_the_origin() {
    let c = Camera::new();
    assert_eq!(c.position, GridPos { x: 0, y: 0 });
    assert_eq!(c.size, ScreenSize { width: 1, height: 1 });
    assert_eq!(c.anim.point(), Point { x: 0, y: 0 });
}

#[test]
fn move_left_then_tick_to_completion() {
    let mut c = Camera::new();
    c.handle_move(GridPos { x: -1, y: 0 });
    assert_eq!(c.position, GridPos { x: -1, y: 0 });
    let mut spent: i64 = 0;
    while spent < ONE {
        c.tick(ONE / 4);
        spent += ONE / 4;
    }
    assert_eq!(c.anim.t, ONE);
    assert_eq!(c.anim.point(), Point { x: -ONE, y: 0 });
}

#[test]
fn any_split_of_the_duration_settles_exactly() {
    let mut c = Camera::new();
    c.handle_move(GridPos { x: -1, y: 0 });
    // uneven steps whose total passes one full animation duration
    for dt in [1, 7, 2000, 50, 1500, 600] {
        c.tick(dt);
    }
    assert_eq!(c.anim.t, ONE);
    assert_eq!(c.anim.point(), Point { x: -ONE, y: 0 });
}

#[test]
fn transform_at_rest_on_an_800_by_600_window() {
    let mut c = Camera::new();
    c.handle_resize(800, 600);
    let tr = c.tick(0);
    assert_eq!(tr.scale_x, Frac { num: WORLD_UNIT, den: 800 });
    assert_eq!(tr.scale_y, Frac { num: WORLD_UNIT, den: 600 });
    assert_eq!(WORLD_UNIT, 48);
    assert_eq!(tr.offset_x, Frac { num: 0, den: 800 * ONE });
    assert_eq!(tr.offset_y, Frac { num: 0, den: 600 * ONE });
}

#[test]
fn transform_offset_follows_the_displayed_point() {
    let mut c = Camera::new();
    c.handle_resize(800, 600);
    c.handle_move(GridPos { x: 1, y: 0 });
    let tr = c.tick(ONE);
    // The animation finished in one tick: the point is one world unit right.
    assert_eq!(tr.offset_x, Frac { num: 2 * WORLD_UNIT * ONE, den: 800 * ONE });
    assert_eq!(tr.offset_y, Frac { num: 0, den: 600 * ONE });
}

#[test]
fn zero_resize_is_clamped_to_one_pixel() {
    let mut c = Camera::new();
    c.handle_resize(0, 5);
    assert_eq!(c.size, ScreenSize { width: 1, height: 5 });
    c.handle_resize(7, 0);
    assert_eq!(c.size, ScreenSize { width: 7, height: 1 });
}

#[test]
fn each_key_applies_its_fixed_delta() {
    let mut r = Router::new();
    assert_eq!(r.step(Event::Pressed { key: MoveKey::KeyW }), Action::Continue);
    assert_eq!(r.camera.position, GridPos { x: 0, y: -1 });
    r.step(Event::Pressed { key: MoveKey::KeyS });
    assert_eq!(r.camera.position, GridPos { x: 0, y: 0 });
    r.step(Event::Pressed { key: MoveKey::KeyA });
    assert_eq!(r.camera.position, GridPos { x: 1, y: 0 });
    r.step(Event::Pressed { key: MoveKey::KeyD });
    assert_eq!(r.camera.position, GridPos { x: 0, y: 0 });
}

#[test]
fn a_key_press_retargets_without_a_jump() {
    let mut r = Router::new();
    r.step(Event::Pressed { key: MoveKey::KeyA });
    r.step(Event::Redraw { dt: ONE / 8 });
    let shown = r.camera.anim.point();
    r.step(Event::Pressed { key: MoveKey::KeyA });
    assert_eq!(r.camera.anim.t, 0);
    assert_eq!(r.camera.anim.point(), shown);
}

#[test]
fn redraw_returns_the_transform_of_this_very_tick() {
    let mut r = Router::new();
    r.step(Event::Resized { width: 800, height: 600 });
    let a = r.step(Event::Redraw { dt: ONE });
    match a {
        Action::Render { transform } => {
            assert_eq!(transform.scale_x, Frac { num: WORLD_UNIT, den: 800 });
            assert_eq!(transform.scale_y, Frac { num: WORLD_UNIT, den: 600 });
            assert_eq!(transform.offset_x.num, 0);
            assert_eq!(transform.offset_y.num, 0);
        }
        other => panic!("a redraw must yield a frame, got {:?}", other),
    }
}

#[test]
fn resize_through_the_router_is_clamped_too() {
    let mut r = Router::new();
    assert_eq!(r.step(Event::Resized { width: 0, height: 9 }), Action::Continue);
    assert_eq!(r.camera.size, ScreenSize { width: 1, height: 9 });
}

#[test]
fn close_wins_and_no_partial_update_is_visible() {
    let mut r = Router::new();
    r.step(Event::Resized { width: 640, height: 480 });
    r.step(Event::Pressed { key: MoveKey::KeyD });
    let cells_before = r.camera;
    // The close branch completes; it must not touch any shared cell.
    let a = r.step(Event::CloseRequested);
    assert_eq!(a, Action::Stop);
    assert_eq!(r.status, Status::Terminated);
    assert_eq!(r.camera, cells_before);
}

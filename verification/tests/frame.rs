use flycam::camera::Direction;
use flycam::frame::{direction_for_key, App, Event, MOVE_SPEED, WINDOW_HEIGHT, WINDOW_WIDTH};
use flycam::projection::{ProjectionManager, DEPTH_DEN, DEPTH_NUM, FOCAL_Q, FOCAL_R, OFFSET_NUM};
use flycam::scalar::{Scalar, Vec3, ONE};
use flycam::vertex::Vertex;

fn scalar(r: i64, q: i64) -> Scalar {
    Scalar { r, q }
}

fn point(x: i64, y: i64, z: i64) -> Vec3 {
    Vec3 { x: scalar(x, 0), y: scalar(y, 0), z: scalar(z, 0) }
}

fn initial_app() -> App {
    App::new(WINDOW_WIDTH, WINDOW_HEIGHT, point(0, -4 * ONE, 8 * ONE), point(0, 0, 0))
}

#[test]
fn perspective_entries_are_the_exact_ratios() {
    let m = ProjectionManager::perspective(1024, 768);
    // focal length cot(22.5 deg) = 1 + sqrt(2)
    assert_eq!(m.focal, scalar(FOCAL_R, FOCAL_Q));
    assert_eq!(m.focal, scalar(ONE, 2 * ONE));
    // horizontal scale focal * height / width
    assert_eq!(m.wide_num, scalar(FOCAL_R * 768, FOCAL_Q * 768));
    assert_eq!(m.wide_den, 1024);
    // depth entries for near 1/10, far 100
    assert_eq!((m.depth_num, m.offset_num, m.depth_den), (DEPTH_NUM, OFFSET_NUM, DEPTH_DEN));
    assert_eq!((m.depth_num, m.offset_num, m.depth_den), (-1001, -200, 999));
}

#[test]
fn recompute_is_idempotent_bit_for_bit() {
    let a = ProjectionManager::perspective(640, 480);
    let b = ProjectionManager::perspective(640, 480);
    assert_eq!(a, b);

    let mut m = ProjectionManager::new(1024, 768);
    m.recompute(640, 480);
    let first = m;
    m.recompute(640, 480);
    assert_eq!(m, first);
}

#[test]
fn resize_updates_aspect_and_touches_nothing_else() {
    let mut app = initial_app();
    app.handle_event(Event::Key(Direction::Up, true));
    let camera_before = app.camera;

    app.handle_event(Event::Resize(1920, 1080));
    assert_eq!((app.projection.aspect_w, app.projection.aspect_h), (1920, 1080));
    assert_eq!(app.projection, ProjectionManager::new(1920, 1080));
    assert_eq!(app.camera, camera_before);
    assert!(app.running);
}

#[test]
fn degenerate_resize_is_ignored() {
    let mut app = initial_app();
    let before = app;
    app.handle_event(Event::Resize(0, 600));
    app.handle_event(Event::Resize(800, 0));
    assert_eq!(app, before);
}

#[test]
fn key_events_do_not_touch_the_projection() {
    let mut app = initial_app();
    let projection_before = app.projection;
    app.handle_event(Event::Key(Direction::Left, true));
    app.handle_event(Event::Key(Direction::Left, false));
    assert_eq!(app.projection, projection_before);
    assert!(app.running);
}

#[test]
fn quit_stops_the_loop_and_freezes_the_state() {
    let mut app = initial_app();
    app.handle_event(Event::Key(Direction::Up, true));
    app.handle_event(Event::Quit);
    assert!(!app.running);
    let before = app;
    app.frame_step(MOVE_SPEED);
    assert_eq!(app, before);
}

#[test]
fn one_second_forward_at_speed_three() {
    // start at eye (0, -4, 8) looking at the origin
    let mut app = initial_app();
    let front_before = app.camera.front;

    // press W, then run one simulated second at 3 units/s
    app.handle_event(Event::Key(direction_for_key('w').unwrap(), true));
    app.frame_step(MOVE_SPEED);

    // the forward-axis component grew by exactly 3 world units
    assert_eq!(app.camera.pos(), point(0, -ONE, 8 * ONE));
    // the facing offset never changed, so look-at is still pos + front
    assert_eq!(app.camera.front, front_before);
    assert_eq!(front_before, point(0, 4 * ONE, -8 * ONE));
    assert_eq!(app.camera.looking_at(), point(0, 3 * ONE, 0));
}

#[test]
fn several_frames_integrate_linearly() {
    let mut app = initial_app();
    app.handle_event(Event::Key(Direction::Up, true));
    // four frames of a quarter second each at 3 units/s
    for _ in 0..4 {
        app.frame_step(3 * ONE / 4);
    }
    assert_eq!(app.camera.pos(), point(0, -ONE, 8 * ONE));
}

#[test]
fn a_frame_drains_its_event_queue_in_order() {
    let mut by_queue = initial_app();
    by_queue.handle_events(&vec![
        Event::Key(Direction::Up, true),
        Event::Resize(640, 480),
        Event::Resize(1920, 1080),
        Event::Key(Direction::Up, false),
        Event::Key(Direction::Left, true),
    ]);

    let mut one_by_one = initial_app();
    one_by_one.handle_event(Event::Key(Direction::Up, true));
    one_by_one.handle_event(Event::Resize(640, 480));
    one_by_one.handle_event(Event::Resize(1920, 1080));
    one_by_one.handle_event(Event::Key(Direction::Up, false));
    one_by_one.handle_event(Event::Key(Direction::Left, true));

    assert_eq!(by_queue, one_by_one);
    // the later resize won
    assert_eq!((by_queue.projection.aspect_w, by_queue.projection.aspect_h), (1920, 1080));
    assert!(!by_queue.camera.movement.up && by_queue.camera.movement.left);
    assert!(by_queue.running);

    let mut empty_queue = initial_app();
    let before = empty_queue;
    empty_queue.handle_events(&Vec::new());
    assert_eq!(empty_queue, before);
}

#[test]
fn key_mapping_is_wsad() {
    assert_eq!(direction_for_key('w'), Some(Direction::Up));
    assert_eq!(direction_for_key('s'), Some(Direction::Down));
    assert_eq!(direction_for_key('a'), Some(Direction::Left));
    assert_eq!(direction_for_key('d'), Some(Direction::Right));
    assert_eq!(direction_for_key('q'), None);
    assert_eq!(direction_for_key(' '), None);
}

#[test]
fn vertex_keeps_its_corner_and_texture_coordinates() {
    let v = Vertex::new([-1, 1, 1], [0, 1]);
    assert_eq!(v.pos, [-1, 1, 1]);
    assert_eq!(v.tex_coord, [0, 1]);
}

#[test]
fn speed_constant_is_three_world_units() {
    assert_eq!(MOVE_SPEED, 3 * ONE);
    assert_eq!((WINDOW_WIDTH, WINDOW_HEIGHT), (1024, 768));
}

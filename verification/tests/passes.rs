use bounce::MAX_SPEED;
use bounce::SCALE;
use bounce::body::Arena;
use bounce::body::Body;
use bounce::body::ConfigError;
use bounce::body::Velocity;
use bounce::bounce::BounceSystem;
use bounce::motion::MovementSystem;

fn body_at(x: i64, y: i64, vx: i64, vy: i64) -> Body {
    Body { x, y, velocity: Velocity { x: vx, y: vy }, sprite: 0 }
}

fn arena(width_units: i64, height_units: i64) -> Arena {
    Arena::new(width_units * SCALE, height_units * SCALE).unwrap()
}

#[test]
fn arena_rejects_zero_or_negative_extents() {
    assert_eq!(Arena::new(0, 5 * SCALE), Err(ConfigError::InvalidExtent));
    assert_eq!(Arena::new(5 * SCALE, 0), Err(ConfigError::InvalidExtent));
    assert_eq!(Arena::new(-SCALE, 5 * SCALE), Err(ConfigError::InvalidExtent));
    assert_eq!(Arena::new(5 * SCALE, -SCALE), Err(ConfigError::InvalidExtent));
    let a = Arena::new(5 * SCALE, 7 * SCALE).unwrap();
    assert_eq!(a.width, 5 * SCALE);
    assert_eq!(a.height, 7 * SCALE);
}

#[test]
fn motion_moves_each_body_by_velocity_times_delta() {
    // Half a second at (3, -2) units per second moves by (1.5, -1) units.
    let mut bodies = vec![
        body_at(10 * SCALE, 10 * SCALE, 3 * SCALE, -2 * SCALE),
        body_at(0, 0, SCALE / 2, SCALE / 4),
    ];
    let half_second: i64 = 500_000;
    MovementSystem::run(&mut bodies, half_second);
    assert_eq!(bodies[0].x, 10 * SCALE + 3 * SCALE / 2);
    assert_eq!(bodies[0].y, 10 * SCALE - SCALE);
    assert_eq!(bodies[1].x, SCALE / 4);
    assert_eq!(bodies[1].y, SCALE / 8);
    // Velocities and sprites are untouched.
    assert_eq!(bodies[0].velocity, Velocity { x: 3 * SCALE, y: -2 * SCALE });
    assert_eq!(bodies[1].velocity, Velocity { x: SCALE / 2, y: SCALE / 4 });
}

#[test]
fn motion_zero_delta_is_noop() {
    let before = vec![
        body_at(10 * SCALE, 10 * SCALE, 3 * SCALE, -2 * SCALE),
        body_at(7, 11, -MAX_SPEED, MAX_SPEED),
    ];
    let mut bodies = before.clone();
    MovementSystem::run(&mut bodies, 0);
    assert_eq!(bodies, before);
}

#[test]
fn motion_truncates_toward_zero_symmetrically() {
    // 1 sub-unit per second over one microsecond rounds to zero on both signs.
    let mut bodies = vec![body_at(0, 0, 1, -1)];
    MovementSystem::run(&mut bodies, 1);
    assert_eq!(bodies[0].x, 0);
    assert_eq!(bodies[0].y, 0);
}

#[test]
fn reflector_clamps_high_wall_and_is_idempotent() {
    // A body five units past the right wall, still moving outward.
    let a = arena(100, 80);
    let v: i64 = 3 * SCALE;
    let mut bodies = vec![body_at(105 * SCALE, 40 * SCALE, v, 0)];
    BounceSystem::run(&mut bodies, &a);
    assert_eq!(bodies[0].x, 100 * SCALE - SCALE);
    assert_eq!(bodies[0].velocity.x, -v);
    assert_eq!(bodies[0].y, 40 * SCALE);
    assert_eq!(bodies[0].velocity.y, 0);
    // A second pass with no movement in between changes nothing.
    let after_one = bodies.clone();
    BounceSystem::run(&mut bodies, &a);
    assert_eq!(bodies, after_one);
}

#[test]
fn reflector_clamps_low_wall_symmetrically() {
    // The mirrored body, five units past the left wall.
    let a = arena(100, 80);
    let v: i64 = -3 * SCALE;
    let mut bodies = vec![body_at(-5 * SCALE, 40 * SCALE, v, 0)];
    BounceSystem::run(&mut bodies, &a);
    assert_eq!(bodies[0].x, 0);
    assert_eq!(bodies[0].velocity.x, 3 * SCALE);
    assert_eq!(bodies[0].y, 40 * SCALE);
}

#[test]
fn reflector_corrects_both_axes_in_one_pass() {
    let a = arena(100, 80);
    let mut bodies = vec![body_at(103 * SCALE, 86 * SCALE, 2 * SCALE, 5 * SCALE)];
    BounceSystem::run(&mut bodies, &a);
    assert_eq!(bodies[0].x, 99 * SCALE);
    assert_eq!(bodies[0].y, 79 * SCALE);
    assert_eq!(bodies[0].velocity.x, -2 * SCALE);
    assert_eq!(bodies[0].velocity.y, -5 * SCALE);
}

#[test]
fn reflector_leaves_interior_bodies_alone() {
    let a = arena(100, 80);
    let before = vec![body_at(50 * SCALE, 40 * SCALE, 9 * SCALE, -9 * SCALE)];
    let mut bodies = before.clone();
    BounceSystem::run(&mut bodies, &a);
    assert_eq!(bodies, before);
}

#[test]
fn reflector_on_exact_wall_clamps_inside() {
    // Sitting exactly on a wall counts as a violation on that wall.
    let a = arena(100, 80);
    let mut bodies = vec![body_at(100 * SCALE, 0, SCALE, -SCALE)];
    BounceSystem::run(&mut bodies, &a);
    assert_eq!(bodies[0].x, 99 * SCALE);
    assert_eq!(bodies[0].velocity.x, -SCALE);
    assert_eq!(bodies[0].y, 0);
    assert_eq!(bodies[0].velocity.y, SCALE);
}

//! Motion integration: once per tick, every body's position advances by its
//! velocity times the elapsed time (plain Euler integration, per axis).

use vstd::prelude::*;
use crate::MAX_DELTA;
use crate::MAX_EXTENT;
use crate::MAX_SPEED;
use crate::MAX_STEP;
use crate::MICROS_PER_SEC;
use crate::body::Body;

verus! {

/// How far a body moves along one axis: its velocity (sub-units per second)
/// times the delta (microseconds), scaled back to sub-units. The product is
/// divided with truncation toward zero, as the executable arithmetic does.
pub open spec fn displacement(v: int, dt: int) -> int {
    if v >= 0 {
        (v * dt) / (MICROS_PER_SEC as int)
    } else {
        -(((-v) * dt) / (MICROS_PER_SEC as int))
    }
}

/// One body after one integration step of `dt` microseconds.
pub open spec fn step_body(b: Body, dt: int) -> Body {
    Body {
        x: (b.x + displacement(b.velocity.x as int, dt)) as i64,
        y: (b.y + displacement(b.velocity.y as int, dt)) as i64,
        velocity: b.velocity,
        sprite: b.sprite,
    }
}

/// A whole store after one integration step.
pub open spec fn step_all(s: Seq<Body>, dt: int) -> Seq<Body> {
    s.map_values(|b: Body| step_body(b, dt))
}

/// A zero delta moves nothing: integrating with `dt == 0` is a no-op.
pub proof fn lemma_zero_delta_is_noop(s: Seq<Body>)
    ensures
        step_all(s, 0) == s,
{
    assert forall|i: int| 0 <= i < s.len() implies step_all(s, 0)[i] == s[i] by {
        assert(displacement(s[i].velocity.x as int, 0) == 0);
        assert(displacement(s[i].velocity.y as int, 0) == 0);
    }
    assert(step_all(s, 0) =~= s);
}

/// One axis of the integration step, in executable arithmetic.
fn scaled_step(v: i64, dt: i64) -> (r: i64)
    requires
        -MAX_SPEED <= v <= MAX_SPEED,
        0 <= dt <= MAX_DELTA,
    ensures
        r == displacement(v as int, dt as int),
        -MAX_STEP <= r <= MAX_STEP,
{
    proof {
        assert((MAX_SPEED * MAX_DELTA) / (MICROS_PER_SEC as int) == MAX_STEP);
    }
    if v >= 0 {
        proof {
            assert(v * dt <= MAX_SPEED * MAX_DELTA && v * dt >= 0) by (nonlinear_arith)
                requires
                    0 <= v <= MAX_SPEED,
                    0 <= dt <= MAX_DELTA,
            ;
            vstd::arithmetic::div_mod::lemma_div_is_ordered(
                v * dt,
                MAX_SPEED * MAX_DELTA,
                MICROS_PER_SEC as int,
            );
            vstd::arithmetic::div_mod::lemma_div_pos_is_pos(v * dt, MICROS_PER_SEC as int);
        }
        (v * dt) / MICROS_PER_SEC
    } else {
        let m = -v;
        proof {
            assert(m * dt <= MAX_SPEED * MAX_DELTA && m * dt >= 0) by (nonlinear_arith)
                requires
                    0 <= m <= MAX_SPEED,
                    0 <= dt <= MAX_DELTA,
            ;
            vstd::arithmetic::div_mod::lemma_div_is_ordered(
                m * dt,
                MAX_SPEED * MAX_DELTA,
                MICROS_PER_SEC as int,
            );
            vstd::arithmetic::div_mod::lemma_div_pos_is_pos(m * dt, MICROS_PER_SEC as int);
        }
        -((m * dt) / MICROS_PER_SEC)
    }
}

/// The pass that advances every body's position by `velocity * delta`.
pub struct MovementSystem;

impl MovementSystem {
    /// Integrates every body in the store over `delta_micros` microseconds:
    /// each position gains `velocity * delta`, componentwise; velocities and
    /// sprites are untouched. A zero delta is a no-op, not an error.
    pub fn run(bodies: &mut Vec<Body>, delta_micros: i64)
        requires
            0 <= delta_micros <= MAX_DELTA,
            forall|i: int| 0 <= i < old(bodies)@.len() ==> {
                &&& (#[trigger] old(bodies)@[i]).velocity.wf()
                &&& -MAX_EXTENT <= old(bodies)@[i].x <= MAX_EXTENT
                &&& -MAX_EXTENT <= old(bodies)@[i].y <= MAX_EXTENT
            },
        ensures
            final(bodies)@ == step_all(old(bodies)@, delta_micros as int),
    {
        let n = bodies.len();
        let mut i: usize = 0;
        while i < n
            invariant
                n == bodies.len() == old(bodies)@.len(),
                0 <= i <= n,
                0 <= delta_micros <= MAX_DELTA,
                forall|j: int| 0 <= j < n ==> {
                    &&& (#[trigger] old(bodies)@[j]).velocity.wf()
                    &&& -MAX_EXTENT <= old(bodies)@[j].x <= MAX_EXTENT
                    &&& -MAX_EXTENT <= old(bodies)@[j].y <= MAX_EXTENT
                },
                forall|j: int| 0 <= j < i ==> bodies@[j]
                    == #[trigger] step_body(old(bodies)@[j], delta_micros as int),
                forall|j: int| i <= j < n ==> bodies@[j] == old(bodies)@[j],
            decreases n - i,
        {
            let b = bodies[i];
            let dx = scaled_step(b.velocity.x, delta_micros);
            let dy = scaled_step(b.velocity.y, delta_micros);
            let moved = Body { x: b.x + dx, y: b.y + dy, velocity: b.velocity, sprite: b.sprite };
            bodies[i] = moved;
            i = i + 1;
        }
        assert(bodies@ =~= step_all(old(bodies)@, delta_micros as int));
    }
}

} // verus!

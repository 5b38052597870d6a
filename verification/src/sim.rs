//! The frame scheduler: owns the entity store, the arena and the viewport
//! tracker, spawns the population, and runs the fixed pass order once per
//! tick — integrate, then reflect off the walls the freshly written
//! positions; the viewport pass touches neither and can go anywhere in
//! between.

use vstd::prelude::*;
use crate::MAX_DELTA;
use crate::MAX_SPEED;
use crate::MAX_STEP;
use crate::MICROS_PER_SEC;
use crate::POS_LIMIT;
use crate::body::Arena;
use crate::body::Body;
use crate::body::Velocity;
use crate::bounce::BounceSystem;
use crate::bounce::reflect_all;
use crate::motion::MovementSystem;
use crate::motion::displacement;
use crate::motion::step_all;
use crate::motion::step_body;
use crate::rng::fresh_rng;
use crate::rng::sample_in_range;
use crate::viewport::CameraState;
use crate::viewport::WindowResizeSystem;
use crate::viewport::camera_for;
use crate::viewport::observe_spec;

verus! {

/// One integration step never covers more than `MAX_STEP` sub-units.
pub proof fn lemma_displacement_bounded(v: int, dt: int)
    requires
        -MAX_SPEED <= v <= MAX_SPEED,
        0 <= dt <= MAX_DELTA,
    ensures
        -MAX_STEP <= displacement(v, dt) <= MAX_STEP,
{
    assert((MAX_SPEED * MAX_DELTA) / (MICROS_PER_SEC as int) == MAX_STEP);
    if v >= 0 {
        assert(v * dt <= MAX_SPEED * MAX_DELTA && v * dt >= 0) by (nonlinear_arith)
            requires
                0 <= v <= MAX_SPEED,
                0 <= dt <= MAX_DELTA,
        ;
        vstd::arithmetic::div_mod::lemma_div_is_ordered(
            v * dt,
            MAX_SPEED * MAX_DELTA,
            MICROS_PER_SEC as int,
        );
        vstd::arithmetic::div_mod::lemma_div_pos_is_pos(v * dt, MICROS_PER_SEC as int);
    } else {
        assert((-v) * dt <= MAX_SPEED * MAX_DELTA && (-v) * dt >= 0) by (nonlinear_arith)
            requires
                -MAX_SPEED <= v < 0,
                0 <= dt <= MAX_DELTA,
        ;
        vstd::arithmetic::div_mod::lemma_div_is_ordered(
            (-v) * dt,
            MAX_SPEED * MAX_DELTA,
            MICROS_PER_SEC as int,
        );
        vstd::arithmetic::div_mod::lemma_div_pos_is_pos((-v) * dt, MICROS_PER_SEC as int);
    }
}

/// The motion pass of the scheduler, over the whole frame state: it advances
/// the store and leaves the tracker alone.
pub open spec fn motion_pass(
    st: (Seq<Body>, WindowResizeSystem),
    dt: int,
) -> (Seq<Body>, WindowResizeSystem) {
    (step_all(st.0, dt), st.1)
}

/// The viewport pass of the scheduler, over the whole frame state: it feeds
/// the tracker and leaves the store alone.
pub open spec fn viewport_pass(
    st: (Seq<Body>, WindowResizeSystem),
    width: i64,
    height: i64,
) -> (Seq<Body>, WindowResizeSystem) {
    (st.0, observe_spec(st.1, width, height))
}

/// The motion pass and the viewport pass share no state, so the order they
/// run in within a tick — or running them concurrently, which realizes one
/// of these two orders — cannot change the frame state they produce.
pub proof fn lemma_pass_order_irrelevant(
    st: (Seq<Body>, WindowResizeSystem),
    dt: int,
    width: i64,
    height: i64,
)
    ensures
        viewport_pass(motion_pass(st, dt), width, height)
            == motion_pass(viewport_pass(st, width, height), dt),
{
}

/// The simulation core: the arena, the entity store, the viewport tracker,
/// and the shared sprite handle every body is drawn with.
pub struct Simulation {
    pub arena: Arena,
    pub bodies: Vec<Body>,
    pub tracker: WindowResizeSystem,
    pub sprite: u32,
}

impl Simulation {
    /// The arena is valid and every body sits inside it at a lawful speed.
    pub open spec fn wf(self) -> bool {
        &&& self.arena.wf()
        &&& forall|i: int| 0 <= i < self.bodies@.len()
            ==> (#[trigger] self.bodies@[i]).wf_in(self.arena)
    }

    /// An empty simulation over the given arena; the camera starts out sized
    /// to the arena, and the tracker has observed no viewport size yet.
    pub fn new(arena: Arena, sprite: u32) -> (r: Simulation)
        requires
            arena.wf(),
        ensures
            r.wf(),
            r.arena == arena,
            r.sprite == sprite,
            r.bodies@.len() == 0,
            !r.tracker.has_size,
            !r.tracker.dirty,
            r.tracker.camera == camera_for(arena.width, arena.height),
    {
        Simulation {
            arena,
            bodies: Vec::new(),
            tracker: WindowResizeSystem::new(arena.width, arena.height),
            sprite,
        }
    }

    /// Bulk-creates `count` bodies at the arena center, each velocity
    /// component drawn uniformly from `[-velocity_range, velocity_range]`.
    /// Existing bodies are untouched.
    pub fn spawn_bodies(&mut self, count: u32, velocity_range: i64)
        requires
            old(self).wf(),
            0 <= velocity_range <= MAX_SPEED,
            old(self).bodies@.len() + count <= usize::MAX,
        ensures
            final(self).wf(),
            final(self).arena == old(self).arena,
            final(self).sprite == old(self).sprite,
            final(self).tracker == old(self).tracker,
            final(self).bodies@.len() == old(self).bodies@.len() + count,
            forall|i: int| 0 <= i < old(self).bodies@.len()
                ==> final(self).bodies@[i] == old(self).bodies@[i],
            forall|i: int| old(self).bodies@.len() <= i < final(self).bodies@.len() ==> {
                let b = #[trigger] final(self).bodies@[i];
                &&& b.x == old(self).arena.width / 2
                &&& b.y == old(self).arena.height / 2
                &&& -velocity_range <= b.velocity.x <= velocity_range
                &&& -velocity_range <= b.velocity.y <= velocity_range
                &&& b.sprite == old(self).sprite
            },
    {
        let ghost old_len: nat = self.bodies@.len();
        let center_x = self.arena.width / 2;
        let center_y = self.arena.height / 2;
        let mut rng = fresh_rng();
        let mut k: u32 = 0;
        while k < count
            invariant
                0 <= k <= count,
                self.arena == old(self).arena,
                self.sprite == old(self).sprite,
                self.tracker == old(self).tracker,
                self.arena.wf(),
                0 <= velocity_range <= MAX_SPEED,
                center_x == self.arena.width / 2,
                center_y == self.arena.height / 2,
                old_len == old(self).bodies@.len(),
                old_len + count <= usize::MAX,
                self.bodies@.len() == old_len + k,
                forall|i: int| 0 <= i < old_len ==> self.bodies@[i] == old(self).bodies@[i],
                forall|i: int| 0 <= i < old_len
                    ==> (#[trigger] self.bodies@[i]).wf_in(self.arena),
                forall|i: int| old_len <= i < self.bodies@.len() ==> {
                    let b = #[trigger] self.bodies@[i];
                    &&& b.x == center_x
                    &&& b.y == center_y
                    &&& -velocity_range <= b.velocity.x <= velocity_range
                    &&& -velocity_range <= b.velocity.y <= velocity_range
                    &&& b.sprite == self.sprite
                    &&& b.wf_in(self.arena)
                },
            decreases count - k,
        {
            let vx = sample_in_range(&mut rng, -velocity_range, velocity_range);
            let vy = sample_in_range(&mut rng, -velocity_range, velocity_range);
            let b = Body {
                x: center_x,
                y: center_y,
                velocity: Velocity { x: vx, y: vy },
                sprite: self.sprite,
            };
            self.bodies.push(b);
            k = k + 1;
        }
    }

    /// Advances the simulation by one frame: every body moves by its velocity
    /// times the delta and is then reflected off the arena walls, and the
    /// viewport tracker observes the current render-surface size. The store
    /// update depends only on the prior store, the arena and the delta; the
    /// tracker update only on the prior tracker and the observed size.
    pub fn tick(&mut self, delta_micros: i64, view_width: i64, view_height: i64)
        requires
            old(self).wf(),
            0 <= delta_micros <= MAX_DELTA,
        ensures
            final(self).wf(),
            final(self).arena == old(self).arena,
            final(self).sprite == old(self).sprite,
            final(self).bodies@ == reflect_all(
                step_all(old(self).bodies@, delta_micros as int),
                old(self).arena,
            ),
            final(self).tracker == observe_spec(old(self).tracker, view_width, view_height),
    {
        MovementSystem::run(&mut self.bodies, delta_micros);
        self.tracker.run(view_width, view_height);
        proof {
            assert forall|i: int| 0 <= i < self.bodies@.len() implies {
                &&& (#[trigger] self.bodies@[i]).velocity.wf()
                &&& -POS_LIMIT <= self.bodies@[i].x <= POS_LIMIT
                &&& -POS_LIMIT <= self.bodies@[i].y <= POS_LIMIT
            } by {
                let b = old(self).bodies@[i];
                assert(self.bodies@[i] == step_body(b, delta_micros as int));
                lemma_displacement_bounded(b.velocity.x as int, delta_micros as int);
                lemma_displacement_bounded(b.velocity.y as int, delta_micros as int);
            }
        }
        BounceSystem::run(&mut self.bodies, &self.arena);
    }

    /// How many bodies are live.
    pub fn body_count(&self) -> (n: usize)
        ensures
            n == self.bodies@.len(),
    {
        self.bodies.len()
    }

    /// One body's current state, for the renderer.
    pub fn body(&self, i: usize) -> (b: Body)
        requires
            i < self.bodies@.len(),
        ensures
            b == self.bodies@[i as int],
    {
        self.bodies[i]
    }

    /// The camera bounds as of the last stable viewport size.
    pub fn camera(&self) -> (c: CameraState)
        ensures
            c == self.tracker.camera,
    {
        self.tracker.camera
    }
}

} // verus!

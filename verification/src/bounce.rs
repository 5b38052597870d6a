//! Boundary reflection: after integration, a body past an arena wall is
//! clamped just inside the wall and the offending velocity component is
//! negated. Both axes are tested every pass, independently of one another.

use vstd::prelude::*;
use crate::MAX_EXTENT;
use crate::MAX_SPEED;
use crate::POS_LIMIT;
use crate::SCALE;
use crate::body::Arena;
use crate::body::Body;
use crate::body::Velocity;

verus! {

/// One axis of the reflection pass. The high wall is tested first: at or past
/// `extent`, the position is clamped one world unit inside and the velocity
/// negated. The low wall is then tested on the possibly-clamped position: at
/// or below zero, the position is clamped to zero and the velocity negated.
pub open spec fn reflect_axis(p: int, v: int, extent: int) -> (int, int) {
    let high = if p >= extent {
        (extent - SCALE, -v)
    } else {
        (p, v)
    };
    if high.0 <= 0 {
        (0int, -high.1)
    } else {
        high
    }
}

/// One body after one reflection pass: each axis corrected independently.
pub open spec fn reflect_body(b: Body, arena: Arena) -> Body {
    let x = reflect_axis(b.x as int, b.velocity.x as int, arena.width as int);
    let y = reflect_axis(b.y as int, b.velocity.y as int, arena.height as int);
    Body {
        x: x.0 as i64,
        y: y.0 as i64,
        velocity: Velocity { x: x.1 as i64, y: y.1 as i64 },
        sprite: b.sprite,
    }
}

/// A whole store after one reflection pass.
pub open spec fn reflect_all(s: Seq<Body>, arena: Arena) -> Seq<Body> {
    s.map_values(|b: Body| reflect_body(b, arena))
}

/// A body past the high wall is clamped one unit inside it with its velocity
/// negated, and a second pass with no movement in between is then a no-op.
pub proof fn lemma_reflect_clamp_idempotent(p: int, v: int, extent: int)
    requires
        p >= extent,
        extent > SCALE,
    ensures
        reflect_axis(p, v, extent) == (extent - SCALE, -v),
        reflect_axis(extent - SCALE, -v, extent) == (extent - SCALE, -v),
{
}

/// The mirror case: a body at or below zero is clamped to zero with its
/// velocity negated, symmetrically to the high wall.
pub proof fn lemma_reflect_low_wall(p: int, v: int, extent: int)
    requires
        p <= 0,
        extent > 0,
    ensures
        reflect_axis(p, v, extent) == (0int, -v),
{
}

/// A body simultaneously past both walls has both axes corrected
/// independently in one pass: neither axis is skipped.
pub proof fn lemma_reflect_both_axes(b: Body, arena: Arena)
    requires
        b.x >= arena.width,
        b.y >= arena.height,
        arena.width > SCALE,
        arena.height > SCALE,
        arena.wf(),
        b.velocity.wf(),
    ensures
        reflect_body(b, arena).x == arena.width - SCALE,
        reflect_body(b, arena).y == arena.height - SCALE,
        reflect_body(b, arena).velocity.x == -b.velocity.x,
        reflect_body(b, arena).velocity.y == -b.velocity.y,
{
}

/// One axis of the reflection pass, in executable arithmetic.
fn bounce_axis(p: i64, v: i64, extent: i64) -> (r: (i64, i64))
    requires
        0 < extent <= MAX_EXTENT,
        -POS_LIMIT <= p <= POS_LIMIT,
        -MAX_SPEED <= v <= MAX_SPEED,
    ensures
        (r.0 as int, r.1 as int) == reflect_axis(p as int, v as int, extent as int),
        0 <= r.0 < extent,
        -MAX_SPEED <= r.1 <= MAX_SPEED,
{
    let mut np = p;
    let mut nv = v;
    if np >= extent {
        np = extent - SCALE;
        nv = -nv;
    }
    if np <= 0 {
        np = 0;
        nv = -nv;
    }
    (np, nv)
}

/// The pass that reflects every body off the arena walls.
pub struct BounceSystem;

impl BounceSystem {
    /// Tests every body against both walls of each axis: an out-of-bounds
    /// position is clamped to the wall and the velocity component negated,
    /// each axis independently. Afterwards every body sits inside the arena.
    pub fn run(bodies: &mut Vec<Body>, arena: &Arena)
        requires
            arena.wf(),
            forall|i: int| 0 <= i < old(bodies)@.len() ==> {
                &&& (#[trigger] old(bodies)@[i]).velocity.wf()
                &&& -POS_LIMIT <= old(bodies)@[i].x <= POS_LIMIT
                &&& -POS_LIMIT <= old(bodies)@[i].y <= POS_LIMIT
            },
        ensures
            final(bodies)@ == reflect_all(old(bodies)@, *arena),
            forall|i: int| 0 <= i < final(bodies)@.len()
                ==> (#[trigger] final(bodies)@[i]).wf_in(*arena),
    {
        let n = bodies.len();
        let mut i: usize = 0;
        while i < n
            invariant
                n == bodies.len() == old(bodies)@.len(),
                0 <= i <= n,
                arena.wf(),
                forall|j: int| 0 <= j < n ==> {
                    &&& (#[trigger] old(bodies)@[j]).velocity.wf()
                    &&& -POS_LIMIT <= old(bodies)@[j].x <= POS_LIMIT
                    &&& -POS_LIMIT <= old(bodies)@[j].y <= POS_LIMIT
                },
                forall|j: int| 0 <= j < i ==> bodies@[j]
                    == #[trigger] reflect_body(old(bodies)@[j], *arena),
                forall|j: int| 0 <= j < i ==> (#[trigger] bodies@[j]).wf_in(*arena),
                forall|j: int| i <= j < n ==> bodies@[j] == old(bodies)@[j],
            decreases n - i,
        {
            let b = bodies[i];
            let (nx, nvx) = bounce_axis(b.x, b.velocity.x, arena.width);
            let (ny, nvy) = bounce_axis(b.y, b.velocity.y, arena.height);
            let bounced = Body {
                x: nx,
                y: ny,
                velocity: Velocity { x: nvx, y: nvy },
                sprite: b.sprite,
            };
            bodies[i] = bounced;
            i = i + 1;
        }
        assert(bodies@ =~= reflect_all(old(bodies)@, *arena));
    }
}

} // verus!

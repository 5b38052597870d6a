//! The data model: the arena bounds, a body's velocity, and the body itself.

use vstd::prelude::*;
use crate::MAX_EXTENT;
use crate::MAX_SPEED;

verus! {

/// Why a configuration was rejected when the simulation was set up.
#[derive(Clone, Copy, Debug, PartialEq, Eq, Structural)]
pub enum ConfigError {
    /// An arena extent was zero or negative.
    InvalidExtent,
}

/// Signed speed per axis, in sub-units per second.
#[derive(Clone, Copy, Debug, PartialEq, Eq, Structural)]
pub struct Velocity {
    pub x: i64,
    pub y: i64,
}

impl Velocity {
    /// Both components stay within the accepted speed range, so that
    /// integration products and sign flips never overflow.
    pub open spec fn wf(self) -> bool {
        &&& -MAX_SPEED <= self.x <= MAX_SPEED
        &&& -MAX_SPEED <= self.y <= MAX_SPEED
    }
}

/// One simulated entity: a world-space position, a velocity, and the handle
/// of the shared sprite it is drawn with.
#[derive(Clone, Copy, Debug, PartialEq, Eq, Structural)]
pub struct Body {
    /// World-space position, in sub-units.
    pub x: i64,
    pub y: i64,
    pub velocity: Velocity,
    /// Opaque handle of the shared visual resource; owned by the renderer.
    pub sprite: u32,
}

/// Immutable simulation bounds. Bodies move within `[0, width] x [0, height]`.
#[derive(Clone, Copy, Debug, PartialEq, Eq, Structural)]
pub struct Arena {
    /// Horizontal extent in sub-units.
    pub width: i64,
    /// Vertical extent in sub-units.
    pub height: i64,
}

impl Arena {
    /// Both extents are positive and within the accepted range.
    pub open spec fn wf(self) -> bool {
        &&& 0 < self.width <= MAX_EXTENT
        &&& 0 < self.height <= MAX_EXTENT
    }

    /// Builds arena bounds, rejecting a zero or negative extent.
    pub fn new(width: i64, height: i64) -> (r: Result<Arena, ConfigError>)
        requires
            width <= MAX_EXTENT,
            height <= MAX_EXTENT,
        ensures
            r is Ok <==> (width > 0 && height > 0),
            r matches Ok(a) ==> a == (Arena { width, height }) && a.wf(),
            r is Err ==> r == Err::<Arena, ConfigError>(ConfigError::InvalidExtent),
    {
        if width > 0 && height > 0 {
            Ok(Arena { width, height })
        } else {
            Err(ConfigError::InvalidExtent)
        }
    }
}

impl Body {
    /// The body sits inside the arena and its velocity is in range.
    pub open spec fn wf_in(self, arena: Arena) -> bool {
        &&& 0 <= self.x < arena.width
        &&& 0 <= self.y < arena.height
        &&& self.velocity.wf()
    }
}

} // verus!

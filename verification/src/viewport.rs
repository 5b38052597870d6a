//! Viewport tracking: each tick the tracker reads the logical render-surface
//! size and, one tick after the size settles, rebuilds the camera projection
//! bounds. A single-tick debounce keeps a transient size seen only once from
//! forcing a rebuild.

use vstd::prelude::*;
use crate::CAMERA_FAR;
use crate::CAMERA_NEAR;

verus! {

/// Orthographic projection bounds, derived from the last stable viewport
/// size: never edited by hand, always recomputed whole.
#[derive(Clone, Copy, Debug, PartialEq, Eq, Structural)]
pub struct CameraState {
    pub left: i64,
    pub right: i64,
    pub bottom: i64,
    pub top: i64,
    pub near: i64,
    pub far: i64,
}

/// The projection bounds that fit a viewport of the given size: the view
/// spans `[0, width]` by `[0, height]`, with the fixed near and far planes.
pub open spec fn camera_for(width: i64, height: i64) -> CameraState {
    CameraState {
        left: 0,
        right: width,
        bottom: 0,
        top: height,
        near: CAMERA_NEAR,
        far: CAMERA_FAR,
    }
}

/// The pass that watches the render-surface size and rebuilds the camera
/// once per stable size.
///
/// A two-state machine: with `dirty` clear the tracker is stable; a size that
/// differs from the last one seen makes it pending (`dirty` set, candidate
/// size recorded, no rebuild yet); seeing the candidate size a second time
/// rebuilds the camera and returns to stable. Until the first observation
/// `has_size` is clear: the recorded size is not meaningful yet and any
/// observed size counts as a change.
pub struct WindowResizeSystem {
    /// Whether any size has been observed since construction.
    pub has_size: bool,
    /// The last observed width, in sub-units; meaningful once `has_size`.
    pub last_width: i64,
    /// The last observed height, in sub-units; meaningful once `has_size`.
    pub last_height: i64,
    /// Whether the last observed size still awaits confirmation.
    pub dirty: bool,
    /// The camera bounds as of the last rebuild.
    pub camera: CameraState,
}

/// The tracker after observing one fresh size. A size that differs from the
/// last one seen (or the first size ever seen) only records the candidate and
/// marks it pending; the same size seen again while pending rebuilds the
/// camera exactly once; a stable repeat does nothing.
pub open spec fn observe_spec(t: WindowResizeSystem, width: i64, height: i64) -> WindowResizeSystem {
    if !t.has_size || t.last_width != width || t.last_height != height {
        WindowResizeSystem {
            has_size: true,
            last_width: width,
            last_height: height,
            dirty: true,
            camera: t.camera,
        }
    } else if t.dirty {
        WindowResizeSystem {
            has_size: t.has_size,
            last_width: t.last_width,
            last_height: t.last_height,
            dirty: false,
            camera: camera_for(width, height),
        }
    } else {
        t
    }
}

impl WindowResizeSystem {
    /// A fresh tracker: no size observed yet, camera sized to the given
    /// initial surface.
    pub fn new(initial_width: i64, initial_height: i64) -> (r: WindowResizeSystem)
        ensures
            !r.has_size,
            !r.dirty,
            r.camera == camera_for(initial_width, initial_height),
    {
        WindowResizeSystem {
            has_size: false,
            last_width: 0,
            last_height: 0,
            dirty: false,
            camera: camera_for_exec(initial_width, initial_height),
        }
    }

    /// Feeds the tracker the size read off the render surface this tick.
    pub fn run(&mut self, width: i64, height: i64)
        ensures
            *final(self) == observe_spec(*old(self), width, height),
    {
        if !self.has_size || self.last_width != width || self.last_height != height {
            self.has_size = true;
            self.last_width = width;
            self.last_height = height;
            self.dirty = true;
        } else if self.dirty {
            self.camera = camera_for_exec(width, height);
            self.dirty = false;
        }
    }
}

/// Builds the camera bounds for a viewport size, as `camera_for` states.
fn camera_for_exec(width: i64, height: i64) -> (c: CameraState)
    ensures
        c == camera_for(width, height),
{
    CameraState { left: 0, right: width, bottom: 0, top: height, near: CAMERA_NEAR, far: CAMERA_FAR }
}

/// Debounce: a tracker stable at size `A`, fed the sizes `A`, then `B`, then
/// `B` (with `B` different from `A`), rebuilds the camera exactly once, after
/// the second `B` — the repeat of `A` and the first `B` leave it untouched.
pub proof fn lemma_debounce(t: WindowResizeSystem, aw: i64, ah: i64, bw: i64, bh: i64)
    requires
        t.has_size,
        !t.dirty,
        t.last_width == aw,
        t.last_height == ah,
        (bw, bh) != (aw, ah),
    ensures
        observe_spec(t, aw, ah) == t,
        observe_spec(observe_spec(t, aw, ah), bw, bh).camera == t.camera,
        observe_spec(observe_spec(t, aw, ah), bw, bh).dirty,
        observe_spec(observe_spec(observe_spec(t, aw, ah), bw, bh), bw, bh).camera
            == camera_for(bw, bh),
        !observe_spec(observe_spec(observe_spec(t, aw, ah), bw, bh), bw, bh).dirty,
{
}

} // verus!

use crate::anim::{Animate, Point, COORD_MAX, ONE, POS_MAX};
use vstd::prelude::*;

verus! {

/// Side of one world unit in pixels: a sprite of 6 pixels drawn at scale 8.
pub const WORLD_UNIT: i64 = 6 * 8;

/// Discrete camera position on the grid; the single source of truth for
/// where the camera should come to rest.
#[derive(Clone, Copy, PartialEq, Eq, Structural, Debug)]
pub struct GridPos {
    pub x: i64,
    pub y: i64,
}

/// Window dimensions in pixels; both are kept at least 1 so that the
/// transform never divides by zero.
#[derive(Clone, Copy, PartialEq, Eq, Structural, Debug)]
pub struct ScreenSize {
    pub width: u32,
    pub height: u32,
}

/// An exact ratio of two integers; the denominator is always positive.
#[derive(Clone, Copy, PartialEq, Eq, Structural, Debug)]
pub struct Frac {
    pub num: i64,
    pub den: i64,
}

/// The transform a frame is drawn with, recomputed fresh on every tick:
/// a per-axis scale and offset, as exact ratios.
#[derive(Clone, Copy, PartialEq, Eq, Structural, Debug)]
pub struct CameraTransform {
    pub scale_x: Frac,
    pub scale_y: Frac,
    pub offset_x: Frac,
    pub offset_y: Frac,
}

/// The camera: its grid position, the window size, and the animation
/// easing the displayed point toward the position.
#[derive(Clone, Copy, PartialEq, Eq, Structural, Debug)]
pub struct Camera {
    pub position: GridPos,
    pub size: ScreenSize,
    pub anim: Animate,
}

impl Camera {
    /// The animation always aims at the grid position expressed in
    /// fixed-point world space, and the window is never degenerate.
    pub open spec fn wf(self) -> bool {
        &&& self.anim.wf()
        &&& -POS_MAX <= self.position.x <= POS_MAX
        &&& -POS_MAX <= self.position.y <= POS_MAX
        &&& self.anim.target.x == self.position.x * ONE
        &&& self.anim.target.y == self.position.y * ONE
        &&& self.size.width >= 1
        &&& self.size.height >= 1
    }

    /// The transform belonging to the current state: `scale` is one world
    /// unit over the window size, `offset` is the displayed point scaled
    /// by it and doubled for the [-1, 1] clip-space span.
    pub open spec fn transform_spec(self) -> CameraTransform {
        CameraTransform {
            scale_x: Frac { num: WORLD_UNIT, den: self.size.width as i64 },
            scale_y: Frac { num: WORLD_UNIT, den: self.size.height as i64 },
            offset_x: Frac {
                num: (2 * WORLD_UNIT * self.anim.point_x()) as i64,
                den: (self.size.width * ONE) as i64,
            },
            offset_y: Frac {
                num: (2 * WORLD_UNIT * self.anim.point_y()) as i64,
                den: (self.size.height * ONE) as i64,
            },
        }
    }

    /// A camera at rest on the grid origin, with a non-degenerate
    /// placeholder window of one pixel a side.
    pub fn new() -> (r: Camera)
        ensures
            r.wf(),
            r.position == (GridPos { x: 0, y: 0 }),
            r.size == (ScreenSize { width: 1, height: 1 }),
            r.anim.t == ONE,
            r.anim.point_x() == 0,
            r.anim.point_y() == 0,
    {
        Camera {
            position: GridPos { x: 0, y: 0 },
            size: ScreenSize { width: 1, height: 1 },
            anim: Animate::new(Point { x: 0, y: 0 }),
        }
    }

    /// Applies a grid delta to the position and retargets the animation at
    /// it; the displayed point does not jump.
    pub fn handle_move(&mut self, delta: GridPos)
        requires
            old(self).wf(),
            -POS_MAX <= old(self).position.x + delta.x <= POS_MAX,
            -POS_MAX <= old(self).position.y + delta.y <= POS_MAX,
        ensures
            final(self).wf(),
            final(self).position.x == old(self).position.x + delta.x,
            final(self).position.y == old(self).position.y + delta.y,
            final(self).size == old(self).size,
            final(self).anim.t == 0,
            final(self).anim.point_x() == old(self).anim.point_x(),
            final(self).anim.point_y() == old(self).anim.point_y(),
    {
        let np = GridPos { x: self.position.x + delta.x, y: self.position.y + delta.y };
        self.position = np;
        self.anim = self.anim.with_target(Point { x: np.x * ONE, y: np.y * ONE });
    }

    /// Replaces the window size, clamping a zero dimension to 1.
    pub fn handle_resize(&mut self, width: u32, height: u32)
        requires
            old(self).wf(),
        ensures
            final(self).wf(),
            final(self).size.width == (if width == 0 { 1u32 } else { width }),
            final(self).size.height == (if height == 0 { 1u32 } else { height }),
            final(self).position == old(self).position,
            final(self).anim == old(self).anim,
    {
        let w = if width == 0 { 1 } else { width };
        let h = if height == 0 { 1 } else { height };
        self.size = ScreenSize { width: w, height: h };
    }

    /// Advances the animation by `dt` raw ticks and returns the transform
    /// for exactly this frame.
    pub fn tick(&mut self, dt: i64) -> (tr: CameraTransform)
        requires
            old(self).wf(),
            dt <= i64::MAX - ONE,
        ensures
            final(self).wf(),
            final(self).position == old(self).position,
            final(self).size == old(self).size,
            final(self).anim == old(self).anim.advanced(dt as int),
            tr == final(self).transform_spec(),
    {
        self.anim = self.anim.advance(dt);
        let p = self.anim.point();
        let w = self.size.width as i64;
        let h = self.size.height as i64;
        CameraTransform {
            scale_x: Frac { num: WORLD_UNIT, den: w },
            scale_y: Frac { num: WORLD_UNIT, den: h },
            offset_x: Frac { num: 2 * WORLD_UNIT * p.x, den: w * ONE },
            offset_y: Frac { num: 2 * WORLD_UNIT * p.y, den: h * ONE },
        }
    }
}

/// However the elapsed time is split into non-negative ticks, once their
/// steps sum to a full animation duration past the current progress, the
/// camera has settled exactly on its grid position in world units.
pub proof fn lemma_redraws_settle(c: Camera, dts: Seq<int>)
    requires
        c.wf(),
        forall|i: int| 0 <= i < dts.len() ==> dts[i] >= 0,
        c.anim.t + crate::anim::total_of(dts) >= ONE,
    ensures
        c.anim.advanced_through(dts).t == ONE,
        c.anim.advanced_through(dts).point_x() == c.position.x * ONE,
        c.anim.advanced_through(dts).point_y() == c.position.y * ONE,
{
    crate::anim::lemma_advance_sequence_settles(c.anim, dts);
}

/// Once its animation has run to completion, the camera displays exactly
/// its grid position expressed in world units.
pub proof fn lemma_settles_on_the_grid(c: Camera)
    requires
        c.wf(),
        c.anim.t == ONE,
    ensures
        c.anim.point_x() == c.position.x * ONE,
        c.anim.point_y() == c.position.y * ONE,
{
    crate::anim::lemma_advance_at_rest(c.anim, 0);
}

} // verus!

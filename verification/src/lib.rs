//! A camera panning over a tiled sprite: a quartic ease-out animation
//! engine on exact fixed-point coordinates, the camera controller deriving
//! each frame's scale/offset transform, the cooperative event router that
//! turns redraw, resize, key and close events into state updates, and the
//! sprite-sheet decoding at startup.

pub mod anim;
pub mod camera;
pub mod router;
pub mod sprite;

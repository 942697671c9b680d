use crate::anim::{ONE, POS_MAX};
use crate::camera::{Camera, CameraTransform, GridPos};
use vstd::prelude::*;

verus! {

/// The four movement keys the camera is bound to.
#[derive(Clone, Copy, PartialEq, Eq, Structural, Debug)]
pub enum MoveKey {
    KeyW,
    KeyS,
    KeyA,
    KeyD,
}

/// One resumption of a suspended loop: a redraw carrying the elapsed time,
/// a window resize, a key press, or the close request.
#[derive(Clone, Copy, PartialEq, Eq, Structural, Debug)]
pub enum Event {
    Redraw { dt: i64 },
    Resized { width: u32, height: u32 },
    Pressed { key: MoveKey },
    CloseRequested,
}

/// What the caller must do after a step: draw the frame with the given
/// transform, keep waiting, or tear everything down.
#[derive(Clone, Copy, PartialEq, Eq, Structural, Debug)]
pub enum Action {
    Render { transform: CameraTransform },
    Continue,
    Stop,
}

/// The router has one state and one exit: it runs until the close request
/// wins the race, and then it is done.
#[derive(Clone, Copy, PartialEq, Eq, Structural, Debug)]
pub enum Status {
    Running,
    Terminated,
}

/// The whole shared state of the event loops: every mutation of it is one
/// complete replacement inside a single `step`, so a branch cancelled at a
/// suspension point can never leave it half-written.
#[derive(Clone, Copy, PartialEq, Eq, Structural, Debug)]
pub struct Router {
    pub camera: Camera,
    pub status: Status,
}

/// The fixed grid delta each movement key applies.
pub open spec fn key_delta(key: MoveKey) -> GridPos {
    match key {
        MoveKey::KeyW => GridPos { x: 0, y: -1i64 },
        MoveKey::KeyS => GridPos { x: 0, y: 1 },
        MoveKey::KeyA => GridPos { x: 1, y: 0 },
        MoveKey::KeyD => GridPos { x: -1i64, y: 0 },
    }
}

impl Router {
    pub open spec fn wf(self) -> bool {
        self.camera.wf()
    }

    /// A running router over a fresh camera.
    pub fn new() -> (r: Router)
        ensures
            r.wf(),
            r.status == Status::Running,
            r.camera.position == (GridPos { x: 0, y: 0 }),
            r.camera.size.width == 1,
            r.camera.size.height == 1,
            r.camera.anim.t == ONE,
            r.camera.anim.point_x() == 0,
            r.camera.anim.point_y() == 0,
    {
        Router { camera: Camera::new(), status: Status::Running }
    }

    /// Handles the event whose branch won this round. A redraw advances the
    /// animation and yields the transform for exactly this frame; a resize
    /// and a key press update their one cell; the close request terminates
    /// the router and touches no cell at all.
    pub fn step(&mut self, event: Event) -> (a: Action)
        requires
            old(self).wf(),
            old(self).status == Status::Running,
            event is Pressed ==> -POS_MAX < old(self).camera.position.x < POS_MAX && -POS_MAX
                < old(self).camera.position.y < POS_MAX,
            event matches Event::Redraw { dt } ==> dt <= i64::MAX - ONE,
        ensures
            final(self).wf(),
            match event {
                Event::Redraw { dt } => {
                    &&& final(self).status == Status::Running
                    &&& final(self).camera.position == old(self).camera.position
                    &&& final(self).camera.size == old(self).camera.size
                    &&& final(self).camera.anim == old(self).camera.anim.advanced(dt as int)
                    &&& a == (Action::Render { transform: final(self).camera.transform_spec() })
                },
                Event::Resized { width, height } => {
                    &&& final(self).status == Status::Running
                    &&& final(self).camera.position == old(self).camera.position
                    &&& final(self).camera.anim == old(self).camera.anim
                    &&& final(self).camera.size.width == (if width == 0 { 1u32 } else { width })
                    &&& final(self).camera.size.height == (if height == 0 { 1u32 } else { height })
                    &&& a == Action::Continue
                },
                Event::Pressed { key } => {
                    &&& final(self).status == Status::Running
                    &&& final(self).camera.size == old(self).camera.size
                    &&& final(self).camera.position.x == old(self).camera.position.x + key_delta(key).x
                    &&& final(self).camera.position.y == old(self).camera.position.y + key_delta(key).y
                    &&& final(self).camera.anim.t == 0
                    &&& final(self).camera.anim.point_x() == old(self).camera.anim.point_x()
                    &&& final(self).camera.anim.point_y() == old(self).camera.anim.point_y()
                    &&& a == Action::Continue
                },
                Event::CloseRequested => {
                    &&& final(self).status == Status::Terminated
                    &&& final(self).camera == old(self).camera
                    &&& a == Action::Stop
                },
            },
    {
        match event {
            Event::Redraw { dt } => {
                let mut cam = self.camera;
                let tr = cam.tick(dt);
                self.camera = cam;
                Action::Render { transform: tr }
            },
            Event::Resized { width, height } => {
                let mut cam = self.camera;
                cam.handle_resize(width, height);
                self.camera = cam;
                Action::Continue
            },
            Event::Pressed { key } => {
                let d = match key {
                    MoveKey::KeyW => GridPos { x: 0, y: -1 },
                    MoveKey::KeyS => GridPos { x: 0, y: 1 },
                    MoveKey::KeyA => GridPos { x: 1, y: 0 },
                    MoveKey::KeyD => GridPos { x: -1, y: 0 },
                };
                let mut cam = self.camera;
                cam.handle_move(d);
                self.camera = cam;
                Action::Continue
            },
            Event::CloseRequested => {
                self.status = Status::Terminated;
                Action::Stop
            },
        }
    }
}

} // verus!

//! The camera: a parameter set mutated by discrete pan, rotate and zoom
//! commands.  Scalars are fixed-point integers in micro-units (one unit is a
//! millionth), so every transition is exact.  The up/right basis is derived
//! from the accumulated rotation angle alone — the context layer computes
//! its sine and cosine when it builds the view matrix — so repeated rotation
//! cannot drift the basis.
use vstd::prelude::*;

verus! {

/// One whole unit in the fixed-point micro scale.
pub const MICRO: i64 = 1_000_000;

/// Lower zoom bound (0.001 in micro-units); also the near plane.
pub const MIN_ZOOM_LEVEL: i64 = 1_000;

/// Upper zoom bound (20.0 in micro-units); also the far plane.
pub const MAX_ZOOM_LEVEL: i64 = 20_000_000;

/// How far one pan command moves the camera (0.3 in micro-units).
pub const PAN_SPEED: i64 = 300_000;

/// How far one zoom command moves along the view axis (0.3 in micro-units).
pub const ZOOM_SPEED: i64 = 300_000;

/// The angle one rotate command accumulates (0.1 radians in micro-units).
pub const ROTATION_SPEED: i64 = 100_000;

/// The field of view for the fixed aspect ratio of 1: `atan2(1, 1) * 2`,
/// a quarter turn, in micro-radians.
pub const FOV_MICRO: i64 = 1_570_796;

/// A point or direction with fixed-point micro-unit components.
#[derive(Clone, Copy, PartialEq, Eq, Structural, Debug)]
pub struct Vec3i {
    pub x: i64,
    pub y: i64,
    pub z: i64,
}

/// A discrete camera command, decoupled from any input-device encoding.
#[derive(Clone, Copy, PartialEq, Eq, Structural, Debug)]
pub enum CameraCommand {
    PanUp,
    PanDown,
    PanLeft,
    PanRight,
    RotateCw,
    RotateCcw,
    ZoomIn,
    ZoomOut,
}

/// What the camera hands the context layer to build the view matrix: a
/// right-handed look-at from `eye` toward `target` on the canvas plane,
/// with the up basis `(sin rotation, cos rotation, 0)`.
#[derive(Clone, Copy, PartialEq, Eq, Structural, Debug)]
pub struct ViewParams {
    pub eye: Vec3i,
    pub target: Vec3i,
    pub rotation: i64,
}

/// What the camera hands the context layer to build the projection matrix:
/// a perspective projection with near/far pinned to the zoom limits, so the
/// projection cannot degenerate while the zoom invariant holds.
#[derive(Clone, Copy, PartialEq, Eq, Structural, Debug)]
pub struct ProjectionParams {
    pub aspect: i64,
    pub fov: i64,
    pub znear: i64,
    pub zfar: i64,
}

/// `v` clamped into `[MIN_ZOOM_LEVEL, MAX_ZOOM_LEVEL]`.
pub open spec fn clamp_zoom(v: int) -> int {
    if v < MIN_ZOOM_LEVEL as int {
        MIN_ZOOM_LEVEL as int
    } else if v > MAX_ZOOM_LEVEL as int {
        MAX_ZOOM_LEVEL as int
    } else {
        v
    }
}

/// `a + b` held inside the i64 range.
pub open spec fn sat_add(a: int, b: int) -> int {
    if a + b > i64::MAX as int {
        i64::MAX as int
    } else if a + b < i64::MIN as int {
        i64::MIN as int
    } else {
        a + b
    }
}

/// Saturating i64 addition; the exec twin of `sat_add`.
pub fn add_sat(a: i64, b: i64) -> (r: i64)
    ensures
        r as int == sat_add(a as int, b as int),
{
    if b >= 0 {
        if a > i64::MAX - b {
            i64::MAX
        } else {
            a + b
        }
    } else {
        if a < i64::MIN - b {
            i64::MIN
        } else {
            a + b
        }
    }
}

#[derive(Clone, Copy, PartialEq, Eq, Structural, Debug)]
pub struct Camera {
    /// Where the camera stands; `z` is the zoom depth.
    pub Position: Vec3i,
    /// Accumulated rotation angle in micro-radians; the up/right basis is
    /// `(sin, cos, 0)` and `(cos, -sin, 0)` of this angle.
    pub Rotation: i64,
    /// Field of view in micro-radians.
    pub Fov: i64,
    /// Near plane, pinned to the lower zoom bound.
    pub ZNear: i64,
    /// Far plane, pinned to the upper zoom bound.
    pub ZFar: i64,
    pub orthoGraphicWidth: i64,
}

impl Camera {
    /// The camera invariant: the zoom depth stays within the zoom bounds.
    pub open spec fn wf(self) -> bool {
        MIN_ZOOM_LEVEL as int <= self.Position.z as int <= MAX_ZOOM_LEVEL as int
    }

    pub fn New(orthoWidth: i64) -> (c: Camera)
        ensures
            c.Position == (Vec3i { x: 0, y: 0, z: (MICRO + MIN_ZOOM_LEVEL) as i64 }),
            c.Rotation == 0,
            c.Fov == FOV_MICRO,
            c.ZNear == MIN_ZOOM_LEVEL,
            c.ZFar == MAX_ZOOM_LEVEL,
            c.orthoGraphicWidth == orthoWidth,
            c.wf(),
    {
        Camera {
            Position: Vec3i { x: 0, y: 0, z: MICRO + MIN_ZOOM_LEVEL },
            Rotation: 0,
            Fov: FOV_MICRO,
            ZNear: MIN_ZOOM_LEVEL,
            ZFar: MAX_ZOOM_LEVEL,
            orthoGraphicWidth: orthoWidth,
        }
    }

    /// Moves the camera on the canvas plane; the components saturate at the
    /// integer bounds and the depth is untouched.
    pub fn Pan(&mut self, dx: i64, dy: i64)
        ensures
            final(self).Position.x as int == sat_add(old(self).Position.x as int, dx as int),
            final(self).Position.y as int == sat_add(old(self).Position.y as int, dy as int),
            final(self).Position.z == old(self).Position.z,
            final(self).Rotation == old(self).Rotation,
            final(self).Fov == old(self).Fov,
            final(self).ZNear == old(self).ZNear,
            final(self).ZFar == old(self).ZFar,
            final(self).orthoGraphicWidth == old(self).orthoGraphicWidth,
            old(self).wf() ==> final(self).wf(),
    {
        self.Position.x = add_sat(self.Position.x, dx);
        self.Position.y = add_sat(self.Position.y, dy);
    }

    /// Accumulates `delta` into the rotation angle, from which the up/right
    /// basis is recomputed; the accumulator wraps at the integer boundary.
    pub fn Rotate(&mut self, delta: i64)
        ensures
            final(self).Rotation == vstd::wrapping::i64_specs::wrapping_add(
                old(self).Rotation,
                delta,
            ),
            final(self).Position == old(self).Position,
            final(self).Fov == old(self).Fov,
            final(self).ZNear == old(self).ZNear,
            final(self).ZFar == old(self).ZFar,
            final(self).orthoGraphicWidth == old(self).orthoGraphicWidth,
            old(self).wf() ==> final(self).wf(),
    {
        self.Rotation = self.Rotation.wrapping_add(delta);
    }

    /// Moves the camera along the view axis; the resulting depth is exactly
    /// the unbounded sum clamped into `[MIN_ZOOM_LEVEL, MAX_ZOOM_LEVEL]`.
    pub fn Zoom(&mut self, delta: i64)
        ensures
            final(self).Position.z as int == clamp_zoom(
                old(self).Position.z as int + delta as int,
            ),
            final(self).Position.x == old(self).Position.x,
            final(self).Position.y == old(self).Position.y,
            final(self).Rotation == old(self).Rotation,
            final(self).Fov == old(self).Fov,
            final(self).ZNear == old(self).ZNear,
            final(self).ZFar == old(self).ZFar,
            final(self).orthoGraphicWidth == old(self).orthoGraphicWidth,
            final(self).wf(),
    {
        let moved = add_sat(self.Position.z, delta);
        self.Position.z = if moved < MIN_ZOOM_LEVEL {
            MIN_ZOOM_LEVEL
        } else if moved > MAX_ZOOM_LEVEL {
            MAX_ZOOM_LEVEL
        } else {
            moved
        };
    }

    /// Applies one discrete command.
    pub fn Apply(&mut self, cmd: CameraCommand)
        ensures
            *final(self) == spec_camera_step(*old(self), cmd),
            old(self).wf() ==> final(self).wf(),
    {
        match cmd {
            CameraCommand::PanUp => self.Pan(0, PAN_SPEED),
            CameraCommand::PanDown => self.Pan(0, -PAN_SPEED),
            CameraCommand::PanLeft => self.Pan(-PAN_SPEED, 0),
            CameraCommand::PanRight => self.Pan(PAN_SPEED, 0),
            CameraCommand::RotateCw => self.Rotate(ROTATION_SPEED),
            CameraCommand::RotateCcw => self.Rotate(-ROTATION_SPEED),
            CameraCommand::ZoomIn => self.Zoom(-ZOOM_SPEED),
            CameraCommand::ZoomOut => self.Zoom(ZOOM_SPEED),
        }
    }

    /// The look-at parameters: from the position toward its projection on
    /// the canvas plane, with the basis angle.
    pub fn GetViewMatrix(&self) -> (v: ViewParams)
        ensures
            v.eye == self.Position,
            v.target == (Vec3i { x: self.Position.x, y: self.Position.y, z: 0 }),
            v.rotation == self.Rotation,
    {
        ViewParams {
            eye: self.Position,
            target: Vec3i { x: self.Position.x, y: self.Position.y, z: 0 },
            rotation: self.Rotation,
        }
    }

    /// The perspective parameters: unit aspect, the field of view derived
    /// from it, and near/far pinned to the zoom limits.
    pub fn GetProjectionMatrix(&self) -> (p: ProjectionParams)
        ensures
            p == (ProjectionParams {
                aspect: MICRO,
                fov: FOV_MICRO,
                znear: MIN_ZOOM_LEVEL,
                zfar: MAX_ZOOM_LEVEL,
            }),
    {
        ProjectionParams {
            aspect: MICRO,
            fov: FOV_MICRO,
            znear: MIN_ZOOM_LEVEL,
            zfar: MAX_ZOOM_LEVEL,
        }
    }
}

/// The command a pressed key issues, if any: `S`/`W`/`D`/`A` pan the
/// camera on the canvas plane, `E`/`R`
/// rotate, and `Q`/tab zoom.
pub open spec fn spec_command_of_key(key: u32) -> Option<CameraCommand> {
    if key == crate::events::KEY_S {
        Some(CameraCommand::PanUp)
    } else if key == crate::events::KEY_W {
        Some(CameraCommand::PanDown)
    } else if key == crate::events::KEY_D {
        Some(CameraCommand::PanLeft)
    } else if key == crate::events::KEY_A {
        Some(CameraCommand::PanRight)
    } else if key == crate::events::KEY_E {
        Some(CameraCommand::RotateCw)
    } else if key == crate::events::KEY_R {
        Some(CameraCommand::RotateCcw)
    } else if key == crate::events::KEY_Q {
        Some(CameraCommand::ZoomOut)
    } else if key == crate::events::KEY_TAB {
        Some(CameraCommand::ZoomIn)
    } else {
        None
    }
}

/// The camera after an application event: a key press bound to a command
/// applies it; everything else leaves the camera alone.
pub open spec fn spec_camera_on_event(c: Camera, event: crate::events::Event) -> Camera {
    match event {
        crate::events::Event::KeyPressed(k) => match spec_command_of_key(k.Key) {
            Some(cmd) => spec_camera_step(c, cmd),
            None => c,
        },
        _ => c,
    }
}

impl Camera {
    /// Applies the camera command bound to a pressed key, if the event is
    /// such a key press; any other event leaves the camera untouched.
    pub fn OnEvent(&mut self, event: &crate::events::Event)
        ensures
            *final(self) == spec_camera_on_event(*old(self), *event),
            old(self).wf() ==> final(self).wf(),
    {
        if let crate::events::Event::KeyPressed(k) = event {
            let cmd = if k.Key == crate::events::KEY_S {
                Some(CameraCommand::PanUp)
            } else if k.Key == crate::events::KEY_W {
                Some(CameraCommand::PanDown)
            } else if k.Key == crate::events::KEY_D {
                Some(CameraCommand::PanLeft)
            } else if k.Key == crate::events::KEY_A {
                Some(CameraCommand::PanRight)
            } else if k.Key == crate::events::KEY_E {
                Some(CameraCommand::RotateCw)
            } else if k.Key == crate::events::KEY_R {
                Some(CameraCommand::RotateCcw)
            } else if k.Key == crate::events::KEY_Q {
                Some(CameraCommand::ZoomOut)
            } else if k.Key == crate::events::KEY_TAB {
                Some(CameraCommand::ZoomIn)
            } else {
                None
            };
            if let Some(cmd) = cmd {
                self.Apply(cmd);
            }
        }
    }
}

/// The camera after one command: the functional twin of `Camera::Apply`.
pub open spec fn spec_camera_step(c: Camera, cmd: CameraCommand) -> Camera {
    match cmd {
        CameraCommand::PanUp => (Camera {
            Position: (Vec3i {
                y: sat_add(c.Position.y as int, PAN_SPEED as int) as i64,
                ..c.Position
            }),
            ..c
        }),
        CameraCommand::PanDown => (Camera {
            Position: (Vec3i {
                y: sat_add(c.Position.y as int, -PAN_SPEED as int) as i64,
                ..c.Position
            }),
            ..c
        }),
        CameraCommand::PanLeft => (Camera {
            Position: (Vec3i {
                x: sat_add(c.Position.x as int, -PAN_SPEED as int) as i64,
                ..c.Position
            }),
            ..c
        }),
        CameraCommand::PanRight => (Camera {
            Position: (Vec3i {
                x: sat_add(c.Position.x as int, PAN_SPEED as int) as i64,
                ..c.Position
            }),
            ..c
        }),
        CameraCommand::RotateCw => (Camera {
            Rotation: vstd::wrapping::i64_specs::wrapping_add(c.Rotation, ROTATION_SPEED),
            ..c
        }),
        CameraCommand::RotateCcw => (Camera {
            Rotation: vstd::wrapping::i64_specs::wrapping_add(c.Rotation, (-ROTATION_SPEED) as i64),
            ..c
        }),
        CameraCommand::ZoomIn => (Camera {
            Position: (Vec3i {
                z: clamp_zoom(c.Position.z as int - ZOOM_SPEED as int) as i64,
                ..c.Position
            }),
            ..c
        }),
        CameraCommand::ZoomOut => (Camera {
            Position: (Vec3i {
                z: clamp_zoom(c.Position.z as int + ZOOM_SPEED as int) as i64,
                ..c.Position
            }),
            ..c
        }),
    }
}

/// The camera after a whole sequence of commands.
pub open spec fn spec_apply_commands(c: Camera, cmds: Seq<CameraCommand>) -> Camera
    decreases cmds.len(),
{
    if cmds.len() == 0 {
        c
    } else {
        spec_camera_step(spec_apply_commands(c, cmds.drop_last()), cmds.last())
    }
}

/// One command keeps the zoom depth within its bounds.
pub proof fn lemma_step_preserves_wf(c: Camera, cmd: CameraCommand)
    requires
        c.wf(),
    ensures
        spec_camera_step(c, cmd).wf(),
{
}

/// Law: under any sequence of camera commands from a well-formed camera,
/// the position's depth component lies within
/// `[MIN_ZOOM_LEVEL, MAX_ZOOM_LEVEL]` after every single command.
pub proof fn lemma_zoom_depth_bounded(c: Camera, cmds: Seq<CameraCommand>, i: int)
    requires
        c.wf(),
        0 <= i <= cmds.len(),
    ensures
        spec_apply_commands(c, cmds.take(i)).wf(),
    decreases i,
{
    if i > 0 {
        lemma_zoom_depth_bounded(c, cmds, i - 1);
        assert(cmds.take(i).drop_last() =~= cmds.take(i - 1));
        lemma_step_preserves_wf(spec_apply_commands(c, cmds.take(i - 1)), cmds.take(i).last());
    }
}

/// Law: rotating by `delta` and then by `-delta` restores the camera — in
/// particular the up/right basis, which is a function of the accumulated
/// rotation angle alone.
pub proof fn lemma_rotate_round_trip(c: Camera, delta: i64)
    requires
        delta != i64::MIN,
    ensures
        spec_camera_step_rotate(spec_camera_step_rotate(c, delta), (-delta) as i64) == c,
{
}

/// The camera after `Rotate(delta)`: the functional twin of `Camera::Rotate`.
pub open spec fn spec_camera_step_rotate(c: Camera, delta: i64) -> Camera {
    Camera { Rotation: vstd::wrapping::i64_specs::wrapping_add(c.Rotation, delta), ..c }
}

} // verus!

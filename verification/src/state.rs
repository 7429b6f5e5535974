//! The application state: the renderer and the camera, with the GUI panel
//! shell beside them.  Events mutate the camera; a mouse movement with the
//! left button held paints one quad at the cursor.
use crate::batch::{quad_fits, Quad};
use crate::camera::{spec_camera_on_event, Camera};
use crate::errors::RenderError;
use crate::events::{Event, MOUSE_BUTTON_LEFT};
use crate::framebuffer::FramebufferStatus;
use crate::gui::Gui;
use crate::input::{spec_pressed, KeyListener, MouseListener};
use crate::registry::ResourceRegistry;
use crate::renderer::{
    PipelinePhase, RenderOutput, Renderer, RendererInit, BRUSH_QUAD_SIZE,
};
use crate::shader::Shader;
use crate::commands::GlCommand;
use vstd::prelude::*;

verus! {

/// The painting data: the renderer and the camera that views it.
pub struct AppData {
    pub renderer: Renderer,
    pub camera: Camera,
}

/// The application state: the GUI shell and the painting data.
pub struct AppState {
    pub gui: Gui,
    pub data: AppData,
}

/// What building the state hands the context layer, beside the state
/// itself: the setup commands and the data runs they refer to.
pub struct AppStateInit {
    pub state: AppState,
    pub commands: Vec<GlCommand>,
    pub indices: Vec<u32>,
    pub presenter_components: Vec<i64>,
}

/// Whether this event paints: the left mouse button is held and the cursor
/// moved.
pub open spec fn spec_paints(event: Event, left_button_byte: u8) -> bool {
    spec_pressed(left_button_byte, None) && event matches Event::MouseMoved(_)
}

/// The quad one paint action adds: the brush quad at the cursor.
pub open spec fn spec_brush_quad(pos: (i64, i64)) -> Quad {
    Quad { x: pos.0, y: pos.1, size: BRUSH_QUAD_SIZE, texture: None }
}

impl AppState {
    /// Builds the state: a fresh camera, the GUI shell, and the renderer
    /// over the two given programs; a canvas framebuffer that cannot be
    /// completed refuses the whole state.
    pub fn new(
        reg: &mut ResourceRegistry,
        presenter_shader: Shader,
        canvas_shader: Shader,
        canvas_status: FramebufferStatus,
    ) -> (r: Result<AppStateInit, RenderError>)
        requires
            old(reg).wf(),
            old(reg).next < u32::MAX - 16,
            presenter_shader.wf(),
            !presenter_shader.destroyed,
            presenter_shader.id != 0,
            canvas_shader.wf(),
            !canvas_shader.destroyed,
            canvas_shader.id != 0,
        ensures
            final(reg).wf(),
            r is Ok <==> canvas_status == FramebufferStatus::Complete,
            r is Err ==> r == Err::<AppStateInit, RenderError>(
                RenderError::FramebufferIncompleteError,
            ),
            r matches Ok(si) ==> {
                &&& si.state.data.renderer.wf()
                &&& si.state.data.renderer.phase == PipelinePhase::Idle
                &&& si.state.data.renderer.batch.contents() == Seq::<Quad>::empty()
                &&& !si.state.data.renderer.canvas.initialized
                &&& si.state.data.camera == spec_fresh_camera()
                &&& si.state.data.camera.wf()
                &&& si.state.gui.panels@ == seq![crate::gui::spec_tool_panel()]
            },
    {
        let gui = Gui::new();
        let camera = Camera::New(0);
        match Renderer::new(reg, presenter_shader, canvas_shader, canvas_status) {
            Err(e) => Err(e),
            Ok(ri) => {
                let RendererInit { renderer, commands, indices, presenter_components } = ri;
                Ok(
                    AppStateInit {
                        state: AppState { gui, data: AppData { renderer, camera } },
                        commands,
                        indices,
                        presenter_components,
                    },
                )
            },
        }
    }

    /// Renders one frame with the current camera.
    pub fn render(&mut self) -> (r: RenderOutput)
        requires
            old(self).data.renderer.wf(),
            old(self).data.renderer.phase == PipelinePhase::Idle,
        ensures
            final(self).data.renderer.wf(),
            final(self).data.renderer.phase == PipelinePhase::Idle,
            final(self).data.renderer.canvas.initialized,
            final(self).data.renderer.batch.contents() == old(self).data.renderer.batch.overflow@ + old(self).data.renderer.pending@,
            final(self).data.camera == old(self).data.camera,
            final(self).gui == old(self).gui,
            r.vertices@ == crate::batch::grouped_vertices(
                old(self).data.renderer.batch.quads@,
                old(self).data.renderer.batch.sub_batches@,
            ),
            r.vertices@.len() == 4 * old(self).data.renderer.batch.quads@.len(),
            crate::commands::count_draws(r.commands@) == 1 + old(self).data.renderer.batch.sub_batches@.len(),
    {
        self.data.renderer.render(&self.data.camera)
    }

    /// Folds one event in: the camera applies any command the event is
    /// bound to, and a cursor movement with the left button held paints
    /// one brush quad at the cursor.
    pub fn onEvent(&mut self, event: Event, key: &KeyListener, mouse: &MouseListener)
        requires
            old(self).data.renderer.wf(),
            mouse.wf(),
            spec_paints(event, mouse.MouseCodes@[MOUSE_BUTTON_LEFT as int]) ==> quad_fits(
                spec_brush_quad(mouse.MousePos),
            ),
        ensures
            final(self).data.renderer.wf(),
            final(self).data.camera == spec_camera_on_event(old(self).data.camera, event),
            final(self).gui == old(self).gui,
            final(self).data.renderer.phase == old(self).data.renderer.phase,
            !spec_paints(event, mouse.MouseCodes@[MOUSE_BUTTON_LEFT as int]) ==> final(self).data.renderer == old(self).data.renderer,
            spec_paints(event, mouse.MouseCodes@[MOUSE_BUTTON_LEFT as int]) && old(self).data.renderer.phase == PipelinePhase::Idle ==> final(self).data.renderer.batch.contents() == old(self).data.renderer.batch.contents().push(
                spec_brush_quad(mouse.MousePos),
            ),
            spec_paints(event, mouse.MouseCodes@[MOUSE_BUTTON_LEFT as int]) && old(self).data.renderer.phase != PipelinePhase::Idle ==> final(self).data.renderer.pending@
                == old(self).data.renderer.pending@.push(spec_brush_quad(mouse.MousePos)),
    {
        self.data.camera.OnEvent(&event);
        if mouse.IsMouseButtonPressed(MOUSE_BUTTON_LEFT, None) {
            if let Event::MouseMoved(_) = event {
                self.data.renderer.addQuad(mouse.MousePos, BRUSH_QUAD_SIZE, None);
            }
        }
    }
}

/// The camera the application starts with.
pub open spec fn spec_fresh_camera() -> Camera {
    Camera {
        Position: (crate::camera::Vec3i {
            x: 0,
            y: 0,
            z: (crate::camera::MICRO + crate::camera::MIN_ZOOM_LEVEL) as i64,
        }),
        Rotation: 0,
        Fov: crate::camera::FOV_MICRO,
        ZNear: crate::camera::MIN_ZOOM_LEVEL,
        ZFar: crate::camera::MAX_ZOOM_LEVEL,
        orthoGraphicWidth: 0,
    }
}

} // verus!

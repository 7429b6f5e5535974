//! The renderer: the canvas compositor and the screen presenter.
//!
//! Each frame runs the pipeline `Idle → CanvasPass → PresentPass → Idle`.
//! The canvas pass flushes the quad batch into the persistent off-screen
//! canvas — clearing it only on the very first pass, so accumulated paint
//! is never implicitly lost — and the present pass draws the canvas
//! texture to the transient window buffer with the camera's matrices.  A
//! draw request arriving while a pass is in flight is queued and applied
//! at the next return to `Idle`.
use crate::batch::{
    quad_fits, Batch, FlushOutput, Quad, Vertex, MAX_QUADS_PER_DRAW_CALL,
};
use crate::batch::{grouped_vertices, sum_counts};
use crate::buffer::{IndexBuffer, VertexBuffer};
use crate::camera::{Camera, Vec3i, ViewParams, MICRO};
use crate::commands::{
    count_clears, count_draws, is_draw_command, lemma_count_clears_add, lemma_count_draws_add,
    BindState, BufferTarget, BufferUsage, ElementKind, GlCommand, MatrixSource, OrthoParams,
    Rgba, UniformName,
};
use crate::errors::RenderError;
use crate::framebuffer::{spec_framebuffer_commands, FrameBuffer, FramebufferStatus};
use crate::layer::Layer;
use crate::registry::ResourceRegistry;
use crate::shader::Shader;
use crate::vao::VAO;
use vstd::prelude::*;
use vstd::string::*;

verus! {

/// The off-screen canvas resolution, independent of the window size.
pub const CANVAS_WIDTH: i32 = 300;

/// The off-screen canvas resolution, independent of the window size.
pub const CANVAS_HEIGHT: i32 = 300;

/// The viewport edge of the canvas pass.
pub const CANVAS_VIEWPORT: i32 = 600;

/// The viewport edge of the present pass.
pub const SCREEN_VIEWPORT: i32 = 1600;

/// Components the canvas vertex buffer holds: two per vertex, four
/// vertices per quad, for the full batch capacity.
pub const CANVAS_VERTEX_COMPONENTS: usize = 2 * 4 * MAX_QUADS_PER_DRAW_CALL;

/// Indices the shared index buffer holds: six per quad of the capacity.
pub const CANVAS_INDEX_COUNT: usize = 6 * MAX_QUADS_PER_DRAW_CALL;

/// The components of the presenter's full-screen quad: six vertices of
/// position and texture coordinates.
pub const PRESENTER_COMPONENT_COUNT: usize = 24;

/// The edge size of one painted quad.
pub const BRUSH_QUAD_SIZE: u32 = 200_000;

/// The canvas is cleared to white on the very first pass.
pub open spec fn spec_canvas_clear_color() -> Rgba {
    Rgba { r: MICRO as i64, g: MICRO as i64, b: MICRO as i64, a: MICRO as i64 }
}

/// The window background color.
pub open spec fn spec_background_color() -> Rgba {
    Rgba { r: 320_000, g: 250_000, b: 400_000, a: 1_000_000 }
}

/// The canvas pass's fixed view: looking down the canvas plane from depth
/// 3.
pub open spec fn spec_canvas_view() -> ViewParams {
    ViewParams {
        eye: Vec3i { x: 0, y: 0, z: 3_000_000 },
        target: Vec3i { x: 0, y: 0, z: 0 },
        rotation: 0,
    }
}

/// The canvas pass's orthographic projection, from the canvas aspect ratio
/// of 2:1.
pub open spec fn spec_canvas_proj() -> OrthoParams {
    OrthoParams {
        left: -2_000_000i64,
        right: 2_000_000i64,
        bottom: -1_000_000i64,
        top: 1_000_000i64,
        znear: 1_000i64,
        zfar: 20_000_000i64,
    }
}

/// The presenter's full-screen quad: six vertices, two triangles, as
/// position and texture-coordinate pairs in micro-units.
pub open spec fn spec_presenter_quad() -> Seq<i64> {
    seq![
        -100_000i64,
        100_000i64,
        0i64,
        1_000_000i64,
        -100_000i64,
        -100_000i64,
        0i64,
        0i64,
        100_000i64,
        -100_000i64,
        1_000_000i64,
        0i64,
        -100_000i64,
        100_000i64,
        0i64,
        1_000_000i64,
        100_000i64,
        -100_000i64,
        1_000_000i64,
        0i64,
        100_000i64,
        100_000i64,
        1_000_000i64,
        1_000_000i64,
    ]
}

/// No binding is active.
pub open spec fn binds_clear(b: BindState) -> bool {
    &&& b.array_buffer == 0
    &&& b.element_buffer == 0
    &&& b.uniform_buffer == 0
    &&& b.vertex_array == 0
    &&& b.texture_2d == 0
    &&& b.framebuffer == 0
    &&& b.renderbuffer == 0
    &&& b.program == 0
}

/// Where the frame pipeline stands.
#[derive(Clone, Copy, PartialEq, Eq, Structural, Debug)]
pub enum PipelinePhase {
    Idle,
    CanvasPass,
    PresentPass,
}

/// The persistent paint surface: the off-screen framebuffer, the batch's
/// GPU buffers, the canvas shader and its fixed view, and the one-shot
/// first-clear flag.
pub struct Canvas {
    pub frameBuffer: FrameBuffer,
    pub indexBuffer: IndexBuffer,
    pub vertexBuffer: VertexBuffer,
    pub vao: VAO,
    pub shader: Shader,
    pub viewMatrix: ViewParams,
    pub orthroProjMatrix: OrthoParams,
    /// Whether the first pass has run; once set, no later pass may clear
    /// the accumulated paint.
    pub initialized: bool,
}

/// What setting up the renderer hands the context layer: the commands, the
/// index run the upload command refers to, and the presenter quad's
/// component run.
pub struct RendererInit {
    pub renderer: Renderer,
    pub commands: Vec<GlCommand>,
    pub indices: Vec<u32>,
    pub presenter_components: Vec<i64>,
}

/// What the canvas pass hands the context layer: the commands and the
/// vertex run the upload command refers to.
pub struct CanvasPassOutput {
    pub commands: Vec<GlCommand>,
    pub vertices: Vec<Vertex>,
}

/// What a whole frame hands the context layer.
pub struct RenderOutput {
    pub commands: Vec<GlCommand>,
    pub vertices: Vec<Vertex>,
}

/// The draw calls of a flush as commands: one indexed draw per sub-batch,
/// six indices per quad, from the sub-batch's vertex sub-range.
pub open spec fn spec_batch_draws(sub: Seq<(u32, usize)>) -> Seq<GlCommand>
    decreases sub.len(),
{
    if sub.len() == 0 {
        Seq::<GlCommand>::empty()
    } else {
        spec_batch_draws(sub.drop_last()) + seq![
            (GlCommand::DrawElements {
                index_count: (6 * sub.last().1) as usize,
                base_vertex: (4 * sum_counts(sub.drop_last())) as usize,
            }),
        ]
    }
}

/// One draw command per sub-batch.
pub proof fn lemma_batch_draws_len(sub: Seq<(u32, usize)>)
    ensures
        spec_batch_draws(sub).len() == sub.len(),
        count_draws(spec_batch_draws(sub)) == sub.len(),
    decreases sub.len(),
{
    if sub.len() > 0 {
        lemma_batch_draws_len(sub.drop_last());
        let one = seq![
            (GlCommand::DrawElements {
                index_count: (6 * sub.last().1) as usize,
                base_vertex: (4 * sum_counts(sub.drop_last())) as usize,
            }),
        ];
        lemma_count_draws_add(spec_batch_draws(sub.drop_last()), one);
        assert(one.drop_last() =~= Seq::<GlCommand>::empty());
        assert(count_draws(Seq::<GlCommand>::empty()) == 0);
        assert(is_draw_command(one.last()));
        assert(count_draws(one) == 1);
    }
}

/// The setup commands: configure the canvas buffers and layout, then the
/// presenter's.
pub open spec fn spec_init_commands(
    cvao: u32,
    cvb: u32,
    cib: u32,
    pvao: u32,
    pvb: u32,
) -> Seq<GlCommand> {
    seq![
        GlCommand::BindVertexArray(cvao),
        (GlCommand::BindBuffer { target: BufferTarget::Array, handle: cvb }),
        (GlCommand::AllocateBuffer {
            target: BufferTarget::Array,
            component_count: CANVAS_VERTEX_COMPONENTS,
            usage: BufferUsage::DynamicDraw,
        }),
        (GlCommand::BindBuffer { target: BufferTarget::ElementArray, handle: cib }),
        (GlCommand::AllocateBuffer {
            target: BufferTarget::ElementArray,
            component_count: CANVAS_INDEX_COUNT,
            usage: BufferUsage::StaticDraw,
        }),
        (GlCommand::UploadIndices { index_offset: 0, first: 0, count: CANVAS_INDEX_COUNT }),
        (GlCommand::AttributePointer {
            index: 0,
            kind: ElementKind::Float32,
            components: 2,
            stride_bytes: 8,
            offset_elements: 0,
            divisor: None,
        }),
        (GlCommand::BindBuffer { target: BufferTarget::Array, handle: 0 }),
        GlCommand::BindVertexArray(0),
        (GlCommand::BindBuffer { target: BufferTarget::ElementArray, handle: 0 }),
        GlCommand::BindVertexArray(pvao),
        (GlCommand::BindBuffer { target: BufferTarget::Array, handle: pvb }),
        (GlCommand::AttributePointer {
            index: 0,
            kind: ElementKind::Float32,
            components: 2,
            stride_bytes: 16,
            offset_elements: 0,
            divisor: None,
        }),
        (GlCommand::AttributePointer {
            index: 1,
            kind: ElementKind::Float32,
            components: 2,
            stride_bytes: 16,
            offset_elements: 2,
            divisor: None,
        }),
        (GlCommand::AllocateBuffer {
            target: BufferTarget::Array,
            component_count: PRESENTER_COMPONENT_COUNT,
            usage: BufferUsage::StaticDraw,
        }),
        (GlCommand::UploadComponents {
            target: BufferTarget::Array,
            component_offset: 0,
            first: 0,
            count: PRESENTER_COMPONENT_COUNT,
        }),
        (GlCommand::BindBuffer { target: BufferTarget::Array, handle: 0 }),
        GlCommand::BindVertexArray(0),
    ]
}

/// The canvas pass commands before the draw calls: enter the off-screen
/// framebuffer and the canvas shader, upload the fixed matrices, clear
/// only on the very first pass, then stage the vertex data.
pub open spec fn spec_canvas_pass_head(
    fb: u32,
    prog: u32,
    view: ViewParams,
    proj: OrthoParams,
    initialized: bool,
    cvao: u32,
    cvb: u32,
    vertex_count: int,
) -> Seq<GlCommand> {
    seq![
        GlCommand::BindFramebuffer(fb),
        GlCommand::UseProgram(prog),
        (GlCommand::UploadMatrix {
            program: prog,
            name: UniformName::View,
            source: MatrixSource::LookAt(view),
        }),
        (GlCommand::UploadMatrix {
            program: prog,
            name: UniformName::Proj,
            source: MatrixSource::Orthographic(proj),
        }),
    ] + (if !initialized {
        seq![GlCommand::ClearColor(spec_canvas_clear_color()), GlCommand::Clear]
    } else {
        Seq::<GlCommand>::empty()
    }) + seq![
        (GlCommand::Viewport { x: 0, y: 0, width: CANVAS_VIEWPORT, height: CANVAS_VIEWPORT }),
        GlCommand::BindVertexArray(cvao),
        (GlCommand::BindBuffer { target: BufferTarget::Array, handle: cvb }),
        (GlCommand::UploadVertices { vertex_offset: 0, first: 0, count: vertex_count as usize }),
    ]
}

/// The canvas pass commands after the draw calls: leave everything
/// unbound.
pub open spec fn spec_canvas_pass_tail() -> Seq<GlCommand> {
    seq![
        (GlCommand::BindBuffer { target: BufferTarget::Array, handle: 0 }),
        GlCommand::BindVertexArray(0),
        GlCommand::UseProgram(0),
        GlCommand::BindFramebuffer(0),
    ]
}

/// The present pass commands: enter the window framebuffer, clear it to
/// the background color — the window buffer is transient, unlike the
/// canvas — upload the camera's matrices, and draw the canvas texture as
/// one full-screen quad.
pub open spec fn spec_present_commands(
    prog: u32,
    camera: Camera,
    pvao: u32,
    canvas_texture: u32,
) -> Seq<GlCommand> {
    seq![
        GlCommand::UseProgram(prog),
        (GlCommand::Viewport { x: 0, y: 0, width: SCREEN_VIEWPORT, height: SCREEN_VIEWPORT }),
        GlCommand::ClearColor(spec_background_color()),
        GlCommand::Clear,
        (GlCommand::UploadMatrix {
            program: prog,
            name: UniformName::View,
            source: MatrixSource::LookAt(
                ViewParams {
                    eye: camera.Position,
                    target: (Vec3i { x: camera.Position.x, y: camera.Position.y, z: 0 }),
                    rotation: camera.Rotation,
                },
            ),
        }),
        (GlCommand::UploadMatrix {
            program: prog,
            name: UniformName::Proj,
            source: MatrixSource::Perspective(
                crate::camera::ProjectionParams {
                    aspect: MICRO,
                    fov: crate::camera::FOV_MICRO,
                    znear: crate::camera::MIN_ZOOM_LEVEL,
                    zfar: crate::camera::MAX_ZOOM_LEVEL,
                },
            ),
        }),
        GlCommand::BindVertexArray(pvao),
        GlCommand::BindTexture(canvas_texture),
        (GlCommand::DrawArrays { first: 0, count: 6 }),
        GlCommand::BindTexture(0),
        GlCommand::BindVertexArray(0),
        GlCommand::UseProgram(0),
    ]
}

pub struct Renderer {
    /// The presenter's full-screen-quad vertex buffer.
    pub vertexBuffer: VertexBuffer,
    /// The presenter's vertex array.
    pub vao: VAO,
    /// The presenter's shader: draws the canvas texture to the window.
    pub canvasShader: Shader,
    /// The persistent paint surface.
    pub canvas: Canvas,
    /// The quad batch accumulator.
    pub batch: Batch,
    /// Draw requests that arrived while a pass was in flight; applied at
    /// the next return to `Idle`.
    pub pending: Vec<Quad>,
    pub phase: PipelinePhase,
    /// What the graphics context currently has bound.
    pub binds: BindState,
}

impl Renderer {
    /// The renderer invariant: the batch and shaders are well-formed, all
    /// handles are live and nonzero, the canvas buffers keep their
    /// allocated capacities, pending quads fit, and outside a pass nothing
    /// is left bound.
    pub open spec fn wf(self) -> bool {
        &&& self.batch.wf()
        &&& forall|i: int| 0 <= i < self.pending@.len() ==> quad_fits(#[trigger] self.pending@[i])
        &&& !self.vertexBuffer.destroyed
        &&& !self.vao.destroyed
        &&& !self.canvasShader.destroyed
        &&& self.canvasShader.wf()
        &&& !self.canvas.vertexBuffer.destroyed
        &&& !self.canvas.indexBuffer.destroyed
        &&& !self.canvas.vao.destroyed
        &&& !self.canvas.shader.destroyed
        &&& self.canvas.shader.wf()
        &&& self.canvas.vertexBuffer.capacity == CANVAS_VERTEX_COMPONENTS
        &&& self.vertexBuffer.id != 0
        &&& self.vao.ID != 0
        &&& self.canvasShader.id != 0
        &&& self.canvas.vertexBuffer.id != 0
        &&& self.canvas.indexBuffer.id != 0
        &&& self.canvas.vao.ID != 0
        &&& self.canvas.shader.id != 0
        &&& self.canvas.frameBuffer.ID != 0
        &&& self.canvas.frameBuffer.TextureAttachment.ID != 0
        &&& !self.canvas.frameBuffer.TextureAttachment.destroyed
        &&& binds_clear(self.binds)
    }

    /// Builds the renderer: the presenter's buffer and layout, the
    /// off-screen canvas framebuffer, and the batch's buffers, then the
    /// setup commands.  The two programs arrive already built; a canvas
    /// framebuffer that cannot be completed refuses the whole renderer
    /// with `FramebufferIncompleteError`.
    pub fn new(
        reg: &mut ResourceRegistry,
        presenter_shader: Shader,
        canvas_shader: Shader,
        canvas_status: FramebufferStatus,
    ) -> (r: Result<RendererInit, RenderError>)
        requires
            old(reg).wf(),
            old(reg).next < u32::MAX - 16,
            presenter_shader.wf(),
            !presenter_shader.destroyed,
            presenter_shader.id != 0,
            canvas_shader.wf(),
            !canvas_shader.destroyed,
            canvas_shader.id != 0,
        ensures
            final(reg).wf(),
            r is Ok <==> canvas_status == FramebufferStatus::Complete,
            r is Err ==> r == Err::<RendererInit, RenderError>(
                RenderError::FramebufferIncompleteError,
            ),
            r matches Ok(ri) ==> {
                &&& ri.renderer.wf()
                &&& ri.renderer.phase == PipelinePhase::Idle
                &&& ri.renderer.batch.contents() == Seq::<Quad>::empty()
                &&& ri.renderer.pending@.len() == 0
                &&& !ri.renderer.canvas.initialized
                &&& ri.renderer.canvas.frameBuffer.size == (CANVAS_WIDTH, CANVAS_HEIGHT)
                &&& ri.renderer.canvas.viewMatrix == spec_canvas_view()
                &&& ri.renderer.canvas.orthroProjMatrix == spec_canvas_proj()
                &&& ri.renderer.canvasShader == presenter_shader
                &&& ri.renderer.canvas.shader == canvas_shader
                &&& ri.indices@ == crate::batch::spec_index_pattern(
                    MAX_QUADS_PER_DRAW_CALL as int,
                )
                &&& ri.presenter_components@ == spec_presenter_quad()
                &&& ri.commands@ == seq![
                    GlCommand::CreateBuffer(ri.renderer.vertexBuffer.id),
                    GlCommand::CreateVertexArray(ri.renderer.vao.ID),
                ] + spec_framebuffer_commands(
                    ri.renderer.canvas.frameBuffer.ID,
                    ri.renderer.canvas.frameBuffer.TextureAttachment.ID,
                    ri.renderer.canvas.frameBuffer.RboID,
                    (CANVAS_WIDTH, CANVAS_HEIGHT),
                ) + seq![
                    GlCommand::CreateBuffer(ri.renderer.canvas.vertexBuffer.id),
                    GlCommand::CreateBuffer(ri.renderer.canvas.indexBuffer.id),
                    GlCommand::CreateVertexArray(ri.renderer.canvas.vao.ID),
                ] + spec_init_commands(
                    ri.renderer.canvas.vao.ID,
                    ri.renderer.canvas.vertexBuffer.id,
                    ri.renderer.canvas.indexBuffer.id,
                    ri.renderer.vao.ID,
                    ri.renderer.vertexBuffer.id,
                )
            },
    {
        let mut binds = BindState::new();
        let (pvb, pvb_cmd) = VertexBuffer::New(reg);
        let (pvao, pvao_cmd) = VAO::New(reg);
        let fb = match FrameBuffer::New(reg, &mut binds, (CANVAS_WIDTH, CANVAS_HEIGHT),
            canvas_status) {
            Ok(ok) => ok,
            Err(e) => {
                return Err(e);
            },
        };
        let (fb, mut fb_cmds) = fb;
        let (cvb, cvb_cmd) = VertexBuffer::New(reg);
        let (cib, cib_cmd) = IndexBuffer::New(reg);
        let (cvao, cvao_cmd) = VAO::New(reg);
        let mut commands: Vec<GlCommand> = Vec::new();
        commands.push(pvb_cmd);
        commands.push(pvao_cmd);
        commands.append(&mut fb_cmds);
        commands.push(cvb_cmd);
        commands.push(cib_cmd);
        commands.push(cvao_cmd);
        let mut renderer = Renderer {
            vertexBuffer: pvb,
            vao: pvao,
            canvasShader: presenter_shader,
            canvas: Canvas {
                frameBuffer: fb,
                indexBuffer: cib,
                vertexBuffer: cvb,
                vao: cvao,
                shader: canvas_shader,
                viewMatrix: ViewParams {
                    eye: Vec3i { x: 0, y: 0, z: 3_000_000 },
                    target: Vec3i { x: 0, y: 0, z: 0 },
                    rotation: 0,
                },
                orthroProjMatrix: OrthoParams {
                    left: -2_000_000,
                    right: 2_000_000,
                    bottom: -1_000_000,
                    top: 1_000_000,
                    znear: 1_000,
                    zfar: 20_000_000,
                },
                initialized: false,
            },
            batch: Batch::new(),
            pending: Vec::new(),
            phase: PipelinePhase::Idle,
            binds,
        };
        let init = renderer.init();
        let InitOutput { commands: mut init_cmds, indices, presenter_components } = init;
        commands.append(&mut init_cmds);
        proof {
            assert(commands@ =~= seq![
                GlCommand::CreateBuffer(renderer.vertexBuffer.id),
                GlCommand::CreateVertexArray(renderer.vao.ID),
            ] + spec_framebuffer_commands(
                renderer.canvas.frameBuffer.ID,
                renderer.canvas.frameBuffer.TextureAttachment.ID,
                renderer.canvas.frameBuffer.RboID,
                (CANVAS_WIDTH, CANVAS_HEIGHT),
            ) + seq![
                GlCommand::CreateBuffer(renderer.canvas.vertexBuffer.id),
                GlCommand::CreateBuffer(renderer.canvas.indexBuffer.id),
                GlCommand::CreateVertexArray(renderer.canvas.vao.ID),
            ] + spec_init_commands(
                renderer.canvas.vao.ID,
                renderer.canvas.vertexBuffer.id,
                renderer.canvas.indexBuffer.id,
                renderer.vao.ID,
                renderer.vertexBuffer.id,
            ));
        }
        Ok(RendererInit { renderer, commands, indices, presenter_components })
    }

    /// Sets up the canvas and presenter buffers: builds the shared index
    /// pattern for the full batch capacity, allocates the canvas vertex
    /// store, and uploads the presenter's full-screen quad.
    fn init(&mut self) -> (r: InitOutput)
        requires
            binds_clear(old(self).binds),
            !old(self).vertexBuffer.destroyed,
            !old(self).vao.destroyed,
            !old(self).canvas.vertexBuffer.destroyed,
            !old(self).canvas.indexBuffer.destroyed,
            !old(self).canvas.vao.destroyed,
            old(self).vertexBuffer.id != 0,
            old(self).vao.ID != 0,
            old(self).canvas.vertexBuffer.id != 0,
            old(self).canvas.indexBuffer.id != 0,
            old(self).canvas.vao.ID != 0,
            old(self).vao.NumAttributes == 0,
            old(self).vao.ByteLength == 0,
            old(self).canvas.vao.NumAttributes == 0,
            old(self).canvas.vao.ByteLength == 0,
        ensures
            binds_clear(final(self).binds),
            final(self).canvas.vertexBuffer.capacity == CANVAS_VERTEX_COMPONENTS,
            final(self).canvas.indexBuffer.capacity == CANVAS_INDEX_COUNT,
            final(self).vertexBuffer.capacity == PRESENTER_COMPONENT_COUNT,
            final(self).canvas.vertexBuffer.id == old(self).canvas.vertexBuffer.id,
            final(self).canvas.indexBuffer.id == old(self).canvas.indexBuffer.id,
            final(self).vertexBuffer.id == old(self).vertexBuffer.id,
            final(self).vao.ID == old(self).vao.ID,
            final(self).canvas.vao.ID == old(self).canvas.vao.ID,
            !final(self).vertexBuffer.destroyed,
            !final(self).vao.destroyed,
            !final(self).canvas.vertexBuffer.destroyed,
            !final(self).canvas.indexBuffer.destroyed,
            !final(self).canvas.vao.destroyed,
            final(self).canvasShader == old(self).canvasShader,
            final(self).canvas.shader == old(self).canvas.shader,
            final(self).canvas.frameBuffer == old(self).canvas.frameBuffer,
            final(self).canvas.initialized == old(self).canvas.initialized,
            final(self).canvas.viewMatrix == old(self).canvas.viewMatrix,
            final(self).canvas.orthroProjMatrix == old(self).canvas.orthroProjMatrix,
            final(self).batch == old(self).batch,
            final(self).pending == old(self).pending,
            final(self).phase == old(self).phase,
            r.indices@ == crate::batch::spec_index_pattern(MAX_QUADS_PER_DRAW_CALL as int),
            r.presenter_components@ == spec_presenter_quad(),
            r.commands@ == spec_init_commands(
                old(self).canvas.vao.ID,
                old(self).canvas.vertexBuffer.id,
                old(self).canvas.indexBuffer.id,
                old(self).vao.ID,
                old(self).vertexBuffer.id,
            ),
    {
        let indices = crate::batch::build_quad_indices(MAX_QUADS_PER_DRAW_CALL);
        let mut cmds: Vec<GlCommand> = Vec::new();
        if let Some(c) = self.canvas.vao.Bind(&mut self.binds) {
            cmds.push(c);
        }
        if let Some(c) = self.canvas.vertexBuffer.Bind(&mut self.binds) {
            cmds.push(c);
        }
        let c = self.canvas.vertexBuffer.AllocateData(
            &self.binds,
            CANVAS_VERTEX_COMPONENTS,
            BufferUsage::DynamicDraw,
        );
        cmds.push(c);
        if let Some(c) = self.canvas.indexBuffer.Bind(&mut self.binds) {
            cmds.push(c);
        }
        let mut data_cmds = self.canvas.indexBuffer.BufferData(
            &self.binds,
            &indices,
            BufferUsage::StaticDraw,
        );
        cmds.append(&mut data_cmds);
        let c = self.canvas.vao.AddAtribute(&self.binds, ElementKind::Float32, 2, 8, 0, None);
        cmds.push(c);
        if let Some(c) = self.canvas.vertexBuffer.UnBind(&mut self.binds) {
            cmds.push(c);
        }
        if let Some(c) = self.canvas.vao.UnBind(&mut self.binds) {
            cmds.push(c);
        }
        if let Some(c) = self.canvas.indexBuffer.UnBind(&mut self.binds) {
            cmds.push(c);
        }
        if let Some(c) = self.vao.Bind(&mut self.binds) {
            cmds.push(c);
        }
        if let Some(c) = self.vertexBuffer.Bind(&mut self.binds) {
            cmds.push(c);
        }
        let c = self.vao.AddAtribute(&self.binds, ElementKind::Float32, 2, 16, 0, None);
        cmds.push(c);
        let c = self.vao.AddAtribute(&self.binds, ElementKind::Float32, 2, 16, 2, None);
        cmds.push(c);
        let presenter_components = build_presenter_quad();
        let mut data_cmds = self.vertexBuffer.BufferData(
            &self.binds,
            &presenter_components,
            BufferUsage::StaticDraw,
        );
        cmds.append(&mut data_cmds);
        if let Some(c) = self.vertexBuffer.UnBind(&mut self.binds) {
            cmds.push(c);
        }
        if let Some(c) = self.vao.UnBind(&mut self.binds) {
            cmds.push(c);
        }
        proof {
            assert(cmds@ =~= spec_init_commands(
                old(self).canvas.vao.ID,
                old(self).canvas.vertexBuffer.id,
                old(self).canvas.indexBuffer.id,
                old(self).vao.ID,
                old(self).vertexBuffer.id,
            ));
        }
        InitOutput { commands: cmds, indices, presenter_components }
    }
}

/// A run of commands that neither draws nor clears counts nothing.
proof fn lemma_segment_counts(s: Seq<GlCommand>)
    requires
        forall|i: int|
            0 <= i < s.len() ==> !is_draw_command(#[trigger] s[i]) && !crate::commands::is_clear_command(
                s[i],
            ),
    ensures
        count_draws(s) == 0,
        count_clears(s) == 0,
    decreases s.len(),
{
    if s.len() > 0 {
        assert(!is_draw_command(s[s.len() - 1]));
        lemma_segment_counts(s.drop_last());
    }
}

/// The first-clear commands count one clear and no draw.
proof fn lemma_first_clear_counts()
    ensures
        count_draws(
            seq![GlCommand::ClearColor(spec_canvas_clear_color()), GlCommand::Clear],
        ) == 0,
        count_clears(
            seq![GlCommand::ClearColor(spec_canvas_clear_color()), GlCommand::Clear],
        ) == 1,
{
    let s2 = seq![GlCommand::ClearColor(spec_canvas_clear_color()), GlCommand::Clear];
    let s1 = seq![GlCommand::ClearColor(spec_canvas_clear_color())];
    assert(s2.drop_last() =~= s1);
    assert(s1.drop_last() =~= Seq::<GlCommand>::empty());
    assert(count_draws(Seq::<GlCommand>::empty()) == 0);
    assert(count_clears(Seq::<GlCommand>::empty()) == 0);
    assert(count_draws(s1) == 0);
    assert(count_clears(s1) == 0);
}

impl Renderer {
    /// The canvas pass: enters the persistent off-screen framebuffer,
    /// clears it only on the very first pass — later passes never touch
    /// the accumulated paint — uploads the fixed canvas matrices, stages
    /// the flushed vertex data at offset 0, and issues one indexed draw
    /// call per sub-batch.  Flushing an empty batch issues zero draw
    /// calls.  The overflow queue becomes the next active batch.
    pub fn render_canvas_pass(&mut self) -> (r: CanvasPassOutput)
        requires
            old(self).wf(),
            old(self).phase == PipelinePhase::Idle,
        ensures
            final(self).wf(),
            final(self).phase == PipelinePhase::CanvasPass,
            final(self).canvas.initialized,
            final(self).batch.contents() == old(self).batch.overflow@,
            final(self).pending == old(self).pending,
            final(self).canvasShader == old(self).canvasShader,
            final(self).canvas.shader == old(self).canvas.shader,
            final(self).canvas.frameBuffer == old(self).canvas.frameBuffer,
            final(self).canvas.vao == old(self).canvas.vao,
            final(self).canvas.vertexBuffer == old(self).canvas.vertexBuffer,
            final(self).canvas.indexBuffer == old(self).canvas.indexBuffer,
            final(self).vao == old(self).vao,
            final(self).vertexBuffer == old(self).vertexBuffer,
            r.vertices@ == grouped_vertices(old(self).batch.quads@, old(self).batch.sub_batches@),
            r.vertices@.len() == (4 * old(self).batch.quads@.len()) as int,
            r.commands@ == spec_canvas_pass_head(
                old(self).canvas.frameBuffer.ID,
                old(self).canvas.shader.id,
                old(self).canvas.viewMatrix,
                old(self).canvas.orthroProjMatrix,
                old(self).canvas.initialized,
                old(self).canvas.vao.ID,
                old(self).canvas.vertexBuffer.id,
                (4 * old(self).batch.quads@.len()) as int,
            ) + spec_batch_draws(old(self).batch.sub_batches@) + spec_canvas_pass_tail(),
            count_draws(r.commands@) == old(self).batch.sub_batches@.len(),
            old(self).batch.quads@.len() == 0 ==> count_draws(r.commands@) == 0,
            count_clears(r.commands@) == (if old(self).canvas.initialized {
                0int
            } else {
                1int
            }),
    {
        let ghost sub = self.batch.sub_batches@;
        let mut cmds: Vec<GlCommand> = Vec::new();
        if let Some(c) = self.canvas.frameBuffer.Bind(&mut self.binds) {
            cmds.push(c);
        }
        if let Some(c) = self.canvas.shader.Activate(&mut self.binds) {
            cmds.push(c);
        }
        cmds.push(
            GlCommand::UploadMatrix {
                program: self.canvas.shader.id,
                name: UniformName::View,
                source: MatrixSource::LookAt(self.canvas.viewMatrix),
            },
        );
        cmds.push(
            GlCommand::UploadMatrix {
                program: self.canvas.shader.id,
                name: UniformName::Proj,
                source: MatrixSource::Orthographic(self.canvas.orthroProjMatrix),
            },
        );
        if !self.canvas.initialized {
            cmds.push(
                GlCommand::ClearColor(
                    Rgba { r: 1_000_000, g: 1_000_000, b: 1_000_000, a: 1_000_000 },
                ),
            );
            cmds.push(GlCommand::Clear);
            self.canvas.initialized = true;
        }
        cmds.push(
            GlCommand::Viewport { x: 0, y: 0, width: CANVAS_VIEWPORT, height: CANVAS_VIEWPORT },
        );
        if let Some(c) = self.canvas.vao.Bind(&mut self.binds) {
            cmds.push(c);
        }
        if let Some(c) = self.canvas.vertexBuffer.Bind(&mut self.binds) {
            cmds.push(c);
        }
        let flush = self.batch.flush();
        let FlushOutput { vertices, calls } = flush;
        cmds.push(GlCommand::UploadVertices { vertex_offset: 0, first: 0, count: vertices.len() });
        let ghost head = cmds@;
        proof {
            assert(head =~= spec_canvas_pass_head(
                old(self).canvas.frameBuffer.ID,
                old(self).canvas.shader.id,
                old(self).canvas.viewMatrix,
                old(self).canvas.orthroProjMatrix,
                old(self).canvas.initialized,
                old(self).canvas.vao.ID,
                old(self).canvas.vertexBuffer.id,
                (4 * old(self).batch.quads@.len()) as int,
            ));
        }
        let n = calls.len();
        let mut i: usize = 0;
        while i < n
            invariant
                n == calls@.len(),
                n == sub.len(),
                i <= n,
                forall|j: int|
                    0 <= j < n ==> (#[trigger] calls@[j]).index_count == 6 * sub[j].1
                        && calls@[j].first_vertex == 4 * sum_counts(sub.take(j)),
                cmds@ == head + spec_batch_draws(sub.take(i as int)),
            decreases n - i,
        {
            let call = calls[i];
            proof {
                assert(sub.take(i + 1).drop_last() =~= sub.take(i as int));
                assert(sub.take(i + 1).last() == sub[i as int]);
            }
            cmds.push(
                GlCommand::DrawElements {
                    index_count: call.index_count,
                    base_vertex: call.first_vertex,
                },
            );
            proof {
                assert(cmds@ =~= head + spec_batch_draws(sub.take(i + 1)));
            }
            i = i + 1;
        }
        proof {
            assert(sub.take(n as int) =~= sub);
        }
        if let Some(c) = self.canvas.vertexBuffer.UnBind(&mut self.binds) {
            cmds.push(c);
        }
        if let Some(c) = self.canvas.vao.UnBind(&mut self.binds) {
            cmds.push(c);
        }
        if let Some(c) = self.canvas.shader.DeActivate(&mut self.binds) {
            cmds.push(c);
        }
        if let Some(c) = self.canvas.frameBuffer.UnBind(&mut self.binds) {
            cmds.push(c);
        }
        self.phase = PipelinePhase::CanvasPass;
        proof {
            assert(cmds@ =~= spec_canvas_pass_head(
                old(self).canvas.frameBuffer.ID,
                old(self).canvas.shader.id,
                old(self).canvas.viewMatrix,
                old(self).canvas.orthroProjMatrix,
                old(self).canvas.initialized,
                old(self).canvas.vao.ID,
                old(self).canvas.vertexBuffer.id,
                (4 * old(self).batch.quads@.len()) as int,
            ) + spec_batch_draws(sub) + spec_canvas_pass_tail());
            lemma_canvas_pass_counts(
                old(self).canvas.frameBuffer.ID,
                old(self).canvas.shader.id,
                old(self).canvas.viewMatrix,
                old(self).canvas.orthroProjMatrix,
                old(self).canvas.initialized,
                old(self).canvas.vao.ID,
                old(self).canvas.vertexBuffer.id,
                (4 * old(self).batch.quads@.len()) as int,
                sub,
            );
            if old(self).batch.quads@.len() == 0 {
                if sub.len() > 0 {
                    assert(old(self).batch.sub_batches@[0].1 >= 1);
                    crate::batch::lemma_count_size_le_len(
                        old(self).batch.quads@,
                        old(self).batch.sub_batches@[0].0,
                    );
                }
            }
        }
        CanvasPassOutput { commands: cmds, vertices }
    }

    /// The present pass: clears the transient window buffer to the
    /// background color, uploads the camera's view and projection
    /// matrices, and draws the canvas texture as one full-screen quad.
    pub fn render_present_pass(&mut self, camera: &Camera) -> (r: Vec<GlCommand>)
        requires
            old(self).wf(),
            old(self).phase == PipelinePhase::CanvasPass,
        ensures
            final(self).wf(),
            *final(self) == (Renderer { phase: PipelinePhase::PresentPass, ..*old(self) }),
            r@ == spec_present_commands(
                old(self).canvasShader.id,
                *camera,
                old(self).vao.ID,
                old(self).canvas.frameBuffer.TextureAttachment.ID,
            ),
            count_draws(r@) == 1,
            count_clears(r@) == 1,
    {
        let mut cmds: Vec<GlCommand> = Vec::new();
        if let Some(c) = self.canvasShader.Activate(&mut self.binds) {
            cmds.push(c);
        }
        cmds.push(
            GlCommand::Viewport { x: 0, y: 0, width: SCREEN_VIEWPORT, height: SCREEN_VIEWPORT },
        );
        cmds.push(GlCommand::ClearColor(Rgba { r: 320_000, g: 250_000, b: 400_000, a: 1_000_000 }));
        cmds.push(GlCommand::Clear);
        let view = camera.GetViewMatrix();
        let proj = camera.GetProjectionMatrix();
        cmds.push(
            GlCommand::UploadMatrix {
                program: self.canvasShader.id,
                name: UniformName::View,
                source: MatrixSource::LookAt(view),
            },
        );
        cmds.push(
            GlCommand::UploadMatrix {
                program: self.canvasShader.id,
                name: UniformName::Proj,
                source: MatrixSource::Perspective(proj),
            },
        );
        if let Some(c) = self.vao.Bind(&mut self.binds) {
            cmds.push(c);
        }
        if let Some(c) = self.canvas.frameBuffer.TextureAttachment.Bind(&mut self.binds) {
            cmds.push(c);
        }
        cmds.push(GlCommand::DrawArrays { first: 0, count: 6 });
        if let Some(c) = self.canvas.frameBuffer.TextureAttachment.UnBind(&mut self.binds) {
            cmds.push(c);
        }
        if let Some(c) = self.vao.UnBind(&mut self.binds) {
            cmds.push(c);
        }
        if let Some(c) = self.canvasShader.DeActivate(&mut self.binds) {
            cmds.push(c);
        }
        self.phase = PipelinePhase::PresentPass;
        proof {
            assert(cmds@ =~= spec_present_commands(
                old(self).canvasShader.id,
                *camera,
                old(self).vao.ID,
                old(self).canvas.frameBuffer.TextureAttachment.ID,
            ));
            lemma_present_counts(
                old(self).canvasShader.id,
                *camera,
                old(self).vao.ID,
                old(self).canvas.frameBuffer.TextureAttachment.ID,
            );
        }
        cmds
    }

    /// Returns the pipeline to `Idle`: the draw requests queued while the
    /// passes were in flight join the batch now, in arrival order.
    pub fn finish_frame(&mut self)
        requires
            old(self).wf(),
            old(self).phase == PipelinePhase::PresentPass,
        ensures
            final(self).wf(),
            final(self).phase == PipelinePhase::Idle,
            final(self).batch.contents() == old(self).batch.contents() + old(self).pending@,
            final(self).pending@.len() == 0,
            final(self).canvas == old(self).canvas,
            final(self).canvasShader == old(self).canvasShader,
            final(self).vao == old(self).vao,
            final(self).vertexBuffer == old(self).vertexBuffer,
    {
        let n = self.pending.len();
        let mut k: usize = 0;
        proof {
            assert(old(self).batch.contents() + old(self).pending@.take(0)
                =~= old(self).batch.contents());
        }
        while k < n
            invariant
                old(self).wf(),
                n == self.pending@.len(),
                k <= n,
                self.pending == old(self).pending,
                self.batch.wf(),
                self.batch.contents() == old(self).batch.contents() + old(self).pending@.take(
                    k as int,
                ),
                self.canvas == old(self).canvas,
                self.canvasShader == old(self).canvasShader,
                self.vao == old(self).vao,
                self.vertexBuffer == old(self).vertexBuffer,
                self.binds == old(self).binds,
                self.phase == old(self).phase,
            decreases n - k,
        {
            let q = self.pending[k];
            self.batch.add_quad(q);
            proof {
                assert((old(self).batch.contents() + old(self).pending@.take(k as int)).push(q)
                    =~= old(self).batch.contents() + old(self).pending@.take(k + 1));
            }
            k = k + 1;
        }
        proof {
            assert(old(self).pending@.take(n as int) =~= old(self).pending@);
        }
        self.pending = Vec::new();
        self.phase = PipelinePhase::Idle;
    }

    /// Accepts one draw request: an axis-aligned quad at `pos` with edge
    /// `size`, optionally textured.  While a pass is in flight the request
    /// is queued — never executed mid-pass — and applied at the next
    /// return to `Idle`; otherwise it joins the batch at once.
    pub fn addQuad(&mut self, pos: (i64, i64), size: u32, texture: Option<u32>)
        requires
            old(self).wf(),
            quad_fits(Quad { x: pos.0, y: pos.1, size, texture }),
        ensures
            final(self).wf(),
            old(self).phase == PipelinePhase::Idle ==> final(self).batch.contents() == old(self).batch.contents().push(Quad { x: pos.0, y: pos.1, size, texture }) && final(self).pending == old(self).pending,
            old(self).phase != PipelinePhase::Idle ==> final(self).pending@ == old(self).pending@.push(Quad { x: pos.0, y: pos.1, size, texture }) && final(self).batch == old(self).batch,
            final(self).phase == old(self).phase,
            final(self).canvas == old(self).canvas,
    {
        let q = Quad { x: pos.0, y: pos.1, size, texture };
        if matches!(self.phase, PipelinePhase::Idle) {
            self.batch.add_quad(q);
        } else {
            self.pending.push(q);
        }
    }

    /// One whole frame: the canvas pass composites the flushed batch onto
    /// the persistent canvas, the present pass draws the canvas to the
    /// window with the camera's matrices, and the pipeline returns to
    /// `Idle` with the queued requests applied.
    pub fn render(&mut self, camera: &Camera) -> (r: RenderOutput)
        requires
            old(self).wf(),
            old(self).phase == PipelinePhase::Idle,
        ensures
            final(self).wf(),
            final(self).phase == PipelinePhase::Idle,
            final(self).canvas.initialized,
            final(self).batch.contents() == old(self).batch.overflow@ + old(self).pending@,
            final(self).pending@.len() == 0,
            r.vertices@ == grouped_vertices(old(self).batch.quads@, old(self).batch.sub_batches@),
            r.vertices@.len() == (4 * old(self).batch.quads@.len()) as int,
            r.commands@ == spec_canvas_pass_head(
                old(self).canvas.frameBuffer.ID,
                old(self).canvas.shader.id,
                old(self).canvas.viewMatrix,
                old(self).canvas.orthroProjMatrix,
                old(self).canvas.initialized,
                old(self).canvas.vao.ID,
                old(self).canvas.vertexBuffer.id,
                (4 * old(self).batch.quads@.len()) as int,
            ) + spec_batch_draws(old(self).batch.sub_batches@) + spec_canvas_pass_tail()
                + spec_present_commands(
                old(self).canvasShader.id,
                *camera,
                old(self).vao.ID,
                old(self).canvas.frameBuffer.TextureAttachment.ID,
            ),
            count_clears(r.commands@) == 1 + (if old(self).canvas.initialized {
                0int
            } else {
                1int
            }),
            count_draws(r.commands@) == 1 + old(self).batch.sub_batches@.len(),
    {
        let cp = self.render_canvas_pass();
        let CanvasPassOutput { commands: mut cmds, vertices } = cp;
        let ghost canvas_cmds = cmds@;
        let mut present = self.render_present_pass(camera);
        let ghost present_cmds = present@;
        cmds.append(&mut present);
        self.finish_frame();
        proof {
            lemma_count_draws_add(canvas_cmds, present_cmds);
            lemma_count_clears_add(canvas_cmds, present_cmds);
        }
        RenderOutput { commands: cmds, vertices }
    }
}

/// The canvas pass's command counts: one draw per sub-batch, one clear
/// only on the very first pass.
proof fn lemma_canvas_pass_counts(
    fb: u32,
    prog: u32,
    view: ViewParams,
    proj: OrthoParams,
    initialized: bool,
    cvao: u32,
    cvb: u32,
    vertex_count: int,
    sub: Seq<(u32, usize)>,
)
    ensures
        count_draws(
            spec_canvas_pass_head(fb, prog, view, proj, initialized, cvao, cvb, vertex_count)
                + spec_batch_draws(sub) + spec_canvas_pass_tail(),
        ) == sub.len(),
        count_clears(
            spec_canvas_pass_head(fb, prog, view, proj, initialized, cvao, cvb, vertex_count)
                + spec_batch_draws(sub) + spec_canvas_pass_tail(),
        ) == (if initialized {
            0int
        } else {
            1int
        }),
{
    let head = spec_canvas_pass_head(fb, prog, view, proj, initialized, cvao, cvb, vertex_count);
    let entry = seq![
        GlCommand::BindFramebuffer(fb),
        GlCommand::UseProgram(prog),
        (GlCommand::UploadMatrix {
            program: prog,
            name: UniformName::View,
            source: MatrixSource::LookAt(view),
        }),
        (GlCommand::UploadMatrix {
            program: prog,
            name: UniformName::Proj,
            source: MatrixSource::Orthographic(proj),
        }),
    ];
    let clear_part = if !initialized {
        seq![GlCommand::ClearColor(spec_canvas_clear_color()), GlCommand::Clear]
    } else {
        Seq::<GlCommand>::empty()
    };
    let stage = seq![
        (GlCommand::Viewport { x: 0, y: 0, width: CANVAS_VIEWPORT, height: CANVAS_VIEWPORT }),
        GlCommand::BindVertexArray(cvao),
        (GlCommand::BindBuffer { target: BufferTarget::Array, handle: cvb }),
        (GlCommand::UploadVertices { vertex_offset: 0, first: 0, count: vertex_count as usize }),
    ];
    assert(head == entry + clear_part + stage);
    lemma_segment_counts(entry);
    lemma_segment_counts(stage);
    if initialized {
        lemma_segment_counts(clear_part);
    } else {
        lemma_first_clear_counts();
    }
    lemma_count_draws_add(entry, clear_part);
    lemma_count_clears_add(entry, clear_part);
    lemma_count_draws_add(entry + clear_part, stage);
    lemma_count_clears_add(entry + clear_part, stage);
    lemma_batch_draws_len(sub);
    lemma_batch_draws_no_clear(sub);
    lemma_segment_counts_draws_only(spec_batch_draws(sub));
    lemma_segment_counts(spec_canvas_pass_tail());
    lemma_count_draws_add(head, spec_batch_draws(sub));
    lemma_count_clears_add(head, spec_batch_draws(sub));
    lemma_count_draws_add(head + spec_batch_draws(sub), spec_canvas_pass_tail());
    lemma_count_clears_add(head + spec_batch_draws(sub), spec_canvas_pass_tail());
}

/// The draw commands of a flush clear nothing.
proof fn lemma_segment_counts_draws_only(s: Seq<GlCommand>)
    requires
        forall|i: int| 0 <= i < s.len() ==> !crate::commands::is_clear_command(#[trigger] s[i]),
    ensures
        count_clears(s) == 0,
    decreases s.len(),
{
    if s.len() > 0 {
        assert(!crate::commands::is_clear_command(s[s.len() - 1]));
        lemma_segment_counts_draws_only(s.drop_last());
    }
}

/// A flush's draw commands are draws alone.
proof fn lemma_batch_draws_no_clear(sub: Seq<(u32, usize)>)
    ensures
        forall|i: int|
            0 <= i < spec_batch_draws(sub).len() ==> !crate::commands::is_clear_command(
                #[trigger] spec_batch_draws(sub)[i],
            ),
    decreases sub.len(),
{
    if sub.len() > 0 {
        lemma_batch_draws_no_clear(sub.drop_last());
        let prefix = spec_batch_draws(sub.drop_last());
        let whole = spec_batch_draws(sub);
        assert forall|i: int|
            0 <= i < whole.len() implies !crate::commands::is_clear_command(
            #[trigger] whole[i],
        ) by {
            if i < prefix.len() {
                assert(whole[i] == prefix[i]);
            } else {
                assert(whole[i] == (GlCommand::DrawElements {
                    index_count: (6 * sub.last().1) as usize,
                    base_vertex: (4 * sum_counts(sub.drop_last())) as usize,
                }));
            }
        }
    }
}

/// The present pass's command counts: one draw, one clear.
proof fn lemma_present_counts(prog: u32, camera: Camera, pvao: u32, canvas_texture: u32)
    ensures
        count_draws(spec_present_commands(prog, camera, pvao, canvas_texture)) == 1,
        count_clears(spec_present_commands(prog, camera, pvao, canvas_texture)) == 1,
{
    let s = spec_present_commands(prog, camera, pvao, canvas_texture);
    let mut_note: int = 0;
    assert(count_draws(s) == 1 && count_clears(s) == 1) by {
        lemma_present_counts_steps(prog, camera, pvao, canvas_texture);
    }
}

/// Counts the present pass commands one by one.
proof fn lemma_present_counts_steps(prog: u32, camera: Camera, pvao: u32, canvas_texture: u32)
    ensures
        count_draws(spec_present_commands(prog, camera, pvao, canvas_texture)) == 1,
        count_clears(spec_present_commands(prog, camera, pvao, canvas_texture)) == 1,
{
    let s = spec_present_commands(prog, camera, pvao, canvas_texture);
    let pre = seq![
        GlCommand::UseProgram(prog),
        (GlCommand::Viewport { x: 0, y: 0, width: SCREEN_VIEWPORT, height: SCREEN_VIEWPORT }),
        GlCommand::ClearColor(spec_background_color()),
    ];
    let mid = seq![GlCommand::Clear];
    let uploads = seq![
        (GlCommand::UploadMatrix {
            program: prog,
            name: UniformName::View,
            source: MatrixSource::LookAt(
                ViewParams {
                    eye: camera.Position,
                    target: (Vec3i { x: camera.Position.x, y: camera.Position.y, z: 0 }),
                    rotation: camera.Rotation,
                },
            ),
        }),
        (GlCommand::UploadMatrix {
            program: prog,
            name: UniformName::Proj,
            source: MatrixSource::Perspective(
                crate::camera::ProjectionParams {
                    aspect: MICRO,
                    fov: crate::camera::FOV_MICRO,
                    znear: crate::camera::MIN_ZOOM_LEVEL,
                    zfar: crate::camera::MAX_ZOOM_LEVEL,
                },
            ),
        }),
        GlCommand::BindVertexArray(pvao),
        GlCommand::BindTexture(canvas_texture),
    ];
    let draw = seq![(GlCommand::DrawArrays { first: 0, count: 6 })];
    let tail = seq![
        GlCommand::BindTexture(0),
        GlCommand::BindVertexArray(0),
        GlCommand::UseProgram(0),
    ];
    assert(s =~= pre + mid + uploads + draw + tail);
    lemma_segment_counts(pre);
    lemma_segment_counts(uploads);
    lemma_segment_counts(tail);
    assert(mid.drop_last() =~= Seq::<GlCommand>::empty());
    assert(count_draws(Seq::<GlCommand>::empty()) == 0);
    assert(count_clears(Seq::<GlCommand>::empty()) == 0);
    assert(count_draws(mid) == 0);
    assert(count_clears(mid) == 1);
    assert(draw.drop_last() =~= Seq::<GlCommand>::empty());
    assert(count_draws(draw) == 1);
    assert(count_clears(draw) == 0);
    lemma_count_draws_add(pre, mid);
    lemma_count_clears_add(pre, mid);
    lemma_count_draws_add(pre + mid, uploads);
    lemma_count_clears_add(pre + mid, uploads);
    lemma_count_draws_add(pre + mid + uploads, draw);
    lemma_count_clears_add(pre + mid + uploads, draw);
    lemma_count_draws_add(pre + mid + uploads + draw, tail);
    lemma_count_clears_add(pre + mid + uploads + draw, tail);
    assert(count_draws(s) == count_draws(pre + mid + uploads + draw + tail));
    assert(count_clears(s) == count_clears(pre + mid + uploads + draw + tail));
}

impl Renderer {
    /// Exchanges two layers of the stack.
    pub fn layerSwap(&mut self, from: usize, to: usize, layers: &mut Vec<Layer>)
        requires
            from < old(layers)@.len(),
            to < old(layers)@.len(),
        ensures
            *final(self) == *old(self),
            final(layers)@ == old(layers)@.update(from as int, old(layers)@[to as int]).update(
                to as int,
                old(layers)@[from as int],
            ),
    {
        let ghost orig = layers@;
        let ghost target = orig.update(from as int, orig[to as int]).update(
            to as int,
            orig[from as int],
        );
        if from == to {
            proof {
                assert(target =~= orig);
            }
            return ;
        }
        let (lo, hi) = if from < to {
            (from, to)
        } else {
            (to, from)
        };
        let a = layers.remove(hi);
        let b = layers.remove(lo);
        layers.insert(lo, a);
        layers.insert(hi, b);
        proof {
            assert forall|i: int| 0 <= i < target.len() implies layers@[i] == target[i] by {
                assert(layers@[i] == orig.remove(hi as int).remove(lo as int).insert(
                    lo as int,
                    orig[hi as int],
                ).insert(hi as int, orig[lo as int])[i]);
            }
            assert(layers@ =~= target);
        }
    }
}

/// The graphics-context error conditions the renderer recognizes.
#[derive(Clone, Copy, PartialEq, Eq, Structural, Debug)]
pub enum GlErrorKind {
    InvalidEnum,
    InvalidValue,
    InvalidOperation,
    StackOverflow,
    StackUnderflow,
    OutOfMemory,
    InvalidFramebufferOperation,
}

/// The error condition a graphics-context error code names, if the
/// renderer recognizes the code.
pub open spec fn spec_gl_error_kind(code: u32) -> Option<GlErrorKind> {
    if code == 0x0500 {
        Some(GlErrorKind::InvalidEnum)
    } else if code == 0x0501 {
        Some(GlErrorKind::InvalidValue)
    } else if code == 0x0502 {
        Some(GlErrorKind::InvalidOperation)
    } else if code == 0x0503 {
        Some(GlErrorKind::StackOverflow)
    } else if code == 0x0504 {
        Some(GlErrorKind::StackUnderflow)
    } else if code == 0x0505 {
        Some(GlErrorKind::OutOfMemory)
    } else if code == 0x0506 {
        Some(GlErrorKind::InvalidFramebufferOperation)
    } else {
        None
    }
}

/// Maps a graphics-context error code to the condition it names; an
/// unrecognized code maps to nothing.
pub fn gl_error_name(code: u32) -> (r: Option<GlErrorKind>)
    ensures
        r == spec_gl_error_kind(code),
{
    if code == 0x0500 {
        Some(GlErrorKind::InvalidEnum)
    } else if code == 0x0501 {
        Some(GlErrorKind::InvalidValue)
    } else if code == 0x0502 {
        Some(GlErrorKind::InvalidOperation)
    } else if code == 0x0503 {
        Some(GlErrorKind::StackOverflow)
    } else if code == 0x0504 {
        Some(GlErrorKind::StackUnderflow)
    } else if code == 0x0505 {
        Some(GlErrorKind::OutOfMemory)
    } else if code == 0x0506 {
        Some(GlErrorKind::InvalidFramebufferOperation)
    } else {
        None
    }
}

impl GlErrorKind {
    /// The condition's name, as the context documentation spells it.
    pub fn name(&self) -> (r: String)
        ensures
            *self == GlErrorKind::InvalidEnum ==> r@ == "INVALID_ENUM"@,
            *self == GlErrorKind::InvalidValue ==> r@ == "INVALID_VALUE"@,
            *self == GlErrorKind::InvalidOperation ==> r@ == "INVALID_OPERATION"@,
            *self == GlErrorKind::StackOverflow ==> r@ == "STACK_OVERFLOW"@,
            *self == GlErrorKind::StackUnderflow ==> r@ == "STACK_UNDERFLOW"@,
            *self == GlErrorKind::OutOfMemory ==> r@ == "OUT_OF_MEMORY"@,
            *self == GlErrorKind::InvalidFramebufferOperation ==> r@
                == "INVALID_FRAMEBUFFER_OPERATION"@,
    {
        match self {
            GlErrorKind::InvalidEnum => String::from_str("INVALID_ENUM"),
            GlErrorKind::InvalidValue => String::from_str("INVALID_VALUE"),
            GlErrorKind::InvalidOperation => String::from_str("INVALID_OPERATION"),
            GlErrorKind::StackOverflow => String::from_str("STACK_OVERFLOW"),
            GlErrorKind::StackUnderflow => String::from_str("STACK_UNDERFLOW"),
            GlErrorKind::OutOfMemory => String::from_str("OUT_OF_MEMORY"),
            GlErrorKind::InvalidFramebufferOperation => String::from_str(
                "INVALID_FRAMEBUFFER_OPERATION",
            ),
        }
    }
}

/// What `init` hands back.
pub struct InitOutput {
    pub commands: Vec<GlCommand>,
    pub indices: Vec<u32>,
    pub presenter_components: Vec<i64>,
}

/// Builds the presenter's full-screen quad components.
fn build_presenter_quad() -> (r: Vec<i64>)
    ensures
        r@ == spec_presenter_quad(),
        r@.len() == PRESENTER_COMPONENT_COUNT,
{
    let mut v: Vec<i64> = Vec::new();
    v.push(-100_000);
    v.push(100_000);
    v.push(0);
    v.push(1_000_000);
    v.push(-100_000);
    v.push(-100_000);
    v.push(0);
    v.push(0);
    v.push(100_000);
    v.push(-100_000);
    v.push(1_000_000);
    v.push(0);
    v.push(-100_000);
    v.push(100_000);
    v.push(0);
    v.push(1_000_000);
    v.push(100_000);
    v.push(-100_000);
    v.push(1_000_000);
    v.push(0);
    v.push(100_000);
    v.push(100_000);
    v.push(1_000_000);
    v.push(1_000_000);
    proof {
        assert(v@ =~= spec_presenter_quad());
    }
    v
}

} // verus!

//! The command vocabulary of the renderer.  Verified code decides *what*
//! the graphics context must do — expressed as values of `GlCommand` — and
//! the unverified context layer performs them in order.  Data too large to
//! embed in a command (vertex runs, index runs, pixel bytes) travels beside
//! the command list, and the command names the range it means.
use crate::camera::{ProjectionParams, Vec3i, ViewParams};
use vstd::prelude::*;

verus! {

/// Texture wrap mode: clamp to the edge texel.
pub const CLAMP_TO_EDGE: i32 = 0x812F;

/// Texture filter: linear interpolation.
pub const LINEAR: i32 = 0x2601;

/// Texture filter: nearest texel.
pub const NEAREST: i32 = 0x2600;

/// Texture wrap mode: repeat.
pub const REPEAT: i32 = 0x2901;

/// The buffer binding targets the renderer uses.
#[derive(Clone, Copy, PartialEq, Eq, Debug)]
pub enum BufferTarget {
    Array,
    ElementArray,
    Uniform,
}

/// How often uploaded buffer contents are expected to change.
#[derive(Clone, Copy, PartialEq, Eq, Debug)]
pub enum BufferUsage {
    StaticDraw,
    DynamicDraw,
}

/// The pixel formats the renderer stores textures in.
#[derive(Clone, Copy, PartialEq, Eq, Debug)]
pub enum PixelFormat {
    Rgb,
    Rgba,
}

/// Wrap, filter and mipmap configuration of a texture, supplied as one
/// immutable struct so a texture is never half-configured.
#[derive(Clone, Copy, PartialEq, Eq, Debug)]
pub struct TextureParams {
    pub WrapX: i32,
    pub WrapY: i32,
    pub MinFilter: i32,
    pub MagFilter: i32,
    pub MipmapLevels: Option<i32>,
}

/// The storage a texture is backed by: its dimensions and pixel format.
#[derive(Clone, Copy, PartialEq, Eq, Debug)]
pub struct TexStorage {
    pub width: i32,
    pub height: i32,
    pub format: PixelFormat,
}

/// A color with fixed-point micro-unit channels in `[0, 1]`.
#[derive(Clone, Copy, PartialEq, Eq, Debug)]
pub struct Rgba {
    pub r: i64,
    pub g: i64,
    pub b: i64,
    pub a: i64,
}

/// The element kinds a vertex attribute may have: the closed set the
/// renderer supports, so an unsupported kind cannot even be named.
#[derive(Clone, Copy, PartialEq, Eq, Debug)]
pub enum ElementKind {
    Float32,
    Int32,
    Uint32,
    Uint8,
}

/// The uniforms the render passes upload by name.
#[derive(Clone, Copy, PartialEq, Eq, Debug)]
pub enum UniformName {
    View,
    Proj,
}

/// Orthographic projection bounds, in micro-units.
#[derive(Clone, Copy, PartialEq, Eq, Debug)]
pub struct OrthoParams {
    pub left: i64,
    pub right: i64,
    pub bottom: i64,
    pub top: i64,
    pub znear: i64,
    pub zfar: i64,
}

/// Where a 4×4 matrix uniform comes from; the context layer turns the
/// parameters into the float matrix.
#[derive(Clone, Copy, PartialEq, Eq, Debug)]
pub enum MatrixSource {
    LookAt(ViewParams),
    Perspective(ProjectionParams),
    Orthographic(OrthoParams),
}

/// A uniform value, in the renderer's fixed-point encodings.
#[derive(Clone, Copy, PartialEq, Eq, Debug)]
pub enum UniformValue {
    Int(i32),
    Fixed(i64),
    Bool(bool),
    Vec2 { x: i64, y: i64 },
    Vec3(Vec3i),
    Vec4 { x: i64, y: i64, z: i64, w: i64 },
    Mat2([i64; 4]),
    Mat3([i64; 9]),
    Mat4(MatrixSource),
}

/// One instruction to the graphics context.
#[derive(Clone, Copy, PartialEq, Eq, Debug)]
pub enum GlCommand {
    CreateBuffer(u32),
    BindBuffer { target: BufferTarget, handle: u32 },
    AllocateBuffer { target: BufferTarget, component_count: usize, usage: BufferUsage },
    /// Upload `count` i64 components, starting at component `first` of the
    /// data run beside the command list, to component offset
    /// `component_offset` of the bound buffer.
    UploadComponents { target: BufferTarget, component_offset: usize, first: usize, count: usize },
    /// Upload `count` vertices (two components each), starting at vertex
    /// `first` of the vertex run beside the command list, to vertex offset
    /// `vertex_offset` of the bound array buffer.
    UploadVertices { vertex_offset: usize, first: usize, count: usize },
    /// Upload `count` u32 indices, starting at index `first` of the index
    /// run beside the command list, to index offset `index_offset` of the
    /// bound element buffer.
    UploadIndices { index_offset: usize, first: usize, count: usize },
    DeleteBuffer(u32),
    CreateTexture(u32),
    BindTexture(u32),
    SetTexParameters(TextureParams),
    AllocateTexImage { width: i32, height: i32, format: PixelFormat },
    /// Upload `byte_count` pixel bytes, travelling beside the command list,
    /// as the full image of the bound texture.
    UploadTexImage { width: i32, height: i32, format: PixelFormat, byte_count: usize },
    DeleteTexture(u32),
    CreateFramebuffer(u32),
    BindFramebuffer(u32),
    AttachColorTexture { framebuffer: u32, texture: u32 },
    CreateRenderbuffer(u32),
    BindRenderbuffer(u32),
    RenderbufferDepthStencil { width: i32, height: i32 },
    AttachRenderbuffer { framebuffer: u32, renderbuffer: u32 },
    DeleteFramebuffer(u32),
    DeleteRenderbuffer(u32),
    CreateProgram(u32),
    UseProgram(u32),
    DeleteProgram(u32),
    /// Upload a uniform to an explicit location of a program.
    UploadUniform { program: u32, location: i32, value: UniformValue },
    /// Upload a 4×4 matrix uniform to a named uniform of a program.
    UploadMatrix { program: u32, name: UniformName, source: MatrixSource },
    CreateVertexArray(u32),
    BindVertexArray(u32),
    AttributePointer {
        index: u32,
        kind: ElementKind,
        components: u32,
        stride_bytes: i32,
        offset_elements: usize,
        divisor: Option<u32>,
    },
    DeleteVertexArray(u32),
    /// Reserve `byte_size` bytes of storage for the bound uniform buffer.
    AllocateUniformStorage { byte_size: usize },
    /// Upload `count` bytes, starting at byte `first` of the byte run
    /// beside the command list, to byte offset `byte_offset` of the bound
    /// uniform buffer.
    UploadUniformBytes { byte_offset: usize, first: usize, count: usize },
    /// Tie a program's uniform block of the given name index to a binding
    /// point.
    UniformBlockBinding { program: u32, binding_point: u32 },
    /// Tie a range of a uniform buffer to a binding point.
    BindBufferRange { binding_point: u32, handle: u32, byte_size: usize },
    /// Upload `count` i32 values, travelling beside the command list, to a
    /// uniform array location of a program.
    UploadIntArray { program: u32, location: i32, count: usize },
    Viewport { x: i32, y: i32, width: i32, height: i32 },
    ClearColor(Rgba),
    Clear,
    EnableDepthTest,
    DisableDepthTest,
    DepthFunction(u32),
    EnableBlending,
    DrawElements { index_count: usize, base_vertex: usize },
    DrawArrays { first: i32, count: i32 },
}

/// Whether a command asks the context to draw.
pub open spec fn is_draw_command(c: GlCommand) -> bool {
    c matches GlCommand::DrawElements { .. } || c matches GlCommand::DrawArrays { .. }
}

/// How many of the commands ask the context to draw.
pub open spec fn count_draws(cmds: Seq<GlCommand>) -> int
    decreases cmds.len(),
{
    if cmds.len() == 0 {
        0
    } else {
        count_draws(cmds.drop_last()) + if is_draw_command(cmds.last()) {
            1int
        } else {
            0int
        }
    }
}

/// Draw counts add up over concatenation.
pub proof fn lemma_count_draws_add(a: Seq<GlCommand>, b: Seq<GlCommand>)
    ensures
        count_draws(a + b) == count_draws(a) + count_draws(b),
    decreases b.len(),
{
    if b.len() == 0 {
        assert(a + b =~= a);
    } else {
        assert((a + b).drop_last() =~= a + b.drop_last());
        lemma_count_draws_add(a, b.drop_last());
    }
}

/// Whether a command clears the bound framebuffer's color buffer.
pub open spec fn is_clear_command(c: GlCommand) -> bool {
    c matches GlCommand::Clear
}

/// How many of the commands clear.
pub open spec fn count_clears(cmds: Seq<GlCommand>) -> int
    decreases cmds.len(),
{
    if cmds.len() == 0 {
        0
    } else {
        count_clears(cmds.drop_last()) + if is_clear_command(cmds.last()) {
            1int
        } else {
            0int
        }
    }
}

/// Clear counts add up over concatenation.
pub proof fn lemma_count_clears_add(a: Seq<GlCommand>, b: Seq<GlCommand>)
    ensures
        count_clears(a + b) == count_clears(a) + count_clears(b),
    decreases b.len(),
{
    if b.len() == 0 {
        assert(a + b =~= a);
    } else {
        assert((a + b).drop_last() =~= a + b.drop_last());
        lemma_count_clears_add(a, b.drop_last());
    }
}

/// Appending one command raises the draw and clear counts by whether it
/// draws or clears.
pub proof fn lemma_counts_push(s: Seq<GlCommand>, c: GlCommand)
    ensures
        count_draws(s.push(c)) == count_draws(s) + (if is_draw_command(c) {
            1int
        } else {
            0int
        }),
        count_clears(s.push(c)) == count_clears(s) + (if is_clear_command(c) {
            1int
        } else {
            0int
        }),
{
    assert(s.push(c).drop_last() =~= s);
}

/// What the graphics context has bound, one binding per target; handle 0
/// means nothing is bound.  Bind calls that find their object already bound
/// are side-effect-free: they emit no command.
pub struct BindState {
    pub array_buffer: u32,
    pub element_buffer: u32,
    pub uniform_buffer: u32,
    pub vertex_array: u32,
    pub texture_2d: u32,
    pub framebuffer: u32,
    pub renderbuffer: u32,
    pub program: u32,
}

impl BindState {
    /// A fresh context binds nothing.
    pub fn new() -> (s: BindState)
        ensures
            s.array_buffer == 0,
            s.element_buffer == 0,
            s.uniform_buffer == 0,
            s.vertex_array == 0,
            s.texture_2d == 0,
            s.framebuffer == 0,
            s.renderbuffer == 0,
            s.program == 0,
    {
        BindState {
            array_buffer: 0,
            element_buffer: 0,
            uniform_buffer: 0,
            vertex_array: 0,
            texture_2d: 0,
            framebuffer: 0,
            renderbuffer: 0,
            program: 0,
        }
    }
}

} // verus!

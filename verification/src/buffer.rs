//! GPU buffer models: a vertex buffer of i64 components, an index buffer of
//! u32 indices, and a uniform buffer of raw bytes.  Each owns its handle,
//! tracks the capacity it allocated, refuses uploads past that capacity
//! with `OutOfRangeError`, binds idempotently, and destroys idempotently.
use crate::commands::{BindState, BufferTarget, BufferUsage, GlCommand};
use crate::errors::RenderError;
use crate::registry::ResourceRegistry;
use vstd::prelude::*;

verus! {

pub struct VertexBuffer {
    pub id: u32,
    /// Allocated storage, in i64 components.
    pub capacity: usize,
    pub destroyed: bool,
}

impl VertexBuffer {
    pub fn New(reg: &mut ResourceRegistry) -> (r: (VertexBuffer, GlCommand))
        requires
            old(reg).wf(),
            old(reg).next < u32::MAX,
        ensures
            final(reg).wf(),
            final(reg).next == old(reg).next + 1,
            final(reg).created@ == old(reg).created@.push(r.0.id),
            r.0.id != 0,
            r.0.capacity == 0,
            !r.0.destroyed,
            r.1 == GlCommand::CreateBuffer(r.0.id),
    {
        let id = reg.create();
        (VertexBuffer { id, capacity: 0, destroyed: false }, GlCommand::CreateBuffer(id))
    }

    /// Binds the buffer to the array target; already bound, it does
    /// nothing and emits no command.
    pub fn Bind(&self, state: &mut BindState) -> (r: Option<GlCommand>)
        requires
            !self.destroyed,
        ensures
            *final(state) == (BindState { array_buffer: self.id, ..*old(state) }),
            old(state).array_buffer == self.id ==> r is None,
            old(state).array_buffer != self.id ==> r == Some(
                GlCommand::BindBuffer { target: BufferTarget::Array, handle: self.id },
            ),
    {
        if state.array_buffer == self.id {
            None
        } else {
            state.array_buffer = self.id;
            Some(GlCommand::BindBuffer { target: BufferTarget::Array, handle: self.id })
        }
    }

    /// Unbinds the array target; already unbound, it does nothing and
    /// emits no command.
    pub fn UnBind(&self, state: &mut BindState) -> (r: Option<GlCommand>)
        ensures
            *final(state) == (BindState { array_buffer: 0, ..*old(state) }),
            old(state).array_buffer == 0 ==> r is None,
            old(state).array_buffer != 0 ==> r == Some(
                GlCommand::BindBuffer { target: BufferTarget::Array, handle: 0 },
            ),
    {
        if state.array_buffer == 0 {
            None
        } else {
            state.array_buffer = 0;
            Some(GlCommand::BindBuffer { target: BufferTarget::Array, handle: 0 })
        }
    }

    /// Reserves storage for `length` components without uploading.
    pub fn AllocateData(&mut self, state: &BindState, length: usize, usage: BufferUsage) -> (r:
        GlCommand)
        requires
            !old(self).destroyed,
            state.array_buffer == old(self).id,
        ensures
            final(self).id == old(self).id,
            !final(self).destroyed,
            final(self).capacity == length,
            r == (GlCommand::AllocateBuffer {
                target: BufferTarget::Array,
                component_count: length,
                usage,
            }),
    {
        self.capacity = length;
        GlCommand::AllocateBuffer {
            target: BufferTarget::Array,
            component_count: length,
            usage,
        }
    }

    /// Allocates storage for exactly `data` and uploads all of it.
    pub fn BufferData(&mut self, state: &BindState, data: &Vec<i64>, usage: BufferUsage) -> (r:
        Vec<GlCommand>)
        requires
            !old(self).destroyed,
            state.array_buffer == old(self).id,
        ensures
            final(self).id == old(self).id,
            !final(self).destroyed,
            final(self).capacity == data@.len(),
            r@ == seq![
                (GlCommand::AllocateBuffer {
                    target: BufferTarget::Array,
                    component_count: data@.len() as usize,
                    usage,
                }),
                (GlCommand::UploadComponents {
                    target: BufferTarget::Array,
                    component_offset: 0,
                    first: 0,
                    count: data@.len() as usize,
                }),
            ],
    {
        self.capacity = data.len();
        let mut r: Vec<GlCommand> = Vec::new();
        r.push(
            GlCommand::AllocateBuffer {
                target: BufferTarget::Array,
                component_count: data.len(),
                usage,
            },
        );
        r.push(
            GlCommand::UploadComponents {
                target: BufferTarget::Array,
                component_offset: 0,
                first: 0,
                count: data.len(),
            },
        );
        proof {
            assert(r@ =~= seq![
                (GlCommand::AllocateBuffer {
                    target: BufferTarget::Array,
                    component_count: data@.len() as usize,
                    usage,
                }),
                (GlCommand::UploadComponents {
                    target: BufferTarget::Array,
                    component_offset: 0,
                    first: 0,
                    count: data@.len() as usize,
                }),
            ]);
        }
        r
    }

    /// Uploads the first `length` components of `data` at component offset
    /// `offset`; a range past the allocated capacity is refused with
    /// `OutOfRangeError` and nothing is uploaded.
    pub fn BufferSubData(&self, state: &BindState, data: &Vec<i64>, offset: usize, length: usize)
        -> (r: Result<GlCommand, RenderError>)
        requires
            !self.destroyed,
            state.array_buffer == self.id,
            length <= data@.len(),
        ensures
            r is Ok <==> offset + length <= self.capacity,
            r is Ok ==> r == Ok::<GlCommand, RenderError>(
                GlCommand::UploadComponents {
                    target: BufferTarget::Array,
                    component_offset: offset,
                    first: 0,
                    count: length,
                },
            ),
            r is Err ==> r == Err::<GlCommand, RenderError>(RenderError::OutOfRangeError),
    {
        if offset > self.capacity || length > self.capacity - offset {
            Err(RenderError::OutOfRangeError)
        } else {
            Ok(
                GlCommand::UploadComponents {
                    target: BufferTarget::Array,
                    component_offset: offset,
                    first: 0,
                    count: length,
                },
            )
        }
    }

    pub fn IsValid(&self) -> (r: bool)
        ensures
            r == (self.id != 0),
    {
        self.id != 0
    }

    /// Releases the handle; destroying again does nothing and emits no
    /// command, so the release happens exactly once.
    pub fn Destroy(&mut self) -> (r: Option<GlCommand>)
        ensures
            final(self).id == old(self).id,
            final(self).capacity == old(self).capacity,
            final(self).destroyed,
            old(self).destroyed ==> r is None,
            !old(self).destroyed ==> r == Some(GlCommand::DeleteBuffer(old(self).id)),
    {
        if self.destroyed {
            None
        } else {
            self.destroyed = true;
            Some(GlCommand::DeleteBuffer(self.id))
        }
    }
}

pub struct IndexBuffer {
    pub id: u32,
    /// Allocated storage, in u32 indices.
    pub capacity: usize,
    pub destroyed: bool,
}

impl IndexBuffer {
    pub fn New(reg: &mut ResourceRegistry) -> (r: (IndexBuffer, GlCommand))
        requires
            old(reg).wf(),
            old(reg).next < u32::MAX,
        ensures
            final(reg).wf(),
            final(reg).next == old(reg).next + 1,
            final(reg).created@ == old(reg).created@.push(r.0.id),
            r.0.id != 0,
            r.0.capacity == 0,
            !r.0.destroyed,
            r.1 == GlCommand::CreateBuffer(r.0.id),
    {
        let id = reg.create();
        (IndexBuffer { id, capacity: 0, destroyed: false }, GlCommand::CreateBuffer(id))
    }

    /// Binds the buffer to the element target; already bound, it does
    /// nothing and emits no command.
    pub fn Bind(&self, state: &mut BindState) -> (r: Option<GlCommand>)
        requires
            !self.destroyed,
        ensures
            *final(state) == (BindState { element_buffer: self.id, ..*old(state) }),
            old(state).element_buffer == self.id ==> r is None,
            old(state).element_buffer != self.id ==> r == Some(
                GlCommand::BindBuffer { target: BufferTarget::ElementArray, handle: self.id },
            ),
    {
        if state.element_buffer == self.id {
            None
        } else {
            state.element_buffer = self.id;
            Some(GlCommand::BindBuffer { target: BufferTarget::ElementArray, handle: self.id })
        }
    }

    /// Unbinds the element target; already unbound, it does nothing and
    /// emits no command.
    pub fn UnBind(&self, state: &mut BindState) -> (r: Option<GlCommand>)
        ensures
            *final(state) == (BindState { element_buffer: 0, ..*old(state) }),
            old(state).element_buffer == 0 ==> r is None,
            old(state).element_buffer != 0 ==> r == Some(
                GlCommand::BindBuffer { target: BufferTarget::ElementArray, handle: 0 },
            ),
    {
        if state.element_buffer == 0 {
            None
        } else {
            state.element_buffer = 0;
            Some(GlCommand::BindBuffer { target: BufferTarget::ElementArray, handle: 0 })
        }
    }

    /// Reserves storage for `length` indices without uploading.
    pub fn AllocateData(&mut self, state: &BindState, length: usize, usage: BufferUsage) -> (r:
        GlCommand)
        requires
            !old(self).destroyed,
            state.element_buffer == old(self).id,
        ensures
            final(self).id == old(self).id,
            !final(self).destroyed,
            final(self).capacity == length,
            r == (GlCommand::AllocateBuffer {
                target: BufferTarget::ElementArray,
                component_count: length,
                usage,
            }),
    {
        self.capacity = length;
        GlCommand::AllocateBuffer {
            target: BufferTarget::ElementArray,
            component_count: length,
            usage,
        }
    }

    /// Allocates storage for exactly `data` and uploads all of it.
    pub fn BufferData(&mut self, state: &BindState, data: &Vec<u32>, usage: BufferUsage) -> (r:
        Vec<GlCommand>)
        requires
            !old(self).destroyed,
            state.element_buffer == old(self).id,
        ensures
            final(self).id == old(self).id,
            !final(self).destroyed,
            final(self).capacity == data@.len(),
            r@ == seq![
                (GlCommand::AllocateBuffer {
                    target: BufferTarget::ElementArray,
                    component_count: data@.len() as usize,
                    usage,
                }),
                (GlCommand::UploadIndices { index_offset: 0, first: 0, count: data@.len() as usize }),
            ],
    {
        self.capacity = data.len();
        let mut r: Vec<GlCommand> = Vec::new();
        r.push(
            GlCommand::AllocateBuffer {
                target: BufferTarget::ElementArray,
                component_count: data.len(),
                usage,
            },
        );
        r.push(GlCommand::UploadIndices { index_offset: 0, first: 0, count: data.len() });
        proof {
            assert(r@ =~= seq![
                (GlCommand::AllocateBuffer {
                    target: BufferTarget::ElementArray,
                    component_count: data@.len() as usize,
                    usage,
                }),
                (GlCommand::UploadIndices {
                    index_offset: 0,
                    first: 0,
                    count: data@.len() as usize,
                }),
            ]);
        }
        r
    }

    /// Uploads the first `length` indices of `data` at index offset
    /// `offset`; a range past the allocated capacity is refused with
    /// `OutOfRangeError` and nothing is uploaded.
    pub fn BufferSubData(&self, state: &BindState, data: &Vec<u32>, offset: usize, length: usize)
        -> (r: Result<GlCommand, RenderError>)
        requires
            !self.destroyed,
            state.element_buffer == self.id,
            length <= data@.len(),
        ensures
            r is Ok <==> offset + length <= self.capacity,
            r is Ok ==> r == Ok::<GlCommand, RenderError>(
                GlCommand::UploadIndices { index_offset: offset, first: 0, count: length },
            ),
            r is Err ==> r == Err::<GlCommand, RenderError>(RenderError::OutOfRangeError),
    {
        if offset > self.capacity || length > self.capacity - offset {
            Err(RenderError::OutOfRangeError)
        } else {
            Ok(GlCommand::UploadIndices { index_offset: offset, first: 0, count: length })
        }
    }

    pub fn IsValid(&self) -> (r: bool)
        ensures
            r == (self.id != 0),
    {
        self.id != 0
    }

    /// Releases the handle; destroying again does nothing and emits no
    /// command, so the release happens exactly once.
    pub fn Destroy(&mut self) -> (r: Option<GlCommand>)
        ensures
            final(self).id == old(self).id,
            final(self).capacity == old(self).capacity,
            final(self).destroyed,
            old(self).destroyed ==> r is None,
            !old(self).destroyed ==> r == Some(GlCommand::DeleteBuffer(old(self).id)),
    {
        if self.destroyed {
            None
        } else {
            self.destroyed = true;
            Some(GlCommand::DeleteBuffer(self.id))
        }
    }
}

/// A uniform buffer: byte storage tied to a binding point under a block
/// name.
pub struct UniformBuffer {
    pub ID: u32,
    pub BindingPoint: u32,
    pub Name: String,
    /// Allocated storage, in bytes.
    pub capacity: usize,
    pub destroyed: bool,
}

impl UniformBuffer {
    pub fn New(reg: &mut ResourceRegistry, bindingPoint: u32, name: String) -> (r: (
        UniformBuffer,
        GlCommand,
    ))
        requires
            old(reg).wf(),
            old(reg).next < u32::MAX,
        ensures
            final(reg).wf(),
            final(reg).next == old(reg).next + 1,
            final(reg).created@ == old(reg).created@.push(r.0.ID),
            r.0.ID != 0,
            r.0.BindingPoint == bindingPoint,
            r.0.Name@ == name@,
            r.0.capacity == 0,
            !r.0.destroyed,
            r.1 == GlCommand::CreateBuffer(r.0.ID),
    {
        let id = reg.create();
        (
            UniformBuffer {
                ID: id,
                BindingPoint: bindingPoint,
                Name: name,
                capacity: 0,
                destroyed: false,
            },
            GlCommand::CreateBuffer(id),
        )
    }

    /// Binds the buffer to the uniform target; already bound, it does
    /// nothing and emits no command.
    pub fn Bind(&self, state: &mut BindState) -> (r: Option<GlCommand>)
        requires
            !self.destroyed,
        ensures
            *final(state) == (BindState { uniform_buffer: self.ID, ..*old(state) }),
            old(state).uniform_buffer == self.ID ==> r is None,
            old(state).uniform_buffer != self.ID ==> r == Some(
                GlCommand::BindBuffer { target: BufferTarget::Uniform, handle: self.ID },
            ),
    {
        if state.uniform_buffer == self.ID {
            None
        } else {
            state.uniform_buffer = self.ID;
            Some(GlCommand::BindBuffer { target: BufferTarget::Uniform, handle: self.ID })
        }
    }

    /// Unbinds the uniform target; already unbound, it does nothing and
    /// emits no command.
    pub fn UnBind(&self, state: &mut BindState) -> (r: Option<GlCommand>)
        ensures
            *final(state) == (BindState { uniform_buffer: 0, ..*old(state) }),
            old(state).uniform_buffer == 0 ==> r is None,
            old(state).uniform_buffer != 0 ==> r == Some(
                GlCommand::BindBuffer { target: BufferTarget::Uniform, handle: 0 },
            ),
    {
        if state.uniform_buffer == 0 {
            None
        } else {
            state.uniform_buffer = 0;
            Some(GlCommand::BindBuffer { target: BufferTarget::Uniform, handle: 0 })
        }
    }

    /// Ties the program's uniform block of this buffer's name to the
    /// buffer's binding point.
    pub fn BindShader(&self, program: u32) -> (r: GlCommand)
        requires
            !self.destroyed,
        ensures
            r == (GlCommand::UniformBlockBinding { program, binding_point: self.BindingPoint }),
    {
        GlCommand::UniformBlockBinding { program, binding_point: self.BindingPoint }
    }

    /// Reserves `byteSize` bytes and ties the whole range to the binding
    /// point; to be called after every interested program is bound.
    pub fn Build(&mut self, state: &BindState, byteSize: usize) -> (r: Vec<GlCommand>)
        requires
            !old(self).destroyed,
            state.uniform_buffer == old(self).ID,
        ensures
            final(self).ID == old(self).ID,
            final(self).BindingPoint == old(self).BindingPoint,
            final(self).Name == old(self).Name,
            !final(self).destroyed,
            final(self).capacity == byteSize,
            r@ == seq![
                (GlCommand::AllocateUniformStorage { byte_size: byteSize }),
                (GlCommand::BindBufferRange {
                    binding_point: old(self).BindingPoint,
                    handle: old(self).ID,
                    byte_size: byteSize,
                }),
            ],
    {
        self.capacity = byteSize;
        let mut r: Vec<GlCommand> = Vec::new();
        r.push(GlCommand::AllocateUniformStorage { byte_size: byteSize });
        r.push(
            GlCommand::BindBufferRange {
                binding_point: self.BindingPoint,
                handle: self.ID,
                byte_size: byteSize,
            },
        );
        proof {
            assert(r@ =~= seq![
                (GlCommand::AllocateUniformStorage { byte_size: byteSize }),
                (GlCommand::BindBufferRange {
                    binding_point: old(self).BindingPoint,
                    handle: old(self).ID,
                    byte_size: byteSize,
                }),
            ]);
        }
        r
    }

    /// Uploads the first `length` bytes of `data` at byte offset `offset`;
    /// a range past the allocated capacity is refused with
    /// `OutOfRangeError` and nothing is uploaded.
    pub fn BufferSubData(&self, state: &BindState, data: &Vec<u8>, offset: usize, length: usize)
        -> (r: Result<GlCommand, RenderError>)
        requires
            !self.destroyed,
            state.uniform_buffer == self.ID,
            length <= data@.len(),
        ensures
            r is Ok <==> offset + length <= self.capacity,
            r is Ok ==> r == Ok::<GlCommand, RenderError>(
                GlCommand::UploadUniformBytes { byte_offset: offset, first: 0, count: length },
            ),
            r is Err ==> r == Err::<GlCommand, RenderError>(RenderError::OutOfRangeError),
    {
        if offset > self.capacity || length > self.capacity - offset {
            Err(RenderError::OutOfRangeError)
        } else {
            Ok(GlCommand::UploadUniformBytes { byte_offset: offset, first: 0, count: length })
        }
    }

    pub fn IsValid(&self) -> (r: bool)
        ensures
            r == (self.ID != 0),
    {
        self.ID != 0
    }

    /// Releases the handle; destroying again does nothing and emits no
    /// command, so the release happens exactly once.
    pub fn Destroy(&mut self) -> (r: Option<GlCommand>)
        ensures
            final(self).ID == old(self).ID,
            final(self).destroyed,
            old(self).destroyed ==> r is None,
            !old(self).destroyed ==> r == Some(GlCommand::DeleteBuffer(old(self).ID)),
    {
        if self.destroyed {
            None
        } else {
            self.destroyed = true;
            Some(GlCommand::DeleteBuffer(self.ID))
        }
    }
}

} // verus!

//! The vertex array model: an ordered attribute layout bound to a buffer.
//! Element kinds form a closed set, so the kind-to-constant dispatch is
//! total — an unsupported kind cannot be expressed, where the context API
//! would fail at run time.
use crate::commands::{BindState, ElementKind, GlCommand};
use crate::registry::ResourceRegistry;
use vstd::prelude::*;

verus! {

/// The graphics constant for each supported element kind.
pub fn MatchType(kind: ElementKind) -> (r: u32)
    ensures
        kind == ElementKind::Float32 ==> r == 0x1406,
        kind == ElementKind::Int32 ==> r == 0x1404,
        kind == ElementKind::Uint32 ==> r == 0x1405,
        kind == ElementKind::Uint8 ==> r == 0x1401,
{
    match kind {
        ElementKind::Float32 => 0x1406,
        ElementKind::Int32 => 0x1404,
        ElementKind::Uint32 => 0x1405,
        ElementKind::Uint8 => 0x1401,
    }
}

/// The byte width of each supported element kind.
pub open spec fn spec_element_size(kind: ElementKind) -> int {
    match kind {
        ElementKind::Float32 => 4,
        ElementKind::Int32 => 4,
        ElementKind::Uint32 => 4,
        ElementKind::Uint8 => 1,
    }
}

/// One attribute of a vertex layout: element kind, component count, vertex
/// stride in bytes, offset in elements, and an optional instancing
/// divisor.
#[derive(Clone, Copy, PartialEq, Eq, Debug)]
pub struct AttributeDesc {
    pub kind: ElementKind,
    pub components: u32,
    pub stride_bytes: i32,
    pub offset_elements: usize,
    pub divisor: Option<u32>,
}

pub struct VAO {
    pub ID: u32,
    pub NumAttributes: u32,
    pub ByteLength: u32,
    /// The attributes added so far, in order.
    pub layout: Vec<AttributeDesc>,
    pub destroyed: bool,
}

impl VAO {
    pub fn New(reg: &mut ResourceRegistry) -> (r: (VAO, GlCommand))
        requires
            old(reg).wf(),
            old(reg).next < u32::MAX,
        ensures
            final(reg).wf(),
            final(reg).next == old(reg).next + 1,
            final(reg).created@ == old(reg).created@.push(r.0.ID),
            r.0.ID != 0,
            r.0.NumAttributes == 0,
            r.0.ByteLength == 0,
            r.0.layout@.len() == 0,
            !r.0.destroyed,
            r.1 == GlCommand::CreateVertexArray(r.0.ID),
    {
        let id = reg.create();
        (
            VAO { ID: id, NumAttributes: 0, ByteLength: 0, layout: Vec::new(), destroyed: false },
            GlCommand::CreateVertexArray(id),
        )
    }

    /// Appends one attribute to the layout: it takes the next attribute
    /// index, and the accumulated byte length grows by the attribute's
    /// width.
    pub fn AddAtribute(
        &mut self,
        state: &BindState,
        kind: ElementKind,
        stride: u32,
        vertexSizeBytes: i32,
        offset: usize,
        divisor: Option<u32>,
    ) -> (r: GlCommand)
        requires
            !old(self).destroyed,
            state.vertex_array == old(self).ID,
            old(self).NumAttributes < u32::MAX,
            old(self).ByteLength + stride * spec_element_size(kind) <= u32::MAX,
        ensures
            final(self).ID == old(self).ID,
            !final(self).destroyed,
            final(self).NumAttributes == old(self).NumAttributes + 1,
            final(self).ByteLength == old(self).ByteLength + stride * spec_element_size(kind),
            final(self).layout@ == old(self).layout@.push(
                AttributeDesc {
                    kind,
                    components: stride,
                    stride_bytes: vertexSizeBytes,
                    offset_elements: offset,
                    divisor,
                },
            ),
            r == (GlCommand::AttributePointer {
                index: old(self).NumAttributes,
                kind,
                components: stride,
                stride_bytes: vertexSizeBytes,
                offset_elements: offset,
                divisor,
            }),
    {
        let cmd = GlCommand::AttributePointer {
            index: self.NumAttributes,
            kind,
            components: stride,
            stride_bytes: vertexSizeBytes,
            offset_elements: offset,
            divisor,
        };
        self.layout.push(
            AttributeDesc {
                kind,
                components: stride,
                stride_bytes: vertexSizeBytes,
                offset_elements: offset,
                divisor,
            },
        );
        self.NumAttributes = self.NumAttributes + 1;
        let grow: u32 = match kind {
            ElementKind::Float32 => stride * 4,
            ElementKind::Int32 => stride * 4,
            ElementKind::Uint32 => stride * 4,
            ElementKind::Uint8 => stride * 1,
        };
        self.ByteLength = self.ByteLength + grow;
        cmd
    }

    pub fn ResetByteCount(&mut self)
        ensures
            *final(self) == (VAO { ByteLength: 0, ..*old(self) }),
    {
        self.ByteLength = 0;
    }

    /// Binds the vertex array; already bound, it does nothing and emits no
    /// command.
    pub fn Bind(&self, state: &mut BindState) -> (r: Option<GlCommand>)
        requires
            !self.destroyed,
        ensures
            *final(state) == (BindState { vertex_array: self.ID, ..*old(state) }),
            old(state).vertex_array == self.ID ==> r is None,
            old(state).vertex_array != self.ID ==> r == Some(GlCommand::BindVertexArray(self.ID)),
    {
        if state.vertex_array == self.ID {
            None
        } else {
            state.vertex_array = self.ID;
            Some(GlCommand::BindVertexArray(self.ID))
        }
    }

    /// Unbinds the vertex array; already unbound, it does nothing and
    /// emits no command.
    pub fn UnBind(&self, state: &mut BindState) -> (r: Option<GlCommand>)
        ensures
            *final(state) == (BindState { vertex_array: 0, ..*old(state) }),
            old(state).vertex_array == 0 ==> r is None,
            old(state).vertex_array != 0 ==> r == Some(GlCommand::BindVertexArray(0)),
    {
        if state.vertex_array == 0 {
            None
        } else {
            state.vertex_array = 0;
            Some(GlCommand::BindVertexArray(0))
        }
    }

    /// Releases the handle; destroying again does nothing and emits no
    /// command, so the release happens exactly once.
    pub fn Destroy(&mut self) -> (r: Option<GlCommand>)
        ensures
            final(self).ID == old(self).ID,
            final(self).destroyed,
            old(self).destroyed ==> r is None,
            !old(self).destroyed ==> r == Some(GlCommand::DeleteVertexArray(old(self).ID)),
    {
        if self.destroyed {
            None
        } else {
            self.destroyed = true;
            Some(GlCommand::DeleteVertexArray(self.ID))
        }
    }
}

} // verus!

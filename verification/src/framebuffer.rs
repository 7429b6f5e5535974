//! The off-screen framebuffer model: one color texture attachment and one
//! depth/stencil renderbuffer.  Construction validates the size and the
//! completeness report; a framebuffer is either fully valid or never
//! returned, and on failure no framebuffer is left bound.
use crate::commands::{
    BindState, GlCommand, PixelFormat, Rgba, TextureParams, CLAMP_TO_EDGE, LINEAR,
};
use crate::errors::RenderError;
use crate::registry::ResourceRegistry;
use crate::texture::Texture;
use vstd::prelude::*;

verus! {

/// What the graphics context reports for a framebuffer configuration once
/// its attachments are in place.
#[derive(Clone, Copy, PartialEq, Eq, Structural, Debug)]
pub enum FramebufferStatus {
    Complete,
    Incomplete,
}

/// The wrap/filter configuration of the color attachment.
pub open spec fn spec_attachment_params() -> TextureParams {
    TextureParams {
        WrapX: CLAMP_TO_EDGE,
        WrapY: CLAMP_TO_EDGE,
        MinFilter: LINEAR,
        MagFilter: LINEAR,
        MipmapLevels: None,
    }
}

/// The commands that build a complete framebuffer: create and bind it,
/// build and attach the color texture, build and attach the depth/stencil
/// renderbuffer, unbind.
pub open spec fn spec_framebuffer_commands(fbid: u32, texid: u32, rboid: u32, size: (
    i32,
    i32,
)) -> Seq<GlCommand> {
    seq![
        GlCommand::CreateFramebuffer(fbid),
        GlCommand::BindFramebuffer(fbid),
        GlCommand::CreateTexture(texid),
        GlCommand::BindTexture(texid),
        GlCommand::SetTexParameters(spec_attachment_params()),
        GlCommand::BindTexture(0),
        GlCommand::BindTexture(texid),
        (GlCommand::AllocateTexImage { width: size.0, height: size.1, format: PixelFormat::Rgb }),
        GlCommand::BindTexture(0),
        (GlCommand::AttachColorTexture { framebuffer: fbid, texture: texid }),
        GlCommand::CreateRenderbuffer(rboid),
        GlCommand::BindRenderbuffer(rboid),
        (GlCommand::RenderbufferDepthStencil { width: size.0, height: size.1 }),
        GlCommand::BindRenderbuffer(0),
        (GlCommand::AttachRenderbuffer { framebuffer: fbid, renderbuffer: rboid }),
        GlCommand::BindFramebuffer(0),
    ]
}

pub struct FrameBuffer {
    pub ID: u32,
    /// The single color attachment; the presenter samples it.
    pub TextureAttachment: Texture,
    /// The depth/stencil renderbuffer handle.
    pub RboID: u32,
    pub size: (i32, i32),
}

impl FrameBuffer {
    /// Builds a complete framebuffer of the given size, or refuses.  A
    /// degenerate size (either extent not positive, such as 0×0) and an
    /// `Incomplete` report both yield `FramebufferIncompleteError`; in
    /// every failing case no framebuffer is left bound and no framebuffer
    /// is returned.  `status` is what the context reports for this size
    /// and configuration.
    pub fn New(
        reg: &mut ResourceRegistry,
        state: &mut BindState,
        size: (i32, i32),
        status: FramebufferStatus,
    ) -> (r: Result<(FrameBuffer, Vec<GlCommand>), RenderError>)
        requires
            old(reg).wf(),
            old(reg).next < u32::MAX - 3,
            old(state).texture_2d == 0,
            old(state).framebuffer == 0,
        ensures
            final(reg).wf(),
            final(state).framebuffer == 0,
            final(state).texture_2d == 0,
            r is Ok <==> (size.0 > 0 && size.1 > 0 && status == FramebufferStatus::Complete),
            r is Err ==> r == Err::<(FrameBuffer, Vec<GlCommand>), RenderError>(
                RenderError::FramebufferIncompleteError,
            ),
            size.0 <= 0 || size.1 <= 0 ==> *final(state) == *old(state) && *final(reg) == *old(
                reg,
            ),
            size.0 > 0 && size.1 > 0 ==> final(reg).next == old(reg).next + 3,
            size.0 > 0 && size.1 > 0 ==> *final(state) == (BindState {
                renderbuffer: 0,
                framebuffer: 0,
                ..*old(state)
            }),
            r matches Ok(ok) ==> ({
                let fb = ok.0;
                &&& fb.ID != 0
                &&& fb.RboID != 0
                &&& fb.TextureAttachment.ID != 0
                &&& fb.TextureAttachment.params == Some(spec_attachment_params())
                &&& fb.TextureAttachment.storage matches Some(st) && st.width == size.0
                    && st.height == size.1 && st.format == PixelFormat::Rgb
                &&& !fb.TextureAttachment.destroyed
                &&& fb.size == size
                &&& ok.1@ == spec_framebuffer_commands(
                    fb.ID,
                    fb.TextureAttachment.ID,
                    fb.RboID,
                    size,
                )
            }),
    {
        if size.0 <= 0 || size.1 <= 0 {
            return Err(RenderError::FramebufferIncompleteError);
        }
        let id = reg.create();
        let mut cmds: Vec<GlCommand> = Vec::new();
        cmds.push(GlCommand::CreateFramebuffer(id));
        state.framebuffer = id;
        cmds.push(GlCommand::BindFramebuffer(id));
        let (tex, tex_create) = Texture::New(reg);
        cmds.push(tex_create);
        let (tex, mut param_cmds) = tex.SetTextureParams(
            state,
            TextureParams {
                WrapX: CLAMP_TO_EDGE,
                WrapY: CLAMP_TO_EDGE,
                MinFilter: LINEAR,
                MagFilter: LINEAR,
                MipmapLevels: None,
            },
        );
        cmds.append(&mut param_cmds);
        let (tex, mut alloc_cmds) = tex.AllocateImage(state, size, PixelFormat::Rgb);
        cmds.append(&mut alloc_cmds);
        cmds.push(GlCommand::AttachColorTexture { framebuffer: id, texture: tex.ID });
        let rbo = reg.create();
        cmds.push(GlCommand::CreateRenderbuffer(rbo));
        state.renderbuffer = rbo;
        cmds.push(GlCommand::BindRenderbuffer(rbo));
        cmds.push(GlCommand::RenderbufferDepthStencil { width: size.0, height: size.1 });
        state.renderbuffer = 0;
        cmds.push(GlCommand::BindRenderbuffer(0));
        cmds.push(GlCommand::AttachRenderbuffer { framebuffer: id, renderbuffer: rbo });
        state.framebuffer = 0;
        if matches!(status, FramebufferStatus::Incomplete) {
            return Err(RenderError::FramebufferIncompleteError);
        }
        cmds.push(GlCommand::BindFramebuffer(0));
        let fb = FrameBuffer { ID: id, TextureAttachment: tex, RboID: rbo, size };
        proof {
            assert(cmds@ =~= spec_framebuffer_commands(
                fb.ID,
                fb.TextureAttachment.ID,
                fb.RboID,
                size,
            ));
        }
        Ok((fb, cmds))
    }

    /// The command that sets the clear color.
    pub fn ClearColor(color: Rgba) -> (r: GlCommand)
        ensures
            r == GlCommand::ClearColor(color),
    {
        GlCommand::ClearColor(color)
    }

    /// The command that clears the bound framebuffer's color buffer.
    pub fn ClearBufferOfType() -> (r: GlCommand)
        ensures
            r == GlCommand::Clear,
    {
        GlCommand::Clear
    }

    pub fn EnableDepthTest(&self) -> (r: GlCommand)
        ensures
            r == GlCommand::EnableDepthTest,
    {
        GlCommand::EnableDepthTest
    }

    pub fn DisableDepthTest(&self) -> (r: GlCommand)
        ensures
            r == GlCommand::DisableDepthTest,
    {
        GlCommand::DisableDepthTest
    }

    pub fn DepthFunction(&self, depthFunc: u32) -> (r: GlCommand)
        ensures
            r == GlCommand::DepthFunction(depthFunc),
    {
        GlCommand::DepthFunction(depthFunc)
    }

    /// Source-alpha blending, as the compositor premixes paint.
    pub fn EnableBlending(&self) -> (r: GlCommand)
        ensures
            r == GlCommand::EnableBlending,
    {
        GlCommand::EnableBlending
    }

    /// Binds the framebuffer; already bound, it does nothing and emits no
    /// command.
    pub fn Bind(&self, state: &mut BindState) -> (r: Option<GlCommand>)
        ensures
            *final(state) == (BindState { framebuffer: self.ID, ..*old(state) }),
            old(state).framebuffer == self.ID ==> r is None,
            old(state).framebuffer != self.ID ==> r == Some(GlCommand::BindFramebuffer(self.ID)),
    {
        if state.framebuffer == self.ID {
            None
        } else {
            state.framebuffer = self.ID;
            Some(GlCommand::BindFramebuffer(self.ID))
        }
    }

    /// Unbinds the framebuffer; already unbound, it does nothing and emits
    /// no command.
    pub fn UnBind(&self, state: &mut BindState) -> (r: Option<GlCommand>)
        ensures
            *final(state) == (BindState { framebuffer: 0, ..*old(state) }),
            old(state).framebuffer == 0 ==> r is None,
            old(state).framebuffer != 0 ==> r == Some(GlCommand::BindFramebuffer(0)),
    {
        if state.framebuffer == 0 {
            None
        } else {
            state.framebuffer = 0;
            Some(GlCommand::BindFramebuffer(0))
        }
    }
}

} // verus!

//! The texture model.  Configuration arrives as one immutable parameter
//! struct; image data is decoded through the `image` crate behind a
//! trusted wrapper, and a texture is only ever returned fully backed by
//! decoded data — never bound to data that failed to decode.
use crate::commands::{BindState, GlCommand, PixelFormat, TexStorage, TextureParams};
use crate::errors::{AssetCause, RenderError};
use crate::registry::ResourceRegistry;
use vstd::prelude::*;

verus! {

/// What `image::load_from_memory` decodes a byte run to — width, height,
/// whether the color type carries alpha, and the raw pixel bytes — or
/// `None` where the bytes do not decode.  The result is a function of the
/// bytes alone.
pub uninterp spec fn spec_decoded_image(bytes: Seq<u8>) -> Option<(u32, u32, bool, Seq<u8>)>;

/// A decoded image as plain values.
pub struct DecodedImage {
    pub width: u32,
    pub height: u32,
    pub has_alpha: bool,
    pub pixels: Vec<u8>,
}

/// Relies on `image::load_from_memory`, with the `DynamicImage` accessors
/// `width`, `height`, `color` (then `ColorType::has_alpha`) and
/// `as_bytes`: decoding a byte buffer depends on the bytes alone, and the
/// accessors read the decoded image.
#[verifier::external_body]
fn decode_image(bytes: &Vec<u8>) -> (r: Option<DecodedImage>)
    ensures
        r is Some <==> spec_decoded_image(bytes@) is Some,
        r matches Some(d) ==> spec_decoded_image(bytes@) == Some(
            (d.width, d.height, d.has_alpha, d.pixels@),
        ),
{
    match image::load_from_memory(bytes.as_slice()) {
        Ok(img) => Some(
            DecodedImage {
                width: img.width(),
                height: img.height(),
                has_alpha: img.color().has_alpha(),
                pixels: img.as_bytes().to_vec(),
            },
        ),
        Err(_) => None,
    }
}

/// The pixel format an image with or without an alpha channel is stored
/// in.
pub open spec fn spec_format_of(has_alpha: bool) -> PixelFormat {
    if has_alpha {
        PixelFormat::Rgba
    } else {
        PixelFormat::Rgb
    }
}

/// Everything a successful image upload consists of: the backed texture,
/// the commands, and the pixel bytes the upload command refers to.
pub struct TextureUpload {
    pub texture: Texture,
    pub commands: Vec<GlCommand>,
    pub pixels: Vec<u8>,
}

pub struct Texture {
    pub ID: u32,
    /// The wrap/filter/mipmap configuration, recorded whole or not at all.
    pub params: Option<TextureParams>,
    /// The storage the texture is backed by, once allocated or uploaded.
    pub storage: Option<TexStorage>,
    pub destroyed: bool,
}

impl Texture {
    pub fn New(reg: &mut ResourceRegistry) -> (r: (Texture, GlCommand))
        requires
            old(reg).wf(),
            old(reg).next < u32::MAX,
        ensures
            final(reg).wf(),
            final(reg).next == old(reg).next + 1,
            final(reg).created@ == old(reg).created@.push(r.0.ID),
            r.0.ID != 0,
            r.0.params is None,
            r.0.storage is None,
            !r.0.destroyed,
            r.1 == GlCommand::CreateTexture(r.0.ID),
    {
        let id = reg.create();
        (
            Texture { ID: id, params: None, storage: None, destroyed: false },
            GlCommand::CreateTexture(id),
        )
    }

    /// Records the whole configuration struct and emits the scoped
    /// bind / configure / unbind commands.
    pub fn SetTextureParams(self, state: &mut BindState, params: TextureParams) -> (r: (
        Texture,
        Vec<GlCommand>,
    ))
        requires
            !self.destroyed,
            old(state).texture_2d == 0,
        ensures
            final(state).texture_2d == 0,
            *final(state) == *old(state),
            r.0 == (Texture { params: Some(params), ..self }),
            r.1@ == seq![
                GlCommand::BindTexture(self.ID),
                GlCommand::SetTexParameters(params),
                GlCommand::BindTexture(0),
            ],
    {
        let mut cmds: Vec<GlCommand> = Vec::new();
        cmds.push(GlCommand::BindTexture(self.ID));
        cmds.push(GlCommand::SetTexParameters(params));
        cmds.push(GlCommand::BindTexture(0));
        proof {
            assert(cmds@ =~= seq![
                GlCommand::BindTexture(self.ID),
                GlCommand::SetTexParameters(params),
                GlCommand::BindTexture(0),
            ]);
        }
        (Texture { ID: self.ID, params: Some(params), storage: self.storage, destroyed: false },
        cmds)
    }

    /// Reserves storage of the given size and format without pixel data.
    pub fn AllocateImage(self, state: &mut BindState, size: (i32, i32), format: PixelFormat) -> (r:
        (Texture, Vec<GlCommand>))
        requires
            !self.destroyed,
            old(state).texture_2d == 0,
        ensures
            final(state).texture_2d == 0,
            *final(state) == *old(state),
            r.0 == (Texture {
                storage: Some(TexStorage { width: size.0, height: size.1, format }),
                ..self
            }),
            r.1@ == seq![
                GlCommand::BindTexture(self.ID),
                (GlCommand::AllocateTexImage { width: size.0, height: size.1, format }),
                GlCommand::BindTexture(0),
            ],
    {
        let mut cmds: Vec<GlCommand> = Vec::new();
        cmds.push(GlCommand::BindTexture(self.ID));
        cmds.push(GlCommand::AllocateTexImage { width: size.0, height: size.1, format });
        cmds.push(GlCommand::BindTexture(0));
        proof {
            assert(cmds@ =~= seq![
                GlCommand::BindTexture(self.ID),
                (GlCommand::AllocateTexImage { width: size.0, height: size.1, format }),
                GlCommand::BindTexture(0),
            ]);
        }
        (
            Texture {
                ID: self.ID,
                params: self.params,
                storage: Some(TexStorage { width: size.0, height: size.1, format }),
                destroyed: false,
            },
            cmds,
        )
    }

    /// Decodes `data` and backs the texture with the decoded image: RGBA
    /// where the color type carries alpha, RGB otherwise.  Bytes that do
    /// not decode are refused with the decode cause and the given path,
    /// and no texture is returned.
    pub fn SetTextureImage(self, state: &mut BindState, path: &String, data: &Vec<u8>) -> (r:
        Result<TextureUpload, RenderError>)
        requires
            !self.destroyed,
            old(state).texture_2d == 0,
        ensures
            final(state).texture_2d == 0,
            *final(state) == *old(state),
            r is Ok <==> spec_decoded_image(data@) is Some,
            r matches Err(e) ==> e == (RenderError::AssetLoadError {
                path: path_of_error(e),
                cause: AssetCause::DecodeError,
            }) && path_of_error(e)@ == path@,
            r matches Ok(up) ==> (match spec_decoded_image(data@) {
                Some(d) => {
                    &&& up.texture == (Texture {
                        storage: Some(
                            TexStorage {
                                width: d.0 as i32,
                                height: d.1 as i32,
                                format: spec_format_of(d.2),
                            },
                        ),
                        ..self
                    })
                    &&& up.pixels@ == d.3
                    &&& up.commands@ == seq![
                        GlCommand::BindTexture(self.ID),
                        (GlCommand::UploadTexImage {
                            width: d.0 as i32,
                            height: d.1 as i32,
                            format: spec_format_of(d.2),
                            byte_count: d.3.len() as usize,
                        }),
                        GlCommand::BindTexture(0),
                    ]
                },
                None => false,
            }),
    {
        match decode_image(data) {
            None => Err(
                RenderError::AssetLoadError { path: path.clone(), cause: AssetCause::DecodeError },
            ),
            Some(decoded) => {
                let format = if decoded.has_alpha {
                    PixelFormat::Rgba
                } else {
                    PixelFormat::Rgb
                };
                let width = decoded.width as i32;
                let height = decoded.height as i32;
                let mut cmds: Vec<GlCommand> = Vec::new();
                cmds.push(GlCommand::BindTexture(self.ID));
                cmds.push(
                    GlCommand::UploadTexImage {
                        width,
                        height,
                        format,
                        byte_count: decoded.pixels.len(),
                    },
                );
                cmds.push(GlCommand::BindTexture(0));
                proof {
                    assert(cmds@ =~= seq![
                        GlCommand::BindTexture(self.ID),
                        (GlCommand::UploadTexImage {
                            width,
                            height,
                            format,
                            byte_count: decoded.pixels@.len() as usize,
                        }),
                        GlCommand::BindTexture(0),
                    ]);
                }
                Ok(
                    TextureUpload {
                        texture: Texture {
                            ID: self.ID,
                            params: self.params,
                            storage: Some(TexStorage { width, height, format }),
                            destroyed: false,
                        },
                        commands: cmds,
                        pixels: decoded.pixels,
                    },
                )
            },
        }
    }

    /// Binds the texture; already bound, it does nothing and emits no
    /// command.
    pub fn Bind(&self, state: &mut BindState) -> (r: Option<GlCommand>)
        requires
            !self.destroyed,
        ensures
            *final(state) == (BindState { texture_2d: self.ID, ..*old(state) }),
            old(state).texture_2d == self.ID ==> r is None,
            old(state).texture_2d != self.ID ==> r == Some(GlCommand::BindTexture(self.ID)),
    {
        if state.texture_2d == self.ID {
            None
        } else {
            state.texture_2d = self.ID;
            Some(GlCommand::BindTexture(self.ID))
        }
    }

    /// Unbinds the texture; already unbound, it does nothing and emits no
    /// command.
    pub fn UnBind(&self, state: &mut BindState) -> (r: Option<GlCommand>)
        ensures
            *final(state) == (BindState { texture_2d: 0, ..*old(state) }),
            old(state).texture_2d == 0 ==> r is None,
            old(state).texture_2d != 0 ==> r == Some(GlCommand::BindTexture(0)),
    {
        if state.texture_2d == 0 {
            None
        } else {
            state.texture_2d = 0;
            Some(GlCommand::BindTexture(0))
        }
    }

    pub fn GetID(&self) -> (r: u32)
        ensures
            r == self.ID,
    {
        self.ID
    }

    /// Releases the handle; destroying again does nothing and emits no
    /// command, so the release happens exactly once.
    pub fn Destroy(&mut self) -> (r: Option<GlCommand>)
        ensures
            final(self).ID == old(self).ID,
            final(self).destroyed,
            old(self).destroyed ==> r is None,
            !old(self).destroyed ==> r == Some(GlCommand::DeleteTexture(old(self).ID)),
    {
        if self.destroyed {
            None
        } else {
            self.destroyed = true;
            Some(GlCommand::DeleteTexture(self.ID))
        }
    }
}

/// The path a load error reports.
pub open spec fn path_of_error(e: RenderError) -> String {
    match e {
        RenderError::AssetLoadError { path, cause } => path,
        _ => arbitrary(),
    }
}

/// Creates a texture configured by `params` and backed by the image read
/// from `path`: `data` is what reading the file yielded, `None` where the
/// read itself failed.  Fails with the `IoError` cause when the file could
/// not be read, with the `DecodeError` cause when its bytes do not decode;
/// only a fully backed texture is ever returned.
pub fn LoadTextureFromImage(
    reg: &mut ResourceRegistry,
    state: &mut BindState,
    params: TextureParams,
    path: &String,
    data: &Option<Vec<u8>>,
) -> (r: Result<TextureUpload, RenderError>)
    requires
        old(reg).wf(),
        old(reg).next < u32::MAX,
        old(state).texture_2d == 0,
    ensures
        final(reg).wf(),
        final(state).texture_2d == 0,
        r is Ok <==> (data matches Some(bytes) && spec_decoded_image(bytes@) is Some),
        data is None ==> (r matches Err(e) && e == (RenderError::AssetLoadError {
            path: path_of_error(e),
            cause: AssetCause::IoError,
        }) && path_of_error(e)@ == path@),
        (data matches Some(bytes) && spec_decoded_image(bytes@) is None) ==> (r matches Err(e)
            && e == (RenderError::AssetLoadError {
            path: path_of_error(e),
            cause: AssetCause::DecodeError,
        }) && path_of_error(e)@ == path@),
        r matches Ok(up) ==> up.texture.params == Some(params) && up.texture.storage is Some,
        r matches Ok(up) ==> (match spec_decoded_image(data->Some_0@) {
            Some(d) => up.commands@ == seq![
                GlCommand::CreateTexture(up.texture.ID),
                GlCommand::BindTexture(up.texture.ID),
                GlCommand::SetTexParameters(params),
                GlCommand::BindTexture(0),
                GlCommand::BindTexture(up.texture.ID),
                (GlCommand::UploadTexImage {
                    width: d.0 as i32,
                    height: d.1 as i32,
                    format: spec_format_of(d.2),
                    byte_count: d.3.len() as usize,
                }),
                GlCommand::BindTexture(0),
            ] && up.pixels@ == d.3,
            None => false,
        }),
{
    match data {
        None => Err(
            RenderError::AssetLoadError { path: path.clone(), cause: AssetCause::IoError },
        ),
        Some(bytes) => {
            let (tex, create_cmd) = Texture::New(reg);
            let (tex, mut param_cmds) = tex.SetTextureParams(state, params);
            match tex.SetTextureImage(state, path, bytes) {
                Err(e) => Err(e),
                Ok(up) => {
                    let TextureUpload { texture, commands: mut upload_cmds, pixels } = up;
                    let mut all: Vec<GlCommand> = Vec::new();
                    all.push(create_cmd);
                    all.append(&mut param_cmds);
                    all.append(&mut upload_cmds);
                    proof {
                        let d = spec_decoded_image(bytes@)->Some_0;
                        assert(all@ =~= seq![
                            GlCommand::CreateTexture(texture.ID),
                            GlCommand::BindTexture(texture.ID),
                            GlCommand::SetTexParameters(params),
                            GlCommand::BindTexture(0),
                            GlCommand::BindTexture(texture.ID),
                            (GlCommand::UploadTexImage {
                                width: d.0 as i32,
                                height: d.1 as i32,
                                format: spec_format_of(d.2),
                                byte_count: d.3.len() as usize,
                            }),
                            GlCommand::BindTexture(0),
                        ]);
                    }
                    Ok(TextureUpload { texture, commands: all, pixels })
                },
            }
        },
    }
}

} // verus!

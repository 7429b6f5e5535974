use quadpaint::buffer::VertexBuffer;
use quadpaint::commands::{BindState, BufferUsage, ElementKind, GlCommand, PixelFormat, TextureParams, CLAMP_TO_EDGE, LINEAR};
use quadpaint::errors::{AssetCause, RenderError};
use quadpaint::framebuffer::{FrameBuffer, FramebufferStatus};
use quadpaint::registry::ResourceRegistry;
use quadpaint::renderer::{gl_error_name, GlErrorKind};
use quadpaint::texture::{LoadTextureFromImage, Texture};
use quadpaint::vao::MatchType;

fn params() -> TextureParams {
    TextureParams {
        WrapX: CLAMP_TO_EDGE,
        WrapY: CLAMP_TO_EDGE,
        MinFilter: LINEAR,
        MagFilter: LINEAR,
        MipmapLevels: None,
    }
}

#[test]
fn registry_hands_out_unique_handles_and_tears_down_in_reverse() {
    let mut reg = ResourceRegistry::new();
    let a = reg.create();
    let b = reg.create();
    let c = reg.create();
    assert!(a != 0 && b != 0 && c != 0);
    assert!(a != b && b != c && a != c);
    let order = reg.teardown();
    assert_eq!(order, vec![c, b, a]);
    assert!(reg.created.is_empty());
}

#[test]
fn upload_past_capacity_is_out_of_range() {
    let mut reg = ResourceRegistry::new();
    let mut binds = BindState::new();
    let (mut vb, _) = VertexBuffer::New(&mut reg);
    vb.Bind(&mut binds);
    vb.AllocateData(&binds, 10, BufferUsage::DynamicDraw);
    let data: Vec<i64> = vec![1, 2, 3, 4];
    assert!(vb.BufferSubData(&binds, &data, 0, 4).is_ok());
    assert!(vb.BufferSubData(&binds, &data, 6, 4).is_ok());
    assert_eq!(
        vb.BufferSubData(&binds, &data, 7, 4),
        Err(RenderError::OutOfRangeError)
    );
    assert_eq!(
        vb.BufferSubData(&binds, &data, 11, 0),
        Err(RenderError::OutOfRangeError)
    );
}

#[test]
fn binds_are_idempotent_and_side_effect_free() {
    let mut reg = ResourceRegistry::new();
    let mut binds = BindState::new();
    let (vb, _) = VertexBuffer::New(&mut reg);
    assert!(vb.Bind(&mut binds).is_some());
    // Already in the requested state: nothing to do, no command.
    assert!(vb.Bind(&mut binds).is_none());
    assert!(vb.UnBind(&mut binds).is_some());
    assert!(vb.UnBind(&mut binds).is_none());
}

#[test]
fn destroy_is_idempotent() {
    let mut reg = ResourceRegistry::new();
    let (mut vb, _) = VertexBuffer::New(&mut reg);
    let first = vb.Destroy();
    assert_eq!(first, Some(GlCommand::DeleteBuffer(vb.id)));
    // The release happens exactly once.
    assert_eq!(vb.Destroy(), None);
    assert_eq!(vb.Destroy(), None);
}

#[test]
fn degenerate_framebuffer_size_is_refused_and_nothing_stays_bound() {
    let mut reg = ResourceRegistry::new();
    let mut binds = BindState::new();
    let r = FrameBuffer::New(&mut reg, &mut binds, (0, 0), FramebufferStatus::Complete);
    assert!(matches!(r, Err(RenderError::FramebufferIncompleteError)));
    assert_eq!(binds.framebuffer, 0);
}

#[test]
fn incomplete_framebuffer_report_is_refused() {
    let mut reg = ResourceRegistry::new();
    let mut binds = BindState::new();
    let r = FrameBuffer::New(&mut reg, &mut binds, (64, 64), FramebufferStatus::Incomplete);
    assert!(matches!(r, Err(RenderError::FramebufferIncompleteError)));
    assert_eq!(binds.framebuffer, 0);
}

#[test]
fn complete_framebuffer_is_fully_attached() {
    let mut reg = ResourceRegistry::new();
    let mut binds = BindState::new();
    let (fb, cmds) =
        FrameBuffer::New(&mut reg, &mut binds, (64, 32), FramebufferStatus::Complete).unwrap();
    assert_ne!(fb.ID, 0);
    assert_ne!(fb.RboID, 0);
    assert_ne!(fb.TextureAttachment.ID, 0);
    assert_eq!(fb.size, (64, 32));
    assert_eq!(cmds.len(), 16);
    assert_eq!(cmds[0], GlCommand::CreateFramebuffer(fb.ID));
    assert_eq!(cmds[15], GlCommand::BindFramebuffer(0));
    assert_eq!(binds.framebuffer, 0);
}

#[test]
fn undecodable_bytes_yield_a_decode_error() {
    let mut reg = ResourceRegistry::new();
    let mut binds = BindState::new();
    let (tex, _) = Texture::New(&mut reg);
    let garbage: Vec<u8> = vec![0, 1, 2, 3, 4, 5];
    let path = String::from("brush.png");
    let r = tex.SetTextureImage(&mut binds, &path, &garbage);
    match r {
        Err(RenderError::AssetLoadError { path: p, cause }) => {
            assert_eq!(p, "brush.png");
            assert_eq!(cause, AssetCause::DecodeError);
        },
        _ => panic!("expected a decode error"),
    }
}

#[test]
fn decoded_image_backs_the_texture() {
    // A real 2x1 RGBA image, encoded through the image crate, decodes back
    // through the library's wrapper with its true dimensions and alpha.
    let img = image::RgbaImage::from_raw(2, 1, vec![255, 0, 0, 255, 0, 255, 0, 128]).unwrap();
    let mut bytes: Vec<u8> = Vec::new();
    image::DynamicImage::ImageRgba8(img)
        .write_to(&mut std::io::Cursor::new(&mut bytes), image::ImageFormat::Png)
        .unwrap();
    let mut reg = ResourceRegistry::new();
    let mut binds = BindState::new();
    let path = String::from("stroke.png");
    let up = LoadTextureFromImage(&mut reg, &mut binds, params(), &path, &Some(bytes)).unwrap();
    let storage = up.texture.storage.unwrap();
    assert_eq!(storage.width, 2);
    assert_eq!(storage.height, 1);
    assert_eq!(storage.format, PixelFormat::Rgba);
    assert_eq!(up.pixels.len(), 8);
    assert_eq!(up.pixels[0], 255);
    assert_eq!(up.texture.params, Some(params()));
}

#[test]
fn missing_file_yields_an_io_error() {
    let mut reg = ResourceRegistry::new();
    let mut binds = BindState::new();
    let path = String::from("gone.png");
    let r = LoadTextureFromImage(&mut reg, &mut binds, params(), &path, &None);
    match r {
        Err(RenderError::AssetLoadError { path: p, cause }) => {
            assert_eq!(p, "gone.png");
            assert_eq!(cause, AssetCause::IoError);
        },
        _ => panic!("expected an io error"),
    }
}

#[test]
fn element_kinds_map_to_their_constants() {
    assert_eq!(MatchType(ElementKind::Float32), 0x1406);
    assert_eq!(MatchType(ElementKind::Int32), 0x1404);
    assert_eq!(MatchType(ElementKind::Uint32), 0x1405);
    assert_eq!(MatchType(ElementKind::Uint8), 0x1401);
}

#[test]
fn gl_error_codes_map_to_their_conditions() {
    assert_eq!(gl_error_name(0x0500), Some(GlErrorKind::InvalidEnum));
    assert_eq!(gl_error_name(0x0505), Some(GlErrorKind::OutOfMemory));
    assert_eq!(gl_error_name(0x0506), Some(GlErrorKind::InvalidFramebufferOperation));
    assert_eq!(gl_error_name(0x0000), None);
    assert_eq!(GlErrorKind::InvalidEnum.name(), "INVALID_ENUM");
}

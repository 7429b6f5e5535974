use quadpaint::buffer::{IndexBuffer, UniformBuffer, VertexBuffer};
use quadpaint::commands::{BindState, BufferTarget, BufferUsage, ElementKind, GlCommand};
use quadpaint::errors::RenderError;
use quadpaint::registry::ResourceRegistry;
use quadpaint::vao::VAO;

#[test]
fn buffer_data_sets_the_capacity() {
    let mut reg = ResourceRegistry::new();
    let mut binds = BindState::new();
    let (mut vb, _) = VertexBuffer::New(&mut reg);
    vb.Bind(&mut binds);
    let data: Vec<i64> = vec![1, 2, 3];
    let cmds = vb.BufferData(&binds, &data, BufferUsage::StaticDraw);
    assert_eq!(vb.capacity, 3);
    assert_eq!(cmds.len(), 2);
    assert!(matches!(
        cmds[0],
        GlCommand::AllocateBuffer { target: BufferTarget::Array, component_count: 3, .. }
    ));
    // The whole run is uploaded at offset 0.
    assert!(matches!(
        cmds[1],
        GlCommand::UploadComponents { component_offset: 0, first: 0, count: 3, .. }
    ));
}

#[test]
fn index_buffer_upload_respects_capacity() {
    let mut reg = ResourceRegistry::new();
    let mut binds = BindState::new();
    let (mut ib, _) = IndexBuffer::New(&mut reg);
    ib.Bind(&mut binds);
    ib.AllocateData(&binds, 6, BufferUsage::StaticDraw);
    let data: Vec<u32> = vec![0, 1, 3, 0, 3, 2];
    assert!(ib.BufferSubData(&binds, &data, 0, 6).is_ok());
    assert_eq!(
        ib.BufferSubData(&binds, &data, 1, 6),
        Err(RenderError::OutOfRangeError)
    );
}

#[test]
fn uniform_buffer_builds_storage_at_its_binding_point() {
    let mut reg = ResourceRegistry::new();
    let mut binds = BindState::new();
    let (mut ub, _) = UniformBuffer::New(&mut reg, 2, String::from("Globals"));
    assert_eq!(ub.Name, "Globals");
    assert_eq!(ub.BindingPoint, 2);
    ub.Bind(&mut binds);
    let cmds = ub.Build(&binds, 64);
    assert_eq!(ub.capacity, 64);
    assert_eq!(cmds[0], GlCommand::AllocateUniformStorage { byte_size: 64 });
    assert!(matches!(
        cmds[1],
        GlCommand::BindBufferRange { binding_point: 2, byte_size: 64, .. }
    ));
    let bytes: Vec<u8> = vec![0; 16];
    assert!(ub.BufferSubData(&binds, &bytes, 48, 16).is_ok());
    assert_eq!(
        ub.BufferSubData(&binds, &bytes, 49, 16),
        Err(RenderError::OutOfRangeError)
    );
    assert_eq!(ub.BindShader(9), GlCommand::UniformBlockBinding { program: 9, binding_point: 2 });
}

#[test]
fn vertex_layout_accumulates_attributes_in_order() {
    let mut reg = ResourceRegistry::new();
    let mut binds = BindState::new();
    let (vao, _) = VAO::New(&mut reg);
    let mut vao = vao;
    vao.Bind(&mut binds);
    let first = vao.AddAtribute(&binds, ElementKind::Float32, 2, 16, 0, None);
    let second = vao.AddAtribute(&binds, ElementKind::Float32, 2, 16, 2, None);
    assert!(matches!(first, GlCommand::AttributePointer { index: 0, .. }));
    assert!(matches!(second, GlCommand::AttributePointer { index: 1, .. }));
    assert_eq!(vao.NumAttributes, 2);
    // Two attributes of two four-byte elements each.
    assert_eq!(vao.ByteLength, 16);
    assert_eq!(vao.layout.len(), 2);
    assert_eq!(vao.layout[1].offset_elements, 2);
    vao.ResetByteCount();
    assert_eq!(vao.ByteLength, 0);
}

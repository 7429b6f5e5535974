use quadpaint::camera::Camera;
use quadpaint::commands::GlCommand;
use quadpaint::framebuffer::FramebufferStatus;
use quadpaint::layer::Layer;
use quadpaint::registry::ResourceRegistry;
use quadpaint::renderer::{Renderer, RendererInit, BRUSH_QUAD_SIZE};
use quadpaint::shader::{Shader, StageReport};
use quadpaint::texture::Texture;

fn ok_report() -> StageReport {
    StageReport { success: true, log: String::new() }
}

fn build_renderer() -> (ResourceRegistry, Renderer) {
    let mut reg = ResourceRegistry::new();
    let (presenter, _) = Shader::Construct(&mut reg, &ok_report(), &ok_report(), &ok_report())
        .unwrap();
    let (canvas, _) = Shader::Construct(&mut reg, &ok_report(), &ok_report(), &ok_report())
        .unwrap();
    let ri: RendererInit =
        Renderer::new(&mut reg, presenter, canvas, FramebufferStatus::Complete).unwrap();
    (reg, ri.renderer)
}

fn draw_element_total(cmds: &[GlCommand]) -> usize {
    cmds.iter()
        .map(|c| match c {
            GlCommand::DrawElements { index_count, .. } => *index_count,
            _ => 0,
        })
        .sum()
}

fn count_clear(cmds: &[GlCommand]) -> usize {
    cmds.iter().filter(|c| matches!(c, GlCommand::Clear)).count()
}

fn count_draw_elements(cmds: &[GlCommand]) -> usize {
    cmds.iter().filter(|c| matches!(c, GlCommand::DrawElements { .. })).count()
}

#[test]
fn renderer_setup_builds_the_shared_index_buffer_once() {
    let mut reg = ResourceRegistry::new();
    let (presenter, _) = Shader::Construct(&mut reg, &ok_report(), &ok_report(), &ok_report())
        .unwrap();
    let (canvas, _) = Shader::Construct(&mut reg, &ok_report(), &ok_report(), &ok_report())
        .unwrap();
    let ri = Renderer::new(&mut reg, presenter, canvas, FramebufferStatus::Complete).unwrap();
    assert_eq!(ri.indices.len(), 6 * 20_000);
    assert_eq!(&ri.indices[..6], &[0, 1, 3, 0, 3, 2]);
    assert_eq!(ri.presenter_components.len(), 24);
    assert!(!ri.renderer.canvas.initialized);
}

#[test]
fn renderer_refuses_an_incomplete_canvas() {
    let mut reg = ResourceRegistry::new();
    let (presenter, _) = Shader::Construct(&mut reg, &ok_report(), &ok_report(), &ok_report())
        .unwrap();
    let (canvas, _) = Shader::Construct(&mut reg, &ok_report(), &ok_report(), &ok_report())
        .unwrap();
    assert!(Renderer::new(&mut reg, presenter, canvas, FramebufferStatus::Incomplete).is_err());
}

#[test]
fn canvas_clears_only_on_the_very_first_pass() {
    let (_reg, mut renderer) = build_renderer();
    let camera = Camera::New(0);
    let first = renderer.render(&camera);
    // Canvas clear plus the per-frame window clear.
    assert_eq!(count_clear(&first.commands), 2);
    let second = renderer.render(&camera);
    // The persistent canvas is never cleared again; only the window is.
    assert_eq!(count_clear(&second.commands), 1);
    let third = renderer.render(&camera);
    assert_eq!(count_clear(&third.commands), 1);
}

#[test]
fn empty_batch_issues_no_indexed_draw() {
    let (_reg, mut renderer) = build_renderer();
    let camera = Camera::New(0);
    let out = renderer.render(&camera);
    assert_eq!(count_draw_elements(&out.commands), 0);
    assert_eq!(out.vertices.len(), 0);
}

#[test]
fn one_quad_renders_six_indices() {
    let (_reg, mut renderer) = build_renderer();
    let camera = Camera::New(0);
    renderer.addQuad((0, 0), BRUSH_QUAD_SIZE, None);
    let out = renderer.render(&camera);
    assert_eq!(count_draw_elements(&out.commands), 1);
    assert_eq!(draw_element_total(&out.commands), 6);
    assert_eq!(out.vertices.len(), 4);
}

#[test]
fn overflow_scenario_renders_across_two_passes() {
    let (_reg, mut renderer) = build_renderer();
    let camera = Camera::New(0);
    for i in 0..20_001i64 {
        renderer.addQuad((i, 0), BRUSH_QUAD_SIZE, None);
    }
    let first = renderer.render(&camera);
    // The current flush renders exactly the capacity of 20,000 quads.
    assert_eq!(draw_element_total(&first.commands), 6 * 20_000);
    assert_eq!(first.vertices.len(), 4 * 20_000);
    // The remaining quad was deferred, not lost: the next pass renders it.
    let second = renderer.render(&camera);
    assert_eq!(draw_element_total(&second.commands), 6);
    assert_eq!(second.vertices.len(), 4);
    // And nothing is duplicated: a third pass draws nothing.
    let third = renderer.render(&camera);
    assert_eq!(draw_element_total(&third.commands), 0);
}

#[test]
fn requests_mid_pass_are_queued_until_idle() {
    let (_reg, mut renderer) = build_renderer();
    let camera = Camera::New(0);
    let _canvas = renderer.render_canvas_pass();
    // A draw request arriving while a pass is in flight is queued, never
    // executed mid-pass.
    renderer.addQuad((5, 5), BRUSH_QUAD_SIZE, None);
    assert_eq!(renderer.pending.len(), 1);
    assert_eq!(renderer.batch.quads.len(), 0);
    let _present = renderer.render_present_pass(&camera);
    renderer.finish_frame();
    // At the next Idle transition the request joins the batch.
    assert_eq!(renderer.pending.len(), 0);
    assert_eq!(renderer.batch.quads.len(), 1);
}

#[test]
fn present_pass_draws_the_canvas_texture() {
    let (_reg, mut renderer) = build_renderer();
    let camera = Camera::New(0);
    let out = renderer.render(&camera);
    let tex = renderer.canvas.frameBuffer.TextureAttachment.ID;
    assert!(out.commands.contains(&GlCommand::BindTexture(tex)));
    assert!(out.commands.contains(&GlCommand::DrawArrays { first: 0, count: 6 }));
}

#[test]
fn layer_swap_exchanges_two_layers() {
    let (mut reg, mut renderer) = build_renderer();
    let (t1, _) = Texture::New(&mut reg);
    let (t2, _) = Texture::New(&mut reg);
    let (t3, _) = Texture::New(&mut reg);
    let mut layers = vec![
        Layer::new(t1, String::from("sky")),
        Layer::new(t2, String::from("hills")),
        Layer::new(t3, String::from("grass")),
    ];
    renderer.layerSwap(0, 2, &mut layers);
    assert_eq!(layers[0].name, "grass");
    assert_eq!(layers[1].name, "hills");
    assert_eq!(layers[2].name, "sky");
}

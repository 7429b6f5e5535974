use quadpaint::errors::{RenderError, ShaderStage};
use quadpaint::registry::ResourceRegistry;
use quadpaint::shader::{Shader, StageReport};
use quadpaint::shader_source::{build_shader_source, parse_shader_source};

fn lines(texts: &[&str]) -> Vec<String> {
    texts.iter().map(|t| t.to_string()).collect()
}

fn ok_report() -> StageReport {
    StageReport { success: true, log: String::new() }
}

fn failed_report(log: &str) -> StageReport {
    StageReport { success: false, log: log.to_string() }
}

#[test]
fn shader_source_round_trip() {
    let vertex = lines(&["#version 410", "void main() { gl_Position = vec4(0); }"]);
    let fragment = lines(&["#version 410", "out vec4 color;", "void main() { color = vec4(1); }"]);
    let file = build_shader_source(&vertex, &fragment);
    let (v, f) = parse_shader_source(&file);
    assert_eq!(v, vertex);
    assert_eq!(f, fragment);
}

#[test]
fn shader_source_round_trip_empty_sections() {
    let file = build_shader_source(&Vec::new(), &Vec::new());
    assert_eq!(file, lines(&["#type vertex", "#type fragment"]));
    let (v, f) = parse_shader_source(&file);
    assert!(v.is_empty());
    assert!(f.is_empty());
}

#[test]
fn lines_before_the_first_marker_are_discarded() {
    let file = lines(&["// stray comment", "#type vertex", "a", "#type fragment", "b"]);
    let (v, f) = parse_shader_source(&file);
    assert_eq!(v, lines(&["a"]));
    assert_eq!(f, lines(&["b"]));
}

#[test]
fn markers_switch_sections_in_any_order() {
    let file = lines(&["#type fragment", "f1", "#type vertex", "v1", "#type fragment", "f2"]);
    let (v, f) = parse_shader_source(&file);
    assert_eq!(v, lines(&["v1"]));
    assert_eq!(f, lines(&["f1", "f2"]));
}

#[test]
fn vertex_compile_failure_carries_stage_and_log() {
    let mut reg = ResourceRegistry::new();
    let r = Shader::Construct(&mut reg, &failed_report("bad vertex"), &ok_report(), &ok_report());
    match r {
        Err(RenderError::ShaderCompileError { stage, log }) => {
            assert_eq!(stage, ShaderStage::Vertex);
            assert_eq!(log, "bad vertex");
        },
        other => panic!("expected a vertex compile error, got {:?}", other.is_ok()),
    }
}

#[test]
fn fragment_compile_failure_carries_stage_and_log() {
    let mut reg = ResourceRegistry::new();
    let r = Shader::Construct(&mut reg, &ok_report(), &failed_report("bad fragment"), &ok_report());
    match r {
        Err(RenderError::ShaderCompileError { stage, log }) => {
            assert_eq!(stage, ShaderStage::Fragment);
            assert_eq!(log, "bad fragment");
        },
        _ => panic!("expected a fragment compile error"),
    }
}

#[test]
fn link_failure_carries_log_and_leaves_no_program() {
    let mut reg = ResourceRegistry::new();
    let before = reg.created.len();
    let r = Shader::Construct(&mut reg, &ok_report(), &ok_report(), &failed_report("bad link"));
    match r {
        Err(RenderError::ShaderLinkError { log }) => assert_eq!(log, "bad link"),
        _ => panic!("expected a link error"),
    }
    // No partially-linked program handle is live.
    assert_eq!(reg.created.len(), before);
}

#[test]
fn successful_build_yields_a_live_program() {
    let mut reg = ResourceRegistry::new();
    let r = Shader::Construct(&mut reg, &ok_report(), &ok_report(), &ok_report());
    let (shader, _cmd) = r.expect("all stages succeeded");
    assert_ne!(shader.id, 0);
    assert!(shader.locations.is_empty());
}

#[test]
fn uniform_locations_cache_lazily() {
    let mut reg = ResourceRegistry::new();
    let (mut shader, _) =
        Shader::Construct(&mut reg, &ok_report(), &ok_report(), &ok_report()).unwrap();
    let name = String::from("view");
    assert_eq!(shader.cached_location(&name), None);
    // First upload caches the context-resolved location.
    let cmd = shader.UploadInt(7, &name, 3);
    match cmd {
        quadpaint::commands::GlCommand::UploadUniform { location, .. } => assert_eq!(location, 3),
        _ => panic!("expected a uniform upload"),
    }
    assert_eq!(shader.cached_location(&name), Some(3));
    // A later upload of the same name keeps the cached location; the fresh
    // value is ignored.
    let cmd = shader.UploadInt(8, &name, 99);
    match cmd {
        quadpaint::commands::GlCommand::UploadUniform { location, .. } => assert_eq!(location, 3),
        _ => panic!("expected a uniform upload"),
    }
    // A different name gets its own entry.
    let other = String::from("proj");
    let cmd = shader.UploadBool(true, &other, 5);
    match cmd {
        quadpaint::commands::GlCommand::UploadUniform { location, .. } => assert_eq!(location, 5),
        _ => panic!("expected a uniform upload"),
    }
    assert_eq!(shader.locations.len(), 2);
}

#[test]
fn shader_activation_is_idempotent() {
    let mut reg = ResourceRegistry::new();
    let (shader, _) = Shader::Construct(&mut reg, &ok_report(), &ok_report(), &ok_report()).unwrap();
    let mut binds = quadpaint::commands::BindState::new();
    assert!(shader.Activate(&mut binds).is_some());
    assert!(shader.Activate(&mut binds).is_none());
    assert!(shader.DeActivate(&mut binds).is_some());
    assert!(shader.DeActivate(&mut binds).is_none());
}

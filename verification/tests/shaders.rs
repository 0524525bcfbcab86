use std::rc::Rc;

use render_core::error::RenderError;
use render_core::shaders::GL_COMPUTE_SHADER;
use render_core::shaders::GL_FRAGMENT_SHADER;
use render_core::shaders::GL_GEOMETRY_SHADER;
use render_core::shaders::GL_VERTEX_SHADER;
use render_core::shaders::Program;
use render_core::shaders::Shader;
use render_core::shaders::ShaderType;
use render_core::shaders::finish_program;
use render_core::shaders::get_gl_shader_type;
use render_core::shaders::get_shader_type;
use render_core::shaders::shader_loader::ShaderPlan;
use render_core::shaders::shader_loader::finish_shader;
use render_core::shaders::shader_loader::parse_uniforms;
use render_core::shaders::shader_loader::prepare_shader;

#[test]
fn stage_kind_from_extension() {
    assert_eq!(get_shader_type("a/b.vs"), Some(ShaderType::VERTEX));
    assert_eq!(get_shader_type("x.fs"), Some(ShaderType::FRAGMENT));
    assert_eq!(get_shader_type("x.gs"), Some(ShaderType::GEOMETRY));
    assert_eq!(get_shader_type("x.cs"), Some(ShaderType::COMPUTE));
    assert_eq!(get_shader_type("x.txt"), None);
}

#[test]
fn stage_kind_edge_paths() {
    // no extension at all
    assert_eq!(get_shader_type("shader"), None);
    assert_eq!(get_shader_type(""), None);
    // a leading dot marks a hidden name, not an extension
    assert_eq!(get_shader_type(".vs"), None);
    assert_eq!(get_shader_type("dir/.vs"), None);
    // only the final component counts
    assert_eq!(get_shader_type("dir.vs/file"), None);
    assert_eq!(get_shader_type("data/shaders/basic/projection.vs"), Some(ShaderType::VERTEX));
    // the last dot decides
    assert_eq!(get_shader_type("a.b.fs"), Some(ShaderType::FRAGMENT));
    assert_eq!(get_shader_type("a.fs.txt"), None);
}

#[test]
fn gl_enumerants_match_the_registry() {
    assert_eq!(get_gl_shader_type(&Some(ShaderType::VERTEX)), Some(0x8B31));
    assert_eq!(get_gl_shader_type(&Some(ShaderType::FRAGMENT)), Some(0x8B30));
    assert_eq!(get_gl_shader_type(&Some(ShaderType::GEOMETRY)), Some(0x8DD9));
    assert_eq!(get_gl_shader_type(&Some(ShaderType::COMPUTE)), Some(0x91B9));
    assert_eq!(get_gl_shader_type(&None), None);
    assert_eq!(GL_VERTEX_SHADER, 0x8B31);
    assert_eq!(GL_FRAGMENT_SHADER, 0x8B30);
    assert_eq!(GL_GEOMETRY_SHADER, 0x8DD9);
    assert_eq!(GL_COMPUTE_SHADER, 0x91B9);
}

#[test]
fn parse_single_uniform() {
    assert_eq!(parse_uniforms("uniform mat4 projection;"), vec!["projection"]);
    assert_eq!(parse_uniforms("uniform vec4 light_pos;"), vec!["light_pos"]);
}

#[test]
fn parse_malformed_uniform_contributes_nothing() {
    assert_eq!(parse_uniforms("uniform broken"), Vec::<String>::new());
}

#[test]
fn parse_keeps_source_order_and_duplicates() {
    let src = "#version 330\nuniform mat4 view;\nuniform mat4 view;\nvoid main() {\n}\nuniform vec4 eye_pos;\n";
    assert_eq!(parse_uniforms(src), vec!["view", "view", "eye_pos"]);
}

#[test]
fn parse_handles_crlf_lines() {
    let src = "uniform mat4 model;\r\nuniform vec4 light_pos;\r\n";
    assert_eq!(parse_uniforms(src), vec!["model", "light_pos"]);
}

#[test]
fn parse_strips_every_trailing_semicolon() {
    assert_eq!(parse_uniforms("uniform vec4 p;;"), vec!["p"]);
    assert_eq!(parse_uniforms("uniform vec4 q"), vec!["q"]);
}

#[test]
fn parse_splits_on_whitespace_runs() {
    // a run of whitespace counts as one separator
    assert_eq!(parse_uniforms("uniform  mat4 name;"), vec!["name"]);
    assert_eq!(parse_uniforms("uniform mat4\tname;"), vec!["name"]);
    // trailing whitespace makes no third token
    assert_eq!(parse_uniforms("uniform broken   "), Vec::<String>::new());
    // the declaration must open the line
    assert_eq!(parse_uniforms("  uniform mat4 name;"), Vec::<String>::new());
}

#[test]
fn parse_empty_source() {
    assert_eq!(parse_uniforms(""), Vec::<String>::new());
    assert_eq!(parse_uniforms("\n\n"), Vec::<String>::new());
}

#[test]
fn prepare_shader_requires_source() {
    let r = prepare_shader("x.vs", None);
    assert!(matches!(r, Err(RenderError::SourceUnreadable)));
}

#[test]
fn prepare_shader_fails_closed_on_unknown_extension() {
    let r = prepare_shader("x.txt", Some("void main() {}"));
    assert!(matches!(r, Err(RenderError::UnknownStageKind)));
}

#[test]
fn prepare_shader_fixes_kind_and_enumerant() {
    let plan = prepare_shader("a/b.vs", Some("void main() {}")).unwrap();
    assert_eq!(plan, ShaderPlan { shader_type: ShaderType::VERTEX, gl_kind: 0x8B31 });
    let plan = prepare_shader("phong.fs", Some("void main() {}")).unwrap();
    assert_eq!(plan, ShaderPlan { shader_type: ShaderType::FRAGMENT, gl_kind: 0x8B30 });
}

#[test]
fn failed_compile_surfaces_the_log_and_no_stage() {
    let r = finish_shader("bad.fs", "uniform vec4 p;", 7, false, String::from("syntax error"));
    match r {
        Err(RenderError::CompileError(log)) => assert_eq!(log, "syntax error"),
        other => panic!("expected a compile error, got {:?}", other),
    }
}

#[test]
fn null_shader_object_is_exhausted() {
    let r = finish_shader("ok.vs", "", 0, true, String::new());
    assert!(matches!(r, Err(RenderError::ResourceExhausted)));
}

#[test]
fn successful_compile_carries_kind_and_uniforms() {
    let src = "uniform mat4 projection;\nuniform mat4 view;\nvoid main() {}\n";
    let s = finish_shader("data/projection.vs", src, 11, true, String::new()).unwrap();
    assert_eq!(s.addr, 11);
    assert_eq!(s.path, "data/projection.vs");
    assert_eq!(s.shader_type, ShaderType::VERTEX);
    assert_eq!(s.uniforms, vec!["projection", "view"]);
}

fn stage(addr: u32, kind: ShaderType) -> Rc<Shader> {
    Rc::new(Shader {
        addr,
        path: String::from("s"),
        uniforms: Vec::new(),
        shader_type: kind,
    })
}

#[test]
fn failed_link_surfaces_the_log() {
    let stages = vec![stage(3, ShaderType::VERTEX)];
    let r = finish_program(stages, 9, false, String::from("link failed"));
    match r {
        Err(RenderError::LinkError(log)) => assert_eq!(log, "link failed"),
        other => panic!("expected a link error, got {:?}", other),
    }
}

#[test]
fn null_program_object_is_exhausted() {
    let stages = vec![stage(3, ShaderType::VERTEX)];
    let r = finish_program(stages, 0, true, String::new());
    assert!(matches!(r, Err(RenderError::ResourceExhausted)));
}

#[test]
fn linked_program_starts_with_empty_cache() {
    let stages = vec![stage(3, ShaderType::VERTEX), stage(4, ShaderType::FRAGMENT)];
    let p = finish_program(stages, 9, true, String::new()).unwrap();
    assert_eq!(p.addr, 9);
    assert_eq!(p.shader.len(), 2);
    assert!(p.uniforms_location.is_empty());
    assert_eq!(p.get_uniform_location("view"), None);
}

#[test]
fn stages_are_shared_between_programs() {
    let vertex = stage(3, ShaderType::VERTEX);
    let phong = stage(4, ShaderType::FRAGMENT);
    let flat = stage(5, ShaderType::FRAGMENT);
    let a = finish_program(vec![vertex.clone(), phong], 9, true, String::new()).unwrap();
    let b = finish_program(vec![vertex.clone(), flat], 10, true, String::new()).unwrap();
    assert_eq!(a.shader[0].addr, b.shader[0].addr);
    assert_eq!(Rc::strong_count(&vertex), 3);
}

#[test]
fn uniform_location_is_cached_once() {
    let mut p = finish_program(vec![stage(3, ShaderType::VERTEX)], 9, true, String::new()).unwrap();
    assert_eq!(p.get_uniform_location("projection"), None);
    p.set_uniform_location("projection", 2);
    assert_eq!(p.get_uniform_location("projection"), Some(2));
    // the first record wins for the program's life
    p.set_uniform_location("projection", 8);
    assert_eq!(p.get_uniform_location("projection"), Some(2));
    assert_eq!(p.uniforms_location.len(), 1);
}

#[test]
fn uniform_cache_keeps_names_apart() {
    let mut p = finish_program(vec![stage(3, ShaderType::VERTEX)], 9, true, String::new()).unwrap();
    p.set_uniform_location("view", 0);
    p.set_uniform_location("model", 1);
    // an unknown name resolves to the driver's sentinel and stays a no-op
    p.set_uniform_location("missing", -1);
    assert_eq!(p.get_uniform_location("view"), Some(0));
    assert_eq!(p.get_uniform_location("model"), Some(1));
    assert_eq!(p.get_uniform_location("missing"), Some(-1));
    assert_eq!(p.get_uniform_location("eye_pos"), None);
}

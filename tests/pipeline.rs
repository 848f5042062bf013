use typed_gl::gl::context::{Context, GlCall};
use typed_gl::gl::program::ProgramId;
use typed_gl::gl::shader::ShaderId;
use typed_gl::gl::sys::{self, RawHandle};
use typed_gl::program::{self, Program};
use typed_gl::resources;
use typed_gl::shader::{self, Kind, Profile, Shader};

#[test]
fn kinds_map_to_shader_types() {
    assert_eq!(Kind::Vertex.gl_type().raw_handle(), sys::VERTEX_SHADER);
    assert_eq!(Kind::Fragment.gl_type().raw_handle(), sys::FRAGMENT_SHADER);
    assert_eq!(Kind::Geometry.gl_type().raw_handle(), sys::GEOMETRY_SHADER);
    assert_eq!(Kind::TessellationControl.gl_type().raw_handle(), sys::TESS_CONTROL_SHADER);
    assert_eq!(Kind::TessellationEvaluation.gl_type().raw_handle(), sys::TESS_EVALUATION_SHADER);
    assert_eq!(Kind::Compute.gl_type().raw_handle(), sys::COMPUTE_SHADER);
}

#[test]
fn file_extension_picks_the_kind() {
    assert_eq!(Kind::from_file_name("shaders/imgui.vert").ok(), Some(Kind::Vertex));
    assert_eq!(Kind::from_file_name("triangle.frag").ok(), Some(Kind::Fragment));
    match Kind::from_file_name("vertex.glsl") {
        Err(shader::Error::UnsupportedFileExtension(name)) => assert_eq!(name, "vertex.glsl"),
        other => panic!("unexpected {:?}", other),
    }
    assert!(matches!(Kind::from_file_name("vert"), Err(shader::Error::UnsupportedFileExtension(_))));
    assert!(matches!(Kind::from_file_name(""), Err(shader::Error::UnsupportedFileExtension(_))));
}

#[test]
fn compiled_shader_keeps_its_handle_and_kind() {
    let mut ctx = Context::new();
    let id = ShaderId::from_raw(3);
    Shader::compile_source(&mut ctx, id, "void main() {}");
    let shader = Shader::from_compile_status(&mut ctx, id, Kind::Vertex, true, Some(String::from("ok"))).unwrap();
    assert_eq!(shader.id(), id);
    assert_ne!(shader.id().raw_handle(), 0);
    assert_eq!(shader.kind(), Kind::Vertex);
    assert_eq!(
        ctx.calls(),
        &vec![GlCall::ShaderSource { shader: 3, source: 0 }, GlCall::CompileShader { shader: 3 }]
    );
    shader.delete(&mut ctx);
    assert_eq!(ctx.calls().last(), Some(&GlCall::DeleteShader { shader: 3 }));
}

#[test]
fn failed_compile_reports_the_log_and_deletes_the_shader() {
    let mut ctx = Context::new();
    let id = ShaderId::from_raw(4);
    let log = String::from("0:1(1): error: syntax error, unexpected IDENTIFIER");
    match Shader::from_compile_status(&mut ctx, id, Kind::Fragment, false, Some(log.clone())) {
        Err(shader::Error::ShaderCompilation(message)) => assert_eq!(message, log),
        other => panic!("unexpected {:?}", other.map(|s| s.id())),
    }
    assert_eq!(ctx.calls(), &vec![GlCall::DeleteShader { shader: 4 }]);
}

#[test]
fn failed_compile_without_log_says_unknown_error() {
    let mut ctx = Context::new();
    for log in [None, Some(String::new())] {
        match Shader::from_compile_status(&mut ctx, ShaderId::from_raw(0), Kind::Vertex, false, log) {
            Err(shader::Error::ShaderCompilation(message)) => assert_eq!(message, "Unknown error"),
            other => panic!("unexpected {:?}", other.map(|s| s.id())),
        }
    }
    assert!(ctx.calls().is_empty());
}

#[test]
fn linking_attaches_links_then_detaches() {
    let mut ctx = Context::new();
    let vertex = Shader::from_compile_status(&mut ctx, ShaderId::from_raw(1), Kind::Vertex, true, None).unwrap();
    let fragment = Shader::from_compile_status(&mut ctx, ShaderId::from_raw(2), Kind::Fragment, true, None).unwrap();
    let id = ProgramId::from_raw(9);
    Program::link_shaders(&mut ctx, id, &[&vertex, &fragment]);
    assert_eq!(
        ctx.calls(),
        &vec![
            GlCall::AttachShader { program: 9, shader: 1 },
            GlCall::AttachShader { program: 9, shader: 2 },
            GlCall::LinkProgram { program: 9 },
            GlCall::DetachShader { program: 9, shader: 1 },
            GlCall::DetachShader { program: 9, shader: 2 },
        ]
    );
    let program = Program::from_link_status(&mut ctx, id, true, None).unwrap();
    assert_eq!(program.id(), id);
    program.set_used(&mut ctx);
    assert_eq!(ctx.calls().last(), Some(&GlCall::UseProgram { program: 9 }));
    program.delete(&mut ctx);
    assert_eq!(ctx.calls().last(), Some(&GlCall::DeleteProgram { program: 9 }));
}

#[test]
fn failed_link_reports_program_link_and_deletes_the_program() {
    let mut ctx = Context::new();
    let vertex_a = Shader::from_compile_status(&mut ctx, ShaderId::from_raw(1), Kind::Vertex, true, None).unwrap();
    let vertex_b = Shader::from_compile_status(&mut ctx, ShaderId::from_raw(2), Kind::Vertex, true, None).unwrap();
    let id = ProgramId::from_raw(5);
    Program::link_shaders(&mut ctx, id, &[&vertex_a, &vertex_b]);
    let log = String::from("error: no fragment shader attached");
    match Program::from_link_status(&mut ctx, id, false, Some(log.clone())) {
        Err(program::Error::ProgramLink(message)) => assert_eq!(message, log),
        Ok(_) => panic!("link failure accepted"),
    }
    assert_eq!(ctx.calls().last(), Some(&GlCall::DeleteProgram { program: 5 }));
    match Program::from_link_status(&mut ctx, id, false, None) {
        Err(program::Error::ProgramLink(message)) => assert_eq!(message, "Unknown error"),
        Ok(_) => panic!("link failure accepted"),
    }
}

#[test]
fn text_with_a_zero_byte_is_rejected() {
    assert!(resources::check_no_nul(&b"void main() {}".to_vec()).is_ok());
    assert!(resources::check_no_nul(&Vec::new()).is_ok());
    assert!(matches!(resources::check_no_nul(&vec![65, 0, 66]), Err(resources::Error::FileContainsNil)));
    assert!(matches!(resources::check_no_nul(&vec![0]), Err(resources::Error::FileContainsNil)));
}

#[test]
fn embedded_profile_offers_only_vertex_and_fragment_stages() {
    assert_eq!(Kind::Vertex.gl_type_in(Profile::Embedded).unwrap().raw_handle(), sys::VERTEX_SHADER);
    assert_eq!(Kind::Fragment.gl_type_in(Profile::Embedded).unwrap().raw_handle(), sys::FRAGMENT_SHADER);
    for kind in [Kind::Geometry, Kind::TessellationControl, Kind::TessellationEvaluation, Kind::Compute] {
        match kind.gl_type_in(Profile::Embedded) {
            Err(shader::Error::ShaderTypeNotSupported(k)) => assert_eq!(k, kind),
            other => panic!("unexpected {:?}", other.map(|s| s.raw_handle())),
        }
        assert_eq!(kind.gl_type_in(Profile::Desktop).unwrap().raw_handle(), kind.gl_type().raw_handle());
    }
}

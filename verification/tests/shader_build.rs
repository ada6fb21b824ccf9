use shader_preview::shader::{
    compose_shader_source, glsl_preamble, uniform_names, BuildState, ShaderError, Stage,
};

#[test]
fn preamble_is_the_two_directives() {
    assert_eq!(glsl_preamble(), "#version 310 es\nprecision highp float;\n");
}

#[test]
fn composed_source_is_preamble_then_body() {
    let body = "void main() { gl_Position = vec4(pos, 1.0); }";
    let composed = compose_shader_source(body);
    assert_eq!(
        composed,
        format!("#version 310 es\nprecision highp float;\n{}", body)
    );
}

#[test]
fn build_protocol_success_path() {
    let s = BuildState::start();
    let s = s.build_step(Ok(11));
    assert!(matches!(s, BuildState::NeedFragmentCompile { vertex: 11 }));
    let s = s.build_step(Ok(22));
    assert!(matches!(
        s,
        BuildState::NeedLink {
            vertex: 11,
            fragment: 22
        }
    ));
    let s = s.build_step(Ok(33));
    assert!(matches!(s, BuildState::Done { program: 33 }));
}

#[test]
fn invalid_fragment_shader_surfaces_compile_diagnostics() {
    let s = BuildState::start();
    let s = s.build_step(Ok(11));
    let log = "0:12: 'frag_color' : undeclared identifier";
    let s = s.build_step(Err(log.to_string()));
    match s {
        BuildState::Failed { error } => {
            match &error {
                ShaderError::CompileFailure { stage, log: carried } => {
                    assert_eq!(*stage, Stage::Fragment);
                    assert_eq!(carried, log);
                }
                other => panic!("expected a compile failure, got {:?}", other),
            }
            let message = error.message();
            assert!(message.contains("COMPILATION_FAILED"));
            assert!(message.contains(log));
            assert_eq!(
                message,
                format!("ERROR::SHADER::FRAGMENT::COMPILATION_FAILED\n{}", log)
            );
        }
        other => panic!("expected the build to fail, got {:?}", other),
    }
}

#[test]
fn invalid_vertex_shader_fails_the_vertex_stage() {
    let s = BuildState::start();
    let s = s.build_step(Err("syntax error".to_string()));
    match s {
        BuildState::Failed { error } => {
            assert_eq!(
                error.message(),
                "ERROR::SHADER::VERTEX::COMPILATION_FAILED\nsyntax error"
            );
        }
        other => panic!("expected the build to fail, got {:?}", other),
    }
}

#[test]
fn link_failure_surfaces_link_diagnostics() {
    let s = BuildState::start();
    let s = s.build_step(Ok(1));
    let s = s.build_step(Ok(2));
    let s = s.build_step(Err("varying mismatch".to_string()));
    match s {
        BuildState::Failed { error } => {
            assert!(matches!(&error, ShaderError::LinkFailure { .. }));
            assert_eq!(
                error.message(),
                "ERROR::SHADER::PROGRAM::LINK_FAILED\nvarying mismatch"
            );
        }
        other => panic!("expected the build to fail, got {:?}", other),
    }
}

#[test]
fn failed_build_is_terminal() {
    let s = BuildState::start();
    let s = s.build_step(Err("bad".to_string()));
    let s = s.build_step(Ok(5));
    assert!(matches!(s, BuildState::Failed { .. }));
}

#[test]
fn uniform_names_in_query_order() {
    let names = uniform_names();
    assert_eq!(
        names,
        vec!["resolution", "obj", "time", "shininess", "camera_eye"]
    );
}

use gl_triangle::gpu::{GpuCall, GpuReply, Stage};
use gl_triangle::shader::{BuildError, Progress, ShaderBuild, ShaderProgram, ShaderSource};

const VS: &str = "#version 130\nin vec3 position;\nvoid main(){gl_Position=vec4(position,1.0);}";
const FS: &str = "#version 130\nout vec4 outColor;\nvoid main(){outColor=vec4(1.0,1.0,1.0,1.0);}";

fn source() -> ShaderSource {
    ShaderSource { vertex: VS.to_string(), fragment: FS.to_string() }
}

fn pending(progress: Progress) -> (ShaderBuild, Vec<GpuCall>) {
    match progress {
        Progress::Pending { build, calls } => (build, calls),
        other => panic!("the build ended early: {:?}", other),
    }
}

fn failed(progress: Progress) -> (BuildError, Vec<GpuCall>) {
    match progress {
        Progress::Failed { error, calls } => (error, calls),
        other => panic!("the build did not fail: {:?}", other),
    }
}

fn built(progress: Progress) -> (ShaderProgram, Vec<GpuCall>) {
    match progress {
        Progress::Built { program, calls } => (program, calls),
        other => panic!("the build did not finish: {:?}", other),
    }
}

/// Drives a build up to the point where it waits for the link status.
fn up_to_link(names: Vec<String>) -> ShaderBuild {
    let (build, _) = ShaderBuild::begin(source(), names);
    let (build, _) = pending(build.step(GpuReply::Handle(1)));
    let (build, _) = pending(build.step(GpuReply::Status(true)));
    let (build, _) = pending(build.step(GpuReply::Handle(2)));
    let (build, _) = pending(build.step(GpuReply::Status(true)));
    let (build, _) = pending(build.step(GpuReply::Handle(3)));
    build
}

#[test]
fn build_starts_with_a_vertex_stage_object() {
    let (build, calls) = ShaderBuild::begin(source(), vec!["position".to_string()]);
    assert_eq!(calls, vec![GpuCall::CreateShader(Stage::Vertex)]);
    assert_eq!(build.source_text(Stage::Vertex), VS);
    assert_eq!(build.source_text(Stage::Fragment), FS);
    assert_eq!(build.attribute_name(0), Some("position"));
    assert_eq!(build.attribute_name(1), None);
}

#[test]
fn valid_sources_build_a_program_step_by_step() {
    let (build, _) = ShaderBuild::begin(source(), vec!["position".to_string()]);
    let (build, calls) = pending(build.step(GpuReply::Handle(7)));
    assert_eq!(
        calls,
        vec![
            GpuCall::ShaderSource { shader: 7, stage: Stage::Vertex },
            GpuCall::CompileShader(7),
            GpuCall::QueryCompileStatus(7),
        ]
    );
    let (build, calls) = pending(build.step(GpuReply::Status(true)));
    assert_eq!(calls, vec![GpuCall::CreateShader(Stage::Fragment)]);
    let (build, calls) = pending(build.step(GpuReply::Handle(8)));
    assert_eq!(
        calls,
        vec![
            GpuCall::ShaderSource { shader: 8, stage: Stage::Fragment },
            GpuCall::CompileShader(8),
            GpuCall::QueryCompileStatus(8),
        ]
    );
    let (build, calls) = pending(build.step(GpuReply::Status(true)));
    assert_eq!(calls, vec![GpuCall::CreateProgram]);
    let (build, calls) = pending(build.step(GpuReply::Handle(9)));
    assert_eq!(
        calls,
        vec![
            GpuCall::AttachShader { program: 9, shader: 7 },
            GpuCall::AttachShader { program: 9, shader: 8 },
            GpuCall::LinkProgram(9),
            GpuCall::QueryLinkStatus(9),
        ]
    );
    let (build, calls) = pending(build.step(GpuReply::Status(true)));
    assert_eq!(
        calls,
        vec![
            GpuCall::DeleteShader(7),
            GpuCall::DeleteShader(8),
            GpuCall::QueryAttributeLocation { program: 9, index: 0 },
        ]
    );
    let (program, calls) = built(build.step(GpuReply::Location(4)));
    assert!(calls.is_empty());
    assert_eq!(program.handle(), 9);
    assert!(program.is_live());
    assert_eq!(program.slot_of(&"position".to_string()).ok(), Some(4));
}

#[test]
fn program_without_names_is_built_at_link() {
    let build = up_to_link(Vec::new());
    let (program, calls) = built(build.step(GpuReply::Status(true)));
    assert_eq!(calls, vec![GpuCall::DeleteShader(1), GpuCall::DeleteShader(2)]);
    assert_eq!(program.handle(), 3);
}

#[test]
fn two_names_are_resolved_in_order() {
    let build = up_to_link(vec!["position".to_string(), "color".to_string()]);
    let (build, _) = pending(build.step(GpuReply::Status(true)));
    let (build, calls) = pending(build.step(GpuReply::Location(0)));
    assert_eq!(calls, vec![GpuCall::QueryAttributeLocation { program: 3, index: 1 }]);
    assert_eq!(build.attribute_name(1), Some("color"));
    let (program, _) = built(build.step(GpuReply::Location(1)));
    assert_eq!(program.slot_of(&"position".to_string()).ok(), Some(0));
    assert_eq!(program.slot_of(&"color".to_string()).ok(), Some(1));
}

#[test]
fn vertex_compile_failure_names_the_vertex_stage() {
    let (build, _) = ShaderBuild::begin(source(), vec!["position".to_string()]);
    let (build, _) = pending(build.step(GpuReply::Handle(1)));
    let (build, calls) = pending(build.step(GpuReply::Status(false)));
    assert_eq!(calls, vec![GpuCall::QueryShaderLog(1)]);
    let (error, calls) = failed(build.step(GpuReply::Log("0:1: syntax error".to_string())));
    match error {
        BuildError::ShaderCompileError { stage, log } => {
            assert_eq!(stage, Stage::Vertex);
            assert_eq!(log, "0:1: syntax error");
        }
        other => panic!("wrong error: {:?}", other),
    }
    assert_eq!(calls, vec![GpuCall::DeleteShader(1)]);
}

#[test]
fn fragment_compile_failure_names_the_fragment_stage() {
    let (build, _) = ShaderBuild::begin(source(), vec!["position".to_string()]);
    let (build, _) = pending(build.step(GpuReply::Handle(1)));
    let (build, _) = pending(build.step(GpuReply::Status(true)));
    let (build, _) = pending(build.step(GpuReply::Handle(2)));
    let (build, calls) = pending(build.step(GpuReply::Status(false)));
    assert_eq!(calls, vec![GpuCall::QueryShaderLog(2)]);
    let (error, calls) = failed(build.step(GpuReply::Log("bad fragment".to_string())));
    match error {
        BuildError::ShaderCompileError { stage, log } => {
            assert_eq!(stage, Stage::Fragment);
            assert_eq!(log, "bad fragment");
        }
        other => panic!("wrong error: {:?}", other),
    }
    assert_eq!(calls, vec![GpuCall::DeleteShader(1), GpuCall::DeleteShader(2)]);
}

#[test]
fn link_failure_releases_stages_and_program() {
    let build = up_to_link(vec!["position".to_string()]);
    let (build, calls) = pending(build.step(GpuReply::Status(false)));
    assert_eq!(calls, vec![GpuCall::QueryProgramLog(3)]);
    let (error, calls) = failed(build.step(GpuReply::Log("varying mismatch".to_string())));
    match error {
        BuildError::ShaderLinkError { log } => assert_eq!(log, "varying mismatch"),
        other => panic!("wrong error: {:?}", other),
    }
    assert_eq!(
        calls,
        vec![GpuCall::DeleteShader(1), GpuCall::DeleteShader(2), GpuCall::DeleteProgram(3)]
    );
}

#[test]
fn repeated_failing_builds_release_every_time() {
    for _ in 0..3 {
        let build = up_to_link(Vec::new());
        let (build, _) = pending(build.step(GpuReply::Status(false)));
        let (_, calls) = failed(build.step(GpuReply::Log(String::new())));
        assert_eq!(calls.len(), 3);
    }
}

#[test]
fn missing_attribute_is_named() {
    let build = up_to_link(vec!["position".to_string(), "normal".to_string()]);
    let (build, _) = pending(build.step(GpuReply::Status(true)));
    let (build, _) = pending(build.step(GpuReply::Location(0)));
    let (error, calls) = failed(build.step(GpuReply::Location(-1)));
    match error {
        BuildError::AttributeNotFoundError { name } => assert_eq!(name, "normal"),
        other => panic!("wrong error: {:?}", other),
    }
    assert_eq!(calls, vec![GpuCall::DeleteProgram(3)]);
}

#[test]
fn zero_shader_handle_is_fatal() {
    let (build, _) = ShaderBuild::begin(source(), Vec::new());
    let (error, calls) = failed(build.step(GpuReply::Handle(0)));
    assert!(matches!(error, BuildError::FatalDriverError));
    assert!(calls.is_empty());
}

#[test]
fn zero_program_handle_is_fatal_and_releases_stages() {
    let (build, _) = ShaderBuild::begin(source(), Vec::new());
    let (build, _) = pending(build.step(GpuReply::Handle(1)));
    let (build, _) = pending(build.step(GpuReply::Status(true)));
    let (build, _) = pending(build.step(GpuReply::Handle(2)));
    let (build, _) = pending(build.step(GpuReply::Status(true)));
    let (error, calls) = failed(build.step(GpuReply::Handle(0)));
    assert!(matches!(error, BuildError::FatalDriverError));
    assert_eq!(calls, vec![GpuCall::DeleteShader(1), GpuCall::DeleteShader(2)]);
}

#[test]
fn unexpected_reply_is_fatal() {
    let (build, _) = ShaderBuild::begin(source(), Vec::new());
    let (build, _) = pending(build.step(GpuReply::Handle(1)));
    let (error, calls) = failed(build.step(GpuReply::Location(0)));
    assert!(matches!(error, BuildError::FatalDriverError));
    assert_eq!(calls, vec![GpuCall::DeleteShader(1)]);

    let (build, _) = ShaderBuild::begin(source(), Vec::new());
    let (error, _) = failed(build.step(GpuReply::Nothing));
    assert!(matches!(error, BuildError::FatalDriverError));

    let (build, _) = ShaderBuild::begin(source(), Vec::new());
    let (error, _) = failed(build.step(GpuReply::Log("x".to_string())));
    assert!(matches!(error, BuildError::FatalDriverError));

    let (build, _) = ShaderBuild::begin(source(), Vec::new());
    let (error, _) = failed(build.step(GpuReply::Status(true)));
    assert!(matches!(error, BuildError::FatalDriverError));
}

#[test]
fn lookup_of_an_unknown_name_fails_with_that_name() {
    let build = up_to_link(vec!["position".to_string()]);
    let (build, _) = pending(build.step(GpuReply::Status(true)));
    let (program, _) = built(build.step(GpuReply::Location(2)));
    match program.slot_of(&"color".to_string()) {
        Err(BuildError::AttributeNotFoundError { name }) => assert_eq!(name, "color"),
        other => panic!("wrong result: {:?}", other),
    }
}

#[test]
fn program_release_deletes_once() {
    let build = up_to_link(Vec::new());
    let (mut program, _) = built(build.step(GpuReply::Status(true)));
    assert_eq!(program.release(), vec![GpuCall::DeleteProgram(3)]);
    assert!(!program.is_live());
    assert_eq!(program.release(), Vec::new());
    assert_eq!(program.handle(), 3);
}

#[test]
fn diagnostic_is_the_driver_log_verbatim() {
    let compile = BuildError::ShaderCompileError {
        stage: Stage::Vertex,
        log: "ERROR: 0:3: 'x' : undeclared identifier\n".to_string(),
    };
    assert_eq!(compile.diagnostic(), "ERROR: 0:3: 'x' : undeclared identifier\n");
    let link = BuildError::ShaderLinkError { log: "error: v_color not written".to_string() };
    assert_eq!(link.diagnostic(), "error: v_color not written");
    let missing = BuildError::AttributeNotFoundError { name: "normal".to_string() };
    assert_eq!(missing.diagnostic(), "normal");
    assert_eq!(BuildError::FatalDriverError.diagnostic(), "the graphics driver failed");
}

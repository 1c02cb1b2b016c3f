use gl_triangle::bootstrap::{handle_window_event, Action, Bootstrap, Key, Lifecycle, WindowEvent};
use gl_triangle::frame::{render_frame, FrameConfig};
use gl_triangle::geometry::{
    flatten_vertices, layout_for, AttributeBinding, GeometryBuffer, GeometryUpload, Triple,
    UploadProgress, Vertex,
};
use gl_triangle::gpu::{Color, ComponentKind, GpuCall, GpuReply};
use gl_triangle::shader::{Progress, ShaderBuild, ShaderProgram, ShaderSource};

fn triple(a: f32, b: f32, c: f32) -> Triple {
    Triple { a: a.to_bits(), b: b.to_bits(), c: c.to_bits() }
}

fn vertex(x: f32, y: f32, z: f32) -> Vertex {
    Vertex { position: triple(x, y, z), color: triple(1.0, 1.0, 1.0) }
}

fn triangle() -> Vec<Vertex> {
    vec![vertex(-1.0, -1.0, 0.0), vertex(1.0, -1.0, 0.0), vertex(0.0, 1.0, 0.0)]
}

fn config() -> FrameConfig {
    FrameConfig {
        background: Color {
            red: 0.5f32.to_bits(),
            green: 0.0f32.to_bits(),
            blue: 0.0f32.to_bits(),
            alpha: 1.0f32.to_bits(),
        },
        clear_depth: false,
    }
}

fn program(names: &[&str], slots: &[i32]) -> ShaderProgram {
    let source = ShaderSource {
        vertex: "#version 130\nin vec3 position;\nvoid main(){gl_Position=vec4(position,1.0);}"
            .to_string(),
        fragment: "#version 130\nout vec4 outColor;\nvoid main(){outColor=vec4(1.0,1.0,1.0,1.0);}"
            .to_string(),
    };
    let (build, _) = ShaderBuild::begin(source, names.iter().map(|n| n.to_string()).collect());
    let mut replies = vec![
        GpuReply::Handle(1),
        GpuReply::Status(true),
        GpuReply::Handle(2),
        GpuReply::Status(true),
        GpuReply::Handle(3),
        GpuReply::Status(true),
    ];
    for s in slots {
        replies.push(GpuReply::Location(*s));
    }
    let mut state = Some(build);
    let mut done = None;
    for reply in replies {
        match state.take().expect("a reply too many").step(reply) {
            Progress::Pending { build, .. } => state = Some(build),
            Progress::Built { program, .. } => done = Some(program),
            Progress::Failed { error, .. } => panic!("build failed: {:?}", error),
        }
    }
    done.expect("the build did not finish")
}

fn upload(vertices: Vec<Vertex>, position: u32, color: Option<u32>) -> (GeometryBuffer, Vec<GpuCall>) {
    let first = match GeometryUpload::begin(vertices, position, color) {
        UploadProgress::Pending { upload, calls } => {
            assert_eq!(calls, vec![GpuCall::CreateVertexArray]);
            upload
        }
        other => panic!("upload did not start: {:?}", other),
    };
    let second = match first.step(GpuReply::Handle(20)) {
        UploadProgress::Pending { upload, calls } => {
            assert_eq!(calls, vec![GpuCall::BindVertexArray(20), GpuCall::CreateBuffer]);
            upload
        }
        other => panic!("upload stopped: {:?}", other),
    };
    match second.step(GpuReply::Handle(21)) {
        UploadProgress::Built { buffer, calls } => (buffer, calls),
        other => panic!("upload did not finish: {:?}", other),
    }
}

#[test]
fn triangle_upload_writes_thirty_six_bytes_once() {
    let (buffer, calls) = upload(triangle(), 0, None);
    assert_eq!(
        calls,
        vec![GpuCall::BindArrayBuffer(21), GpuCall::UploadStatic { buffer: 21, bytes: 36 }]
    );
    assert_eq!(buffer.handle(), 21);
    assert_eq!(buffer.vertex_count(), 3);
    assert!(buffer.is_live());
    assert_eq!(
        buffer.layout(),
        &vec![AttributeBinding { slot: 0, components: 3, stride: 12, offset: 0 }]
    );
    let floats: Vec<f32> = buffer.words().iter().map(|w| f32::from_bits(*w)).collect();
    assert_eq!(floats, vec![-1.0, -1.0, 0.0, 1.0, -1.0, 0.0, 0.0, 1.0, 0.0]);
}

#[test]
fn colored_upload_interleaves_position_and_color() {
    let vertices = vec![
        Vertex { position: triple(-0.5, -0.5, 0.0), color: triple(1.0, 0.0, 0.0) },
        Vertex { position: triple(0.5, -0.5, 0.0), color: triple(0.0, 1.0, 0.0) },
        Vertex { position: triple(0.0, 0.5, 0.0), color: triple(0.0, 0.0, 1.0) },
    ];
    let (buffer, calls) = upload(vertices, 0, Some(1));
    assert_eq!(calls[1], GpuCall::UploadStatic { buffer: 21, bytes: 72 });
    assert_eq!(
        buffer.layout(),
        &vec![
            AttributeBinding { slot: 0, components: 3, stride: 24, offset: 0 },
            AttributeBinding { slot: 1, components: 3, stride: 24, offset: 12 },
        ]
    );
    let floats: Vec<f32> = buffer.words().iter().map(|w| f32::from_bits(*w)).collect();
    assert_eq!(
        floats,
        vec![
            -0.5, -0.5, 0.0, 1.0, 0.0, 0.0, 0.5, -0.5, 0.0, 0.0, 1.0, 0.0, 0.0, 0.5, 0.0, 0.0,
            0.0, 1.0
        ]
    );
}

#[test]
fn flatten_of_nothing_is_empty() {
    assert_eq!(flatten_vertices(&Vec::new(), false), Vec::<u32>::new());
    assert_eq!(flatten_vertices(&Vec::new(), true), Vec::<u32>::new());
}

#[test]
fn layout_for_position_only() {
    assert_eq!(
        layout_for(5, None),
        vec![AttributeBinding { slot: 5, components: 3, stride: 12, offset: 0 }]
    );
}

#[test]
fn upload_fails_on_zero_handles() {
    match GeometryUpload::begin(triangle(), 0, None) {
        UploadProgress::Pending { upload, .. } => match upload.step(GpuReply::Handle(0)) {
            UploadProgress::Failed { calls } => assert!(calls.is_empty()),
            other => panic!("wrong progress: {:?}", other),
        },
        other => panic!("wrong progress: {:?}", other),
    }
    match GeometryUpload::begin(triangle(), 0, None) {
        UploadProgress::Pending { upload, .. } => match upload.step(GpuReply::Handle(20)) {
            UploadProgress::Pending { upload, .. } => match upload.step(GpuReply::Handle(0)) {
                UploadProgress::Failed { calls } => {
                    assert_eq!(calls, vec![GpuCall::DeleteVertexArray(20)])
                }
                other => panic!("wrong progress: {:?}", other),
            },
            other => panic!("wrong progress: {:?}", other),
        },
        other => panic!("wrong progress: {:?}", other),
    }
}

#[test]
fn upload_fails_on_a_reply_that_is_no_handle() {
    match GeometryUpload::begin(triangle(), 0, None) {
        UploadProgress::Pending { upload, .. } => match upload.step(GpuReply::Status(true)) {
            UploadProgress::Failed { calls } => assert!(calls.is_empty()),
            other => panic!("wrong progress: {:?}", other),
        },
        other => panic!("wrong progress: {:?}", other),
    }
}

#[test]
fn buffer_release_deletes_once() {
    let (mut buffer, _) = upload(triangle(), 0, None);
    assert_eq!(buffer.release(), vec![GpuCall::DeleteBuffer(21), GpuCall::DeleteVertexArray(20)]);
    assert!(!buffer.is_live());
    assert_eq!(buffer.release(), Vec::new());
}

#[test]
fn frame_draws_the_triangle_once_and_disables_its_slot() {
    let program = program(&["position"], &[4]);
    let slot = program.slot_of(&"position".to_string()).ok().expect("position was resolved");
    let (buffer, _) = upload(triangle(), slot, None);
    let calls = render_frame(&program, &buffer, &config());
    assert_eq!(
        calls,
        vec![
            GpuCall::Clear { color: config().background, depth: false },
            GpuCall::UseProgram(3),
            GpuCall::BindArrayBuffer(21),
            GpuCall::EnableAttribute(4),
            GpuCall::AttributePointer {
                slot: 4,
                components: 3,
                kind: ComponentKind::Float,
                normalized: false,
                stride: 12,
                offset: 0,
            },
            GpuCall::DrawTriangles { first: 0, count: 3 },
            GpuCall::DisableAttribute(4),
        ]
    );
    let draws = calls.iter().filter(|c| matches!(c, GpuCall::DrawTriangles { .. })).count();
    assert_eq!(draws, 1);
}

#[test]
fn frame_with_two_slots_enables_and_disables_both() {
    let program = program(&["position", "color"], &[0, 1]);
    let (buffer, _) = upload(triangle(), 0, Some(1));
    let depth = FrameConfig { clear_depth: true, ..config() };
    let calls = render_frame(&program, &buffer, &depth);
    assert_eq!(
        calls,
        vec![
            GpuCall::Clear { color: config().background, depth: true },
            GpuCall::UseProgram(3),
            GpuCall::BindArrayBuffer(21),
            GpuCall::EnableAttribute(0),
            GpuCall::AttributePointer {
                slot: 0,
                components: 3,
                kind: ComponentKind::Float,
                normalized: false,
                stride: 24,
                offset: 0,
            },
            GpuCall::BindArrayBuffer(21),
            GpuCall::EnableAttribute(1),
            GpuCall::AttributePointer {
                slot: 1,
                components: 3,
                kind: ComponentKind::Float,
                normalized: false,
                stride: 24,
                offset: 12,
            },
            GpuCall::DrawTriangles { first: 0, count: 3 },
            GpuCall::DisableAttribute(0),
            GpuCall::DisableAttribute(1),
        ]
    );
}

#[test]
fn bootstrap_sets_up_in_order_and_tears_down_in_reverse() {
    let mut boot = Bootstrap::new(config());
    assert_eq!(boot.stage(), Lifecycle::NoContext);
    assert!(boot.tick().is_empty());
    assert!(boot.context_ready());
    assert!(!boot.context_ready());
    let program = program(&["position"], &[0]);
    assert!(boot.install_program(program).is_none());
    assert_eq!(boot.stage(), Lifecycle::ProgramReady);
    let (buffer, _) = upload(triangle(), 0, None);
    assert!(boot.install_buffer(buffer).is_none());
    assert_eq!(boot.stage(), Lifecycle::Running);
    let frame = boot.tick();
    assert_eq!(frame.len(), 7);
    assert_eq!(frame[5], GpuCall::DrawTriangles { first: 0, count: 3 });
    assert_eq!(
        boot.shutdown(),
        vec![
            GpuCall::DeleteBuffer(21),
            GpuCall::DeleteVertexArray(20),
            GpuCall::DeleteProgram(3),
            GpuCall::ReleaseContext,
        ]
    );
    assert_eq!(boot.stage(), Lifecycle::Closed);
    assert!(boot.tick().is_empty());
}

#[test]
fn second_shutdown_asks_for_nothing() {
    let mut boot = Bootstrap::new(config());
    assert!(boot.context_ready());
    assert!(boot.install_program(program(&[], &[])).is_none());
    let (buffer, _) = upload(triangle(), 0, None);
    assert!(boot.install_buffer(buffer).is_none());
    assert_eq!(boot.shutdown().len(), 4);
    assert_eq!(boot.shutdown(), Vec::new());
    assert_eq!(boot.shutdown(), Vec::new());
}

#[test]
fn shutdown_before_any_context_asks_for_nothing() {
    let mut boot = Bootstrap::new(config());
    assert_eq!(boot.shutdown(), Vec::new());
    assert!(!boot.context_ready());
}

#[test]
fn shutdown_after_a_failed_build_releases_only_the_context() {
    let mut boot = Bootstrap::new(config());
    assert!(boot.context_ready());
    assert_eq!(boot.shutdown(), vec![GpuCall::ReleaseContext]);
}

#[test]
fn pieces_out_of_order_are_handed_back() {
    let mut boot = Bootstrap::new(config());
    let refused = boot.install_program(program(&[], &[]));
    assert_eq!(refused.map(|p| p.handle()), Some(3));
    assert!(boot.context_ready());
    let (buffer, _) = upload(triangle(), 0, None);
    let refused = boot.install_buffer(buffer);
    assert_eq!(refused.map(|b| b.handle()), Some(21));
    assert_eq!(boot.stage(), Lifecycle::ContextReady);
}

#[test]
fn only_escape_press_and_close_request_stop_the_loop() {
    assert!(handle_window_event(WindowEvent::Key { key: Key::Escape, action: Action::Press }));
    assert!(handle_window_event(WindowEvent::CloseRequested));
    assert!(!handle_window_event(WindowEvent::Key { key: Key::Escape, action: Action::Release }));
    assert!(!handle_window_event(WindowEvent::Key { key: Key::Escape, action: Action::Repeat }));
    assert!(!handle_window_event(WindowEvent::Key { key: Key::Other, action: Action::Press }));
    assert!(!handle_window_event(WindowEvent::Other));
}

#[test]
fn end_to_end_white_triangle() {
    let source = ShaderSource {
        vertex: "#version 130\nin vec3 position;\nvoid main(){gl_Position=vec4(position,1.0);}"
            .to_string(),
        fragment: "#version 130\nout vec4 outColor;\nvoid main(){outColor=vec4(1.0,1.0,1.0,1.0);}"
            .to_string(),
    };
    let (build, _) = ShaderBuild::begin(source, vec!["position".to_string()]);
    let replies = vec![
        GpuReply::Handle(1),
        GpuReply::Status(true),
        GpuReply::Handle(2),
        GpuReply::Status(true),
        GpuReply::Handle(3),
        GpuReply::Status(true),
        GpuReply::Location(0),
    ];
    let mut state = Some(build);
    let mut linked = None;
    for reply in replies {
        match state.take().expect("a reply too many").step(reply) {
            Progress::Pending { build, .. } => state = Some(build),
            Progress::Built { program, .. } => linked = Some(program),
            Progress::Failed { error, .. } => panic!("build failed: {:?}", error),
        }
    }
    let program = linked.expect("the build did not finish");
    let slot = program.slot_of(&"position".to_string()).ok().expect("position has a slot");
    assert_eq!(slot, 0);
    let (buffer, _) = upload(triangle(), slot, None);
    let calls = render_frame(&program, &buffer, &config());
    assert_eq!(calls[0], GpuCall::Clear { color: config().background, depth: false });
    assert_eq!(calls[1], GpuCall::UseProgram(3));
    assert_eq!(calls[calls.len() - 2], GpuCall::DrawTriangles { first: 0, count: 3 });
    assert_eq!(calls[calls.len() - 1], GpuCall::DisableAttribute(0));
    let clears = calls.iter().filter(|c| matches!(c, GpuCall::Clear { .. })).count();
    assert_eq!(clears, 1);
}

use textured_quad::setup::{check_object, setup_steps, MissingObject, ObjectKind, SetupStep};
use textured_quad::shader::{
    check_build, source, written_log, BuildError, BuildStep, Stage, FRAGMENT_SHADER, LOG_CAPACITY,
    SAMPLER_UNIFORM, TEXTURE_UNIT, TRANSFORM_UNIFORM, VERTEX_SHADER,
};
use textured_quad::window::Window;

fn place(steps: &[SetupStep], step: SetupStep) -> usize {
    let found: Vec<usize> =
        steps.iter().enumerate().filter(|(_, s)| **s == step).map(|(i, _)| i).collect();
    assert_eq!(found.len(), 1, "{:?} must stand in the plan once", step);
    found[0]
}

#[test]
fn failed_compile_is_reported_with_its_log() {
    let log = b"0:1(1): error: syntax error, unexpected IDENTIFIER";
    let outcome = check_build(BuildStep::Compile(Stage::Vertex), 0, log);
    let error = outcome.unwrap_err();
    assert_eq!(error.step, BuildStep::Compile(Stage::Vertex));
    assert_eq!(error.log, "0:1(1): error: syntax error, unexpected IDENTIFIER");
    assert_eq!(
        error.message(),
        "Vertex Compile Error: 0:1(1): error: syntax error, unexpected IDENTIFIER"
    );
}

#[test]
fn failure_is_never_silent() {
    let steps =
        [BuildStep::Compile(Stage::Vertex), BuildStep::Compile(Stage::Fragment), BuildStep::Link];
    for step in steps {
        let error = check_build(step, 0, b"").unwrap_err();
        assert_eq!(error.log, "");
        assert!(!error.message().is_empty());
    }
}

#[test]
fn each_step_has_its_own_words() {
    let log = String::from("bad");
    let vertex = BuildError { step: BuildStep::Compile(Stage::Vertex), log: log.clone() };
    let fragment = BuildError { step: BuildStep::Compile(Stage::Fragment), log: log.clone() };
    let link = BuildError { step: BuildStep::Link, log };
    assert_eq!(vertex.message(), "Vertex Compile Error: bad");
    assert_eq!(fragment.message(), "Fragment Compile Error: bad");
    assert_eq!(link.message(), "Program Link error: bad");
}

#[test]
fn any_status_but_zero_is_success() {
    assert_eq!(check_build(BuildStep::Link, 1, b"warning: unused"), Ok(()));
    assert_eq!(check_build(BuildStep::Compile(Stage::Fragment), -1, b""), Ok(()));
    assert_eq!(check_build(BuildStep::Compile(Stage::Vertex), i32::MAX, b""), Ok(()));
    assert!(check_build(BuildStep::Link, 0, b"undefined reference").is_err());
}

#[test]
fn log_that_is_no_text_is_patched() {
    let error = check_build(BuildStep::Link, 0, &[b'a', 0xff, b'b']).unwrap_err();
    assert_eq!(error.log, "a\u{fffd}b");
    let accents = check_build(BuildStep::Link, 0, "déjà".as_bytes()).unwrap_err();
    assert_eq!(accents.log, "déjà");
}

#[test]
fn written_log_is_the_filled_part() {
    let buffer = [b'o', b'o', b'p', b's', 0, 0, 0, 0];
    assert_eq!(written_log(&buffer, 4), Some(&b"oops"[..]));
    assert_eq!(written_log(&buffer, 0), Some(&b""[..]));
    assert_eq!(written_log(&buffer, 8), Some(&buffer[..]));
    assert_eq!(written_log(&buffer, 9), None);
    assert_eq!(written_log(&buffer, -1), None);
    assert_eq!(written_log(&[], i32::MAX), None);
    assert_eq!(LOG_CAPACITY, 1024);
}

#[test]
fn shader_sources_are_the_two_stages() {
    assert_eq!(source(Stage::Vertex), VERTEX_SHADER);
    assert_eq!(source(Stage::Fragment), FRAGMENT_SHADER);
    assert!(VERTEX_SHADER.starts_with("#version 330 core\n"));
    assert!(FRAGMENT_SHADER.starts_with("#version 330 core\n"));
    assert!(VERTEX_SHADER.contains("layout (location = 0) in vec3 pos;"));
    assert!(VERTEX_SHADER.contains("layout (location = 1) in vec3 color;"));
    assert!(VERTEX_SHADER.contains("layout (location = 2) in vec2 texcoord;"));
    assert!(VERTEX_SHADER.contains("uniform mat4 transform;"));
    assert!(VERTEX_SHADER.contains("gl_Position = transform * vec4(pos, 1.0);"));
    assert!(FRAGMENT_SHADER.contains("uniform sampler2D tex0;"));
    assert!(FRAGMENT_SHADER.contains("texture(tex0, TexCoord) *  vec4(ourColor, 1.0);"));
    assert_eq!(VERTEX_SHADER.len(), 444);
    assert_eq!(FRAGMENT_SHADER.len(), 277);
}

#[test]
fn uniforms_are_named_as_the_shaders_name_them() {
    assert_eq!(TRANSFORM_UNIFORM, "transform");
    assert_eq!(SAMPLER_UNIFORM, "tex0");
    assert_eq!(TEXTURE_UNIT, 0);
    assert!(VERTEX_SHADER.contains(&format!("uniform mat4 {};", TRANSFORM_UNIFORM)));
    assert!(FRAGMENT_SHADER.contains(&format!("uniform sampler2D {};", SAMPLER_UNIFORM)));
}

#[test]
fn plan_lists_every_step_in_order() {
    assert_eq!(
        setup_steps(),
        vec![
            SetupStep::OpenWindow,
            SetupStep::CreateContext,
            SetupStep::OpenEventQueue,
            SetupStep::EnableVsync,
            SetupStep::LoadImage,
            SetupStep::LoadFunctions,
            SetupStep::SetClearColor,
            SetupStep::CreateVertexArray,
            SetupStep::CreateVertexBuffer,
            SetupStep::CreateIndexBuffer,
            SetupStep::DescribeAttributes,
            SetupStep::CreateTexture,
            SetupStep::CompileShader(Stage::Vertex),
            SetupStep::CompileShader(Stage::Fragment),
            SetupStep::LinkProgram,
            SetupStep::BindSampler,
            SetupStep::CheckLink,
            SetupStep::DeleteShaders,
        ]
    );
}

#[test]
fn plan_makes_things_before_they_are_used() {
    let steps = setup_steps();
    let at = |step: SetupStep| place(&steps, step);
    assert!(at(SetupStep::CreateVertexBuffer) < at(SetupStep::DescribeAttributes));
    assert!(at(SetupStep::CreateIndexBuffer) < at(SetupStep::DescribeAttributes));
    assert!(at(SetupStep::CreateVertexArray) < at(SetupStep::CreateVertexBuffer));
    assert!(at(SetupStep::LoadImage) < at(SetupStep::CreateTexture));
    assert!(at(SetupStep::CreateTexture) < at(SetupStep::BindSampler));
    assert!(at(SetupStep::CompileShader(Stage::Vertex)) < at(SetupStep::LinkProgram));
    assert!(at(SetupStep::CompileShader(Stage::Fragment)) < at(SetupStep::LinkProgram));
    assert!(at(SetupStep::LinkProgram) < at(SetupStep::BindSampler));
    assert!(at(SetupStep::CheckLink) < at(SetupStep::DeleteShaders));
    assert!(at(SetupStep::OpenWindow) < at(SetupStep::CreateContext));
    assert!(at(SetupStep::CreateContext) < at(SetupStep::LoadFunctions));
    assert!(at(SetupStep::LoadFunctions) < at(SetupStep::SetClearColor));
}

#[test]
fn missing_object_stops_only_where_it_must() {
    for kind in [
        ObjectKind::VertexArray,
        ObjectKind::VertexBuffer,
        ObjectKind::Shader(Stage::Vertex),
        ObjectKind::Shader(Stage::Fragment),
    ] {
        assert_eq!(check_object(kind, 0), Err(MissingObject { kind }));
        assert_eq!(check_object(kind, 1), Ok(1));
        assert_eq!(check_object(kind, u32::MAX), Ok(u32::MAX));
    }
    for kind in [ObjectKind::IndexBuffer, ObjectKind::Texture, ObjectKind::Program] {
        assert_eq!(check_object(kind, 0), Ok(0));
        assert_eq!(check_object(kind, 7), Ok(7));
    }
}

#[test]
fn window_is_800_by_600_and_centred() {
    let window = Window::new();
    assert_eq!(window.title, "Title");
    assert_eq!(window.width, 800);
    assert_eq!(window.height, 600);
    assert!(window.centered);
    assert!(window.vsync);
}

use triangle::driver::{Command, Reply};
use triangle::err::Error;
use triangle::program::{ActiveSlot, Program, ProgramBuild};
use triangle::shader::{ShaderBuild, ShaderUnit, StageKind};

const VERTEX_SOURCE: &str = "#version 330 core
layout (location = 0) in vec3 Position;
layout (location = 1) in vec3 Color;
out vec3 vColor;
void main() {
    gl_Position = vec4(Position, 1.0);
    vColor = Color;
}
";

const FRAGMENT_SOURCE: &str = "#version 330 core
in vec3 vColor;
out vec4 FragColor;
void main() {
    FragColor = vec4(vColor, 1.0);
}
";

fn terminated(text: &str) -> Vec<u8> {
    let mut v = text.as_bytes().to_vec();
    v.push(0);
    v
}

fn compiled(text: &str, kind: StageKind, id: u32) -> ShaderUnit {
    let (b, c) = ShaderBuild::start(text, kind).unwrap();
    assert_eq!(c, Command::CreateShader(kind));
    let (b, c) = b.step(Reply::Created(id));
    assert_eq!(c, Command::CompileShader { shader: id, source: terminated(text) });
    let (b, c) = b.step(Reply::Status(1));
    assert_eq!(c, Command::Nothing);
    match b {
        ShaderBuild::Ready(u) => u,
        other => panic!("not ready: {:?}", other),
    }
}

fn linked(units: &[ShaderUnit], id: u32) -> Program {
    let (b, c) = ProgramBuild::start(units);
    assert_eq!(c, Command::CreateProgram);
    let (b, _) = b.step(Reply::Created(id));
    let (b, _) = b.step(Reply::Status(1));
    match b {
        ProgramBuild::Ready(p) => p,
        other => panic!("not ready: {:?}", other),
    }
}

#[test]
fn compile_success_keeps_stage_kind() {
    let unit = compiled(VERTEX_SOURCE, StageKind::Vertex, 7);
    assert_eq!(unit.id(), 7);
    assert_eq!(unit.kind(), StageKind::Vertex);
    let unit = compiled(FRAGMENT_SOURCE, StageKind::Fragment, 8);
    assert_eq!(unit.kind(), StageKind::Fragment);
}

#[test]
fn compile_failure_reports_log_and_deletes_shader() {
    let (b, _) = ShaderBuild::start("void main() { oops }", StageKind::Fragment).unwrap();
    let (b, _) = b.step(Reply::Created(4));
    let (b, c) = b.step(Reply::Status(0));
    assert_eq!(c, Command::QueryShaderLogLength(4));
    let (b, c) = b.step(Reply::LogLength(12));
    assert_eq!(c, Command::FetchShaderLog { shader: 4, capacity: 12 });
    let (b, c) = b.step(Reply::Log(b"0:1: error\0\0".to_vec()));
    assert_eq!(c, Command::DeleteShader(4));
    match b {
        ShaderBuild::Failed(e) => {
            assert_eq!(e, Error::ShaderCompile { log: "0:1: error".to_string() });
            assert_eq!(e.message(), "0:1: error");
        }
        other => panic!("not failed: {:?}", other),
    }
}

#[test]
fn compile_failure_with_negative_log_length() {
    let (b, _) = ShaderBuild::start("x", StageKind::Vertex).unwrap();
    let (b, _) = b.step(Reply::Created(2));
    let (b, _) = b.step(Reply::Status(0));
    let (b, c) = b.step(Reply::LogLength(-5));
    assert_eq!(c, Command::FetchShaderLog { shader: 2, capacity: 0 });
    let (b, c) = b.step(Reply::Log(Vec::new()));
    assert_eq!(c, Command::DeleteShader(2));
    assert!(matches!(b, ShaderBuild::Failed(Error::ShaderCompile { ref log }) if log.is_empty()));
}

#[test]
fn source_with_zero_byte_is_refused() {
    let r = ShaderBuild::start("void\0main", StageKind::Vertex);
    assert!(matches!(r, Err(Error::Other { .. })));
}

#[test]
fn unexpected_reply_leaves_shader_build() {
    let (b, _) = ShaderBuild::start("x", StageKind::Vertex).unwrap();
    let (b, c) = b.step(Reply::Status(1));
    assert_eq!(c, Command::Nothing);
    assert!(matches!(b, ShaderBuild::Start { kind: StageKind::Vertex, .. }));
    let (b, _) = b.step(Reply::Created(3));
    let (b, c) = b.step(Reply::Log(vec![1, 2]));
    assert_eq!(c, Command::Nothing);
    assert!(matches!(b, ShaderBuild::Compiling { id: 3, kind: StageKind::Vertex }));
}

#[test]
fn link_success_detaches_every_shader() {
    let units = vec![
        compiled(VERTEX_SOURCE, StageKind::Vertex, 7),
        compiled(FRAGMENT_SOURCE, StageKind::Fragment, 8),
    ];
    let (b, _) = ProgramBuild::start(&units);
    let (b, c) = b.step(Reply::Created(3));
    assert_eq!(c, Command::AttachAndLink { program: 3, shaders: vec![7, 8] });
    let (b, c) = b.step(Reply::Status(1));
    assert_eq!(c, Command::DetachShaders { program: 3, shaders: vec![7, 8] });
    match b {
        ProgramBuild::Ready(p) => assert_eq!(p.id(), 3),
        other => panic!("not ready: {:?}", other),
    }
}

#[test]
fn link_failure_reports_log_and_deletes_program() {
    let units = vec![compiled(FRAGMENT_SOURCE, StageKind::Fragment, 8)];
    let (b, _) = ProgramBuild::start(&units);
    let (b, _) = b.step(Reply::Created(5));
    let (b, c) = b.step(Reply::Status(0));
    assert_eq!(c, Command::QueryProgramLogLength(5));
    let (b, c) = b.step(Reply::LogLength(20));
    assert_eq!(c, Command::FetchProgramLog { program: 5, capacity: 20 });
    let (b, c) = b.step(Reply::Log(b"vColor not written\0 ".to_vec()));
    assert_eq!(c, Command::DeleteProgram(5));
    match b {
        ProgramBuild::Failed(e) => {
            assert_eq!(e, Error::ProgramLink { log: "vColor not written".to_string() })
        }
        other => panic!("not failed: {:?}", other),
    }
}

#[test]
fn activate_twice_keeps_program_active() {
    let units = vec![compiled(VERTEX_SOURCE, StageKind::Vertex, 1)];
    let p = linked(&units, 9);
    let mut slot = ActiveSlot::new();
    assert_eq!(slot.current(), None);
    assert_eq!(p.activate(&mut slot), Command::UseProgram(9));
    assert_eq!(slot.current(), Some(9));
    assert_eq!(p.activate(&mut slot), Command::UseProgram(9));
    assert_eq!(slot.current(), Some(9));
}

#[test]
fn release_deletes_objects() {
    let unit = compiled(VERTEX_SOURCE, StageKind::Vertex, 6);
    let p = linked(std::slice::from_ref(&unit), 10);
    assert_eq!(unit.release(), Command::DeleteShader(6));
    assert_eq!(p.release(), Command::DeleteProgram(10));
}

#[test]
fn fixed_sources_build_and_activate() {
    let vert = compiled(VERTEX_SOURCE, StageKind::Vertex, 1);
    let frag = compiled(FRAGMENT_SOURCE, StageKind::Fragment, 2);
    let program = linked(&[vert, frag], 3);
    let mut slot = ActiveSlot::new();
    assert_eq!(program.activate(&mut slot), Command::UseProgram(3));
    assert_eq!(slot.current(), Some(3));
}

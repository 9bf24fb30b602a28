use std::num::NonZeroU32;

use glow::{NativeBuffer, NativeProgram, NativeUniformLocation, NativeVertexArray};
use meshview::geometry::{Mesh, MeshHandles, Position};
use meshview::pipeline::{
    BuildAction, BuildEvent, BuildState, GlCommand, PipelineError, ShaderBuild, ShaderProgram,
    ShaderStage,
};

fn program() -> NativeProgram {
    NativeProgram(NonZeroU32::new(3).unwrap())
}

fn compiled(ok: bool, log: &str) -> BuildEvent {
    BuildEvent::Compiled { ok, log: log.to_string() }
}

fn linked(ok: bool, log: &str) -> BuildEvent {
    BuildEvent::Linked { ok, log: log.to_string() }
}

fn live_mesh() -> Mesh {
    let p = Position { x: 0, y: 0, z: 0 };
    let mut m = Mesh::new(vec![p, p, p], vec![0, 1, 2]).unwrap();
    let b = |k: u32| NativeBuffer(NonZeroU32::new(k).unwrap());
    m.attach(MeshHandles {
        vertex_array: NativeVertexArray(NonZeroU32::new(7).unwrap()),
        position_buffer: b(1),
        color_buffer: b(2),
        uv_buffer: b(3),
        index_buffer: b(4),
    })
    .unwrap();
    m
}

#[test]
fn build_runs_vertex_fragment_link() {
    let (mut b, a) = ShaderBuild::start(program());
    assert!(matches!(a, BuildAction::Compile(ShaderStage::Vertex)));
    assert!(matches!(b.step(compiled(true, "")), BuildAction::Compile(ShaderStage::Fragment)));
    assert!(matches!(b.step(compiled(true, "")), BuildAction::Link));
    assert_eq!(b.state, BuildState::Linking);
    assert!(matches!(b.step(linked(true, "")), BuildAction::ReleaseShaders));
    assert_eq!(b.state, BuildState::Linked);
    let p = ShaderProgram::new(b).unwrap();
    assert_eq!(p.program, program());
    assert_eq!(p.destroy(), program());
}

#[test]
fn malformed_fragment_shader_reports_the_compiler_log() {
    let log = "0:3(12): error: syntax error, unexpected IDENTIFIER";
    let (mut b, _) = ShaderBuild::start(program());
    b.step(compiled(true, ""));
    match b.step(compiled(false, log)) {
        BuildAction::Abort(PipelineError::Compile { stage, log: got }) => {
            assert_eq!(stage, ShaderStage::Fragment);
            assert_eq!(got, log);
        }
        other => panic!("unexpected action {other:?}"),
    }
    assert_eq!(b.state, BuildState::Failed);
    assert!(ShaderProgram::new(b).is_err());
}

#[test]
fn vertex_failure_and_link_failure() {
    let (mut b, _) = ShaderBuild::start(program());
    match b.step(compiled(false, "bad vertex")) {
        BuildAction::Abort(PipelineError::Compile { stage, log }) => {
            assert_eq!(stage, ShaderStage::Vertex);
            assert_eq!(log, "bad vertex");
        }
        other => panic!("unexpected action {other:?}"),
    }
    let (mut b, _) = ShaderBuild::start(program());
    b.step(compiled(true, ""));
    b.step(compiled(true, ""));
    match b.step(linked(false, "link error: varying mismatch")) {
        BuildAction::Abort(PipelineError::Link { log }) => {
            assert_eq!(log, "link error: varying mismatch")
        }
        other => panic!("unexpected action {other:?}"),
    }
    assert_eq!(b.state, BuildState::Failed);
}

#[test]
fn results_out_of_order_stop_the_build() {
    let (mut b, _) = ShaderBuild::start(program());
    assert!(matches!(b.step(linked(true, "")), BuildAction::Abort(PipelineError::OutOfOrder)));
    assert_eq!(b.state, BuildState::Failed);
    assert!(matches!(b.step(compiled(true, "")), BuildAction::Abort(PipelineError::OutOfOrder)));
}

#[test]
fn paint_issues_the_draw_commands() {
    let p = ShaderProgram { program: program() };
    let m = live_mesh();
    let loc = NativeUniformLocation(5);
    let cmds = p.paint(&m, Some(loc)).unwrap();
    assert_eq!(cmds.len(), 7);
    assert!(matches!(cmds[0], GlCommand::ClearDepth));
    assert!(matches!(cmds[1], GlCommand::DepthFuncLess));
    assert!(matches!(cmds[2], GlCommand::EnableDepthTest));
    assert!(matches!(cmds[3], GlCommand::UseProgram(q) if q == program()));
    assert!(matches!(cmds[4], GlCommand::SetViewProj(NativeUniformLocation(5))));
    assert!(
        matches!(cmds[5], GlCommand::BindVertexArray(v) if v == NativeVertexArray(NonZeroU32::new(7).unwrap()))
    );
    assert!(matches!(cmds[6], GlCommand::DrawTriangles(3)));
}

#[test]
fn paint_skips_a_missing_uniform() {
    let p = ShaderProgram { program: program() };
    let cmds = p.paint(&live_mesh(), None).unwrap();
    assert_eq!(cmds.len(), 6);
    assert!(matches!(cmds[4], GlCommand::BindVertexArray(_)));
    assert!(matches!(cmds[5], GlCommand::DrawTriangles(3)));
}

#[test]
fn paint_refuses_a_released_mesh() {
    let p = ShaderProgram { program: program() };
    let mut m = live_mesh();
    m.destroy();
    assert!(p.paint(&m, None).is_none());
}

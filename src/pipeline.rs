//! The shader program: the order in which it is built and checked, and the
//! commands that draw a mesh with it.
//!
//! The GPU work itself is done by the caller, which performs each action or
//! command and reports what came of it.
use vstd::prelude::*;

use glow::{NativeProgram, NativeUniformLocation, NativeVertexArray};

use crate::geometry::{DrawCall, Mesh};

verus! {

/// A shader stage.
#[derive(Clone, Copy, Debug, PartialEq, Eq, Structural)]
pub enum ShaderStage {
    Vertex,
    Fragment,
}

/// Why a shader program could not be built.
#[derive(Clone, Debug)]
pub enum PipelineError {
    /// A stage did not compile; `log` is the compiler's diagnostic text.
    Compile { stage: ShaderStage, log: String },
    /// The program did not link; `log` is the linker's diagnostic text.
    Link { log: String },
    /// A result came that the build was not waiting for.
    OutOfOrder,
}

/// Where a build stands.
#[derive(Clone, Copy, Debug, PartialEq, Eq, Structural)]
pub enum BuildState {
    /// Waiting for the compile result of this stage.
    Compiling(ShaderStage),
    /// Waiting for the link result.
    Linking,
    /// Linked; the stage objects are to be detached and deleted.
    Linked,
    /// Failed; nothing of the build is kept.
    Failed,
}

/// What the GPU reported for the last action.
#[derive(Clone, Debug)]
pub enum BuildEvent {
    Compiled { ok: bool, log: String },
    Linked { ok: bool, log: String },
}

/// What the caller does next.
#[derive(Clone, Debug)]
pub enum BuildAction {
    /// Compile this stage from its source and attach it to the program.
    Compile(ShaderStage),
    /// Link the program.
    Link,
    /// Detach and delete both stage objects; the program is ready.
    ReleaseShaders,
    /// Stop: the program cannot be built.
    Abort(PipelineError),
}

/// The build of one program: a vertex stage, then a fragment stage, then the link.
#[derive(Clone, Copy, Debug)]
pub struct ShaderBuild {
    pub program: NativeProgram,
    pub state: BuildState,
}

/// The next state and action of a build in `state` on `event`.
pub open spec fn transition(state: BuildState, event: BuildEvent) -> (BuildState, BuildAction) {
    match (state, event) {
        (BuildState::Compiling(stage), BuildEvent::Compiled { ok, log }) => if !ok {
            (BuildState::Failed, BuildAction::Abort(PipelineError::Compile { stage, log }))
        } else if stage == ShaderStage::Vertex {
            (BuildState::Compiling(ShaderStage::Fragment), BuildAction::Compile(ShaderStage::Fragment))
        } else {
            (BuildState::Linking, BuildAction::Link)
        },
        (BuildState::Linking, BuildEvent::Linked { ok, log }) => if ok {
            (BuildState::Linked, BuildAction::ReleaseShaders)
        } else {
            (BuildState::Failed, BuildAction::Abort(PipelineError::Link { log }))
        },
        _ => (BuildState::Failed, BuildAction::Abort(PipelineError::OutOfOrder)),
    }
}

impl ShaderBuild {
    /// Starts the build of `program` with the vertex stage.
    pub fn start(program: NativeProgram) -> (r: (ShaderBuild, BuildAction))
        ensures
            r.0.program == program,
            r.0.state == BuildState::Compiling(ShaderStage::Vertex),
            r.1 == BuildAction::Compile(ShaderStage::Vertex),
    {
        (
            ShaderBuild { program, state: BuildState::Compiling(ShaderStage::Vertex) },
            BuildAction::Compile(ShaderStage::Vertex),
        )
    }

    /// Takes the result of the last action and says what to do next.
    pub fn step(&mut self, event: BuildEvent) -> (r: BuildAction)
        ensures
            final(self).program == old(self).program,
            (final(self).state, r) == transition(old(self).state, event),
    {
        let (state, action) = match (self.state, event) {
            (BuildState::Compiling(stage), BuildEvent::Compiled { ok, log }) => if !ok {
                (BuildState::Failed, BuildAction::Abort(PipelineError::Compile { stage, log }))
            } else if stage == ShaderStage::Vertex {
                (BuildState::Compiling(ShaderStage::Fragment), BuildAction::Compile(ShaderStage::Fragment))
            } else {
                (BuildState::Linking, BuildAction::Link)
            },
            (BuildState::Linking, BuildEvent::Linked { ok, log }) => if ok {
                (BuildState::Linked, BuildAction::ReleaseShaders)
            } else {
                (BuildState::Failed, BuildAction::Abort(PipelineError::Link { log }))
            },
            _ => (BuildState::Failed, BuildAction::Abort(PipelineError::OutOfOrder)),
        };
        self.state = state;
        action
    }
}

/// A stage that fails to compile stops the build with an error that carries
/// the compiler's diagnostic text unchanged.
pub proof fn compile_failure_carries_log(stage: ShaderStage, log: String)
    ensures
        transition(BuildState::Compiling(stage), BuildEvent::Compiled { ok: false, log }) == (
        BuildState::Failed,
        BuildAction::Abort(PipelineError::Compile { stage, log }),
        ),
{
}

/// A linked shader program.
#[derive(Clone, Copy, Debug)]
pub struct ShaderProgram {
    pub program: NativeProgram,
}

/// One command of a draw.
#[derive(Clone, Copy, Debug)]
pub enum GlCommand {
    /// Clear the depth buffer.
    ClearDepth,
    /// Pass fragments whose depth is less than the stored one.
    DepthFuncLess,
    /// Enable the depth test.
    EnableDepthTest,
    /// Make this program current.
    UseProgram(NativeProgram),
    /// Set the view-projection matrix uniform at this location from the camera.
    SetViewProj(NativeUniformLocation),
    /// Bind this vertex array.
    BindVertexArray(NativeVertexArray),
    /// Draw this many indices as triangles from the start of the index buffer.
    DrawTriangles(i32),
}

/// The commands that draw `dc` with `program`; the matrix is set only where
/// the program has the uniform.
pub open spec fn paint_commands(
    program: NativeProgram,
    view_proj: Option<NativeUniformLocation>,
    dc: DrawCall,
) -> Seq<GlCommand> {
    seq![GlCommand::ClearDepth, GlCommand::DepthFuncLess, GlCommand::EnableDepthTest, GlCommand::UseProgram(program)]
        + match view_proj {
        Some(l) => seq![GlCommand::SetViewProj(l)],
        None => Seq::empty(),
    } + seq![GlCommand::BindVertexArray(dc.vertex_array), GlCommand::DrawTriangles(dc.count)]
}

impl ShaderProgram {
    /// The program of a build that linked; a build in any other state is handed back.
    pub fn new(build: ShaderBuild) -> (r: Result<ShaderProgram, ShaderBuild>)
        ensures
            build.state == BuildState::Linked ==> r == Ok::<ShaderProgram, ShaderBuild>(ShaderProgram { program: build.program }),
            build.state != BuildState::Linked ==> r == Err::<ShaderProgram, ShaderBuild>(build),
    {
        if build.state == BuildState::Linked {
            Ok(ShaderProgram { program: build.program })
        } else {
            Err(build)
        }
    }

    /// Gives up the program: the handle to delete.
    pub fn destroy(self) -> (r: NativeProgram)
        ensures
            r == self.program,
    {
        self.program
    }

    /// The commands that draw `mesh`, where `view_proj` is the location of the
    /// view-projection uniform if the program has one. None where the mesh
    /// cannot be drawn.
    pub fn paint(&self, mesh: &Mesh, view_proj: Option<NativeUniformLocation>) -> (r: Option<Vec<GlCommand>>)
        ensures
            r is Some <==> mesh.spec_draw_call() is Some,
            r matches Some(cmds) ==> cmds@ == paint_commands(self.program, view_proj, mesh.spec_draw_call()->Some_0),
    {
        match mesh.draw_call() {
            None => None,
            Some(dc) => {
                let mut cmds: Vec<GlCommand> = Vec::new();
                cmds.push(GlCommand::ClearDepth);
                cmds.push(GlCommand::DepthFuncLess);
                cmds.push(GlCommand::EnableDepthTest);
                cmds.push(GlCommand::UseProgram(self.program));
                match view_proj {
                    Some(l) => cmds.push(GlCommand::SetViewProj(l)),
                    None => {},
                }
                cmds.push(GlCommand::BindVertexArray(dc.vertex_array));
                cmds.push(GlCommand::DrawTriangles(dc.count));
                assert(cmds@ =~= paint_commands(self.program, view_proj, dc));
                Some(cmds)
            },
        }
    }
}

} // verus!

//! Building a shader program, as a state machine.
//!
//! Turning two shader sources into a linked program is a fixed sequence of
//! GPU calls with a decision after each one: allocate the program, then for
//! each shader allocate, hand over the source and compile, then attach both
//! and link.  Any zero handle, failed compile or failed link aborts the
//! build with an error that names the failing stage and carries the driver's
//! diagnostic text, and every handle created so far is released.
//!
//! The decisions live here, verified; the GPU calls live in the unverified
//! shell.  The shell starts with [`build_start`], performs the returned
//! [`BuildAction`], and feeds what the driver answered back through
//! [`build_step`] until the action is `Finish` or `Cleanup`.

use vstd::prelude::*;

verus! {

/// Which of the two shaders a stage concerns.
#[derive(Clone, Copy, Debug, PartialEq, Eq, Structural)]
pub enum ShaderKind {
    Vertex,
    Fragment,
}

/// Why a program build failed.
#[derive(Clone, Debug, PartialEq)]
pub enum BuildError {
    /// The driver returned a zero program handle.
    ProgramAllocation,
    /// The driver returned a zero shader handle.
    ShaderAllocation { kind: ShaderKind },
    /// A shader failed to compile; `log` is the compiler's diagnostic text.
    Compilation { kind: ShaderKind, log: String },
    /// The program failed to link; `log` is the linker's diagnostic text.
    Linking { log: String },
}

/// Where the build stands: which driver answer it is waiting for, or how it
/// ended.
#[derive(Clone, Debug, PartialEq)]
pub enum BuildState {
    /// Waiting for the program handle.
    AwaitProgram,
    /// Waiting for the vertex shader handle.
    AwaitVertexHandle { program: u32 },
    /// Waiting for the vertex shader's compile outcome.
    AwaitVertexCompile { program: u32, vertex: u32 },
    /// Waiting for the fragment shader handle.
    AwaitFragmentHandle { program: u32, vertex: u32 },
    /// Waiting for the fragment shader's compile outcome.
    AwaitFragmentCompile { program: u32, vertex: u32, fragment: u32 },
    /// Waiting for the link outcome.
    AwaitLink { program: u32, vertex: u32, fragment: u32 },
    /// The build produced a linked program.
    Succeeded { program: u32 },
    /// The build failed; no usable program came out of it.
    Failed { error: BuildError },
}

/// What the driver answered to the last action.
#[derive(Clone, Debug, PartialEq)]
pub enum BuildEvent {
    /// An allocation returned this handle; zero means failure.
    HandleCreated { handle: u32 },
    /// A compile finished; on failure `log` holds the compiler's text.
    CompileFinished { success: bool, log: String },
    /// The link finished; on failure `log` holds the linker's text.
    LinkFinished { success: bool, log: String },
}

/// What the shell must do next.
#[derive(Clone, Debug, PartialEq)]
pub enum BuildAction {
    /// Allocate a program handle and report it.
    CreateProgram,
    /// Allocate a shader handle of this kind and report it.
    CreateShader { kind: ShaderKind },
    /// Hand this shader its source, compile it, and report the outcome.
    CompileShader { shader: u32, kind: ShaderKind },
    /// Attach both shaders to the program, link it, and report the outcome.
    AttachAndLink { program: u32, vertex: u32, fragment: u32 },
    /// Release the listed handles; the build has failed.
    Cleanup { program: Option<u32>, vertex: Option<u32>, fragment: Option<u32> },
    /// The build is over; this is the linked program.
    Finish { program: u32 },
    /// Nothing: the event did not belong to the current state.
    Idle,
}

/// The state after one driver answer.
pub open spec fn next_state(s: BuildState, e: BuildEvent) -> BuildState {
    match (s, e) {
        (BuildState::AwaitProgram, BuildEvent::HandleCreated { handle }) => {
            if handle == 0 {
                BuildState::Failed { error: BuildError::ProgramAllocation }
            } else {
                BuildState::AwaitVertexHandle { program: handle }
            }
        },
        (BuildState::AwaitVertexHandle { program }, BuildEvent::HandleCreated { handle }) => {
            if handle == 0 {
                BuildState::Failed {
                    error: BuildError::ShaderAllocation { kind: ShaderKind::Vertex },
                }
            } else {
                BuildState::AwaitVertexCompile { program, vertex: handle }
            }
        },
        (
            BuildState::AwaitVertexCompile { program, vertex },
            BuildEvent::CompileFinished { success, log },
        ) => {
            if success {
                BuildState::AwaitFragmentHandle { program, vertex }
            } else {
                BuildState::Failed {
                    error: BuildError::Compilation { kind: ShaderKind::Vertex, log },
                }
            }
        },
        (
            BuildState::AwaitFragmentHandle { program, vertex },
            BuildEvent::HandleCreated { handle },
        ) => {
            if handle == 0 {
                BuildState::Failed {
                    error: BuildError::ShaderAllocation { kind: ShaderKind::Fragment },
                }
            } else {
                BuildState::AwaitFragmentCompile { program, vertex, fragment: handle }
            }
        },
        (
            BuildState::AwaitFragmentCompile { program, vertex, fragment },
            BuildEvent::CompileFinished { success, log },
        ) => {
            if success {
                BuildState::AwaitLink { program, vertex, fragment }
            } else {
                BuildState::Failed {
                    error: BuildError::Compilation { kind: ShaderKind::Fragment, log },
                }
            }
        },
        (
            BuildState::AwaitLink { program, vertex, fragment },
            BuildEvent::LinkFinished { success, log },
        ) => {
            if success {
                BuildState::Succeeded { program }
            } else {
                BuildState::Failed { error: BuildError::Linking { log } }
            }
        },
        (other, _) => other,
    }
}

/// The action the shell must perform after one driver answer.
pub open spec fn step_action(s: BuildState, e: BuildEvent) -> BuildAction {
    match (s, e) {
        (BuildState::AwaitProgram, BuildEvent::HandleCreated { handle }) => {
            if handle == 0 {
                BuildAction::Cleanup { program: None, vertex: None, fragment: None }
            } else {
                BuildAction::CreateShader { kind: ShaderKind::Vertex }
            }
        },
        (BuildState::AwaitVertexHandle { program }, BuildEvent::HandleCreated { handle }) => {
            if handle == 0 {
                BuildAction::Cleanup { program: Some(program), vertex: None, fragment: None }
            } else {
                BuildAction::CompileShader { shader: handle, kind: ShaderKind::Vertex }
            }
        },
        (
            BuildState::AwaitVertexCompile { program, vertex },
            BuildEvent::CompileFinished { success, log },
        ) => {
            if success {
                BuildAction::CreateShader { kind: ShaderKind::Fragment }
            } else {
                BuildAction::Cleanup {
                    program: Some(program),
                    vertex: Some(vertex),
                    fragment: None,
                }
            }
        },
        (
            BuildState::AwaitFragmentHandle { program, vertex },
            BuildEvent::HandleCreated { handle },
        ) => {
            if handle == 0 {
                BuildAction::Cleanup {
                    program: Some(program),
                    vertex: Some(vertex),
                    fragment: None,
                }
            } else {
                BuildAction::CompileShader { shader: handle, kind: ShaderKind::Fragment }
            }
        },
        (
            BuildState::AwaitFragmentCompile { program, vertex, fragment },
            BuildEvent::CompileFinished { success, log },
        ) => {
            if success {
                BuildAction::AttachAndLink { program, vertex, fragment }
            } else {
                BuildAction::Cleanup {
                    program: Some(program),
                    vertex: Some(vertex),
                    fragment: Some(fragment),
                }
            }
        },
        (
            BuildState::AwaitLink { program, vertex, fragment },
            BuildEvent::LinkFinished { success, log },
        ) => {
            if success {
                BuildAction::Finish { program }
            } else {
                BuildAction::Cleanup {
                    program: Some(program),
                    vertex: Some(vertex),
                    fragment: Some(fragment),
                }
            }
        },
        (_, _) => BuildAction::Idle,
    }
}

/// Begin a program build: the machine waits for a program handle, and the
/// shell must allocate one.
pub fn build_start() -> (r: (BuildState, BuildAction))
    ensures
        r.0 == BuildState::AwaitProgram,
        r.1 == BuildAction::CreateProgram,
{
    (BuildState::AwaitProgram, BuildAction::CreateProgram)
}

/// Advance the build by one driver answer: the new state and the action the
/// shell must perform next.
pub fn build_step(state: BuildState, event: BuildEvent) -> (r: (BuildState, BuildAction))
    ensures
        r.0 == next_state(state, event),
        r.1 == step_action(state, event),
{
    match (state, event) {
        (BuildState::AwaitProgram, BuildEvent::HandleCreated { handle }) => {
            if handle == 0 {
                (
                    BuildState::Failed { error: BuildError::ProgramAllocation },
                    BuildAction::Cleanup { program: None, vertex: None, fragment: None },
                )
            } else {
                (
                    BuildState::AwaitVertexHandle { program: handle },
                    BuildAction::CreateShader { kind: ShaderKind::Vertex },
                )
            }
        },
        (BuildState::AwaitVertexHandle { program }, BuildEvent::HandleCreated { handle }) => {
            if handle == 0 {
                (
                    BuildState::Failed {
                        error: BuildError::ShaderAllocation { kind: ShaderKind::Vertex },
                    },
                    BuildAction::Cleanup {
                        program: Some(program),
                        vertex: None,
                        fragment: None,
                    },
                )
            } else {
                (
                    BuildState::AwaitVertexCompile { program, vertex: handle },
                    BuildAction::CompileShader { shader: handle, kind: ShaderKind::Vertex },
                )
            }
        },
        (
            BuildState::AwaitVertexCompile { program, vertex },
            BuildEvent::CompileFinished { success, log },
        ) => {
            if success {
                (
                    BuildState::AwaitFragmentHandle { program, vertex },
                    BuildAction::CreateShader { kind: ShaderKind::Fragment },
                )
            } else {
                (
                    BuildState::Failed {
                        error: BuildError::Compilation { kind: ShaderKind::Vertex, log },
                    },
                    BuildAction::Cleanup {
                        program: Some(program),
                        vertex: Some(vertex),
                        fragment: None,
                    },
                )
            }
        },
        (
            BuildState::AwaitFragmentHandle { program, vertex },
            BuildEvent::HandleCreated { handle },
        ) => {
            if handle == 0 {
                (
                    BuildState::Failed {
                        error: BuildError::ShaderAllocation { kind: ShaderKind::Fragment },
                    },
                    BuildAction::Cleanup {
                        program: Some(program),
                        vertex: Some(vertex),
                        fragment: None,
                    },
                )
            } else {
                (
                    BuildState::AwaitFragmentCompile { program, vertex, fragment: handle },
                    BuildAction::CompileShader { shader: handle, kind: ShaderKind::Fragment },
                )
            }
        },
        (
            BuildState::AwaitFragmentCompile { program, vertex, fragment },
            BuildEvent::CompileFinished { success, log },
        ) => {
            if success {
                (
                    BuildState::AwaitLink { program, vertex, fragment },
                    BuildAction::AttachAndLink { program, vertex, fragment },
                )
            } else {
                (
                    BuildState::Failed {
                        error: BuildError::Compilation { kind: ShaderKind::Fragment, log },
                    },
                    BuildAction::Cleanup {
                        program: Some(program),
                        vertex: Some(vertex),
                        fragment: Some(fragment),
                    },
                )
            }
        },
        (
            BuildState::AwaitLink { program, vertex, fragment },
            BuildEvent::LinkFinished { success, log },
        ) => {
            if success {
                (BuildState::Succeeded { program }, BuildAction::Finish { program })
            } else {
                (
                    BuildState::Failed { error: BuildError::Linking { log } },
                    BuildAction::Cleanup {
                        program: Some(program),
                        vertex: Some(vertex),
                        fragment: Some(fragment),
                    },
                )
            }
        },
        (other, _) => (other, BuildAction::Idle),
    }
}

/// A failed fragment-shader compile always ends the build in failure,
/// carrying the compiler's diagnostic text word for word, and never yields a
/// program.
pub proof fn lemma_fragment_failure_yields_error(
    program: u32,
    vertex: u32,
    fragment: u32,
    log: String,
)
    ensures
        next_state(
            BuildState::AwaitFragmentCompile { program, vertex, fragment },
            BuildEvent::CompileFinished { success: false, log },
        ) == (BuildState::Failed {
            error: BuildError::Compilation { kind: ShaderKind::Fragment, log },
        }),
        !(next_state(
            BuildState::AwaitFragmentCompile { program, vertex, fragment },
            BuildEvent::CompileFinished { success: false, log },
        ) is Succeeded),
{
}

/// A failed build stays failed: no later driver answer can turn it into a
/// success, so a failed build never hands out a program handle.
pub proof fn lemma_failed_is_terminal(error: BuildError, event: BuildEvent)
    ensures
        next_state(BuildState::Failed { error }, event) == (BuildState::Failed { error }),
        step_action(BuildState::Failed { error }, event) == BuildAction::Idle,
{
}

} // verus!

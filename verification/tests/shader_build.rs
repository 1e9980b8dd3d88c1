use house_pan::shader_build::{
    build_start, build_step, BuildAction, BuildError, BuildEvent, BuildState, ShaderKind,
};

fn ok_compile() -> BuildEvent {
    BuildEvent::CompileFinished { success: true, log: String::new() }
}

#[test]
fn build_happy_path_yields_program() {
    let (st, act) = build_start();
    assert_eq!(st, BuildState::AwaitProgram);
    assert_eq!(act, BuildAction::CreateProgram);

    let (st, act) = build_step(st, BuildEvent::HandleCreated { handle: 3 });
    assert_eq!(st, BuildState::AwaitVertexHandle { program: 3 });
    assert_eq!(act, BuildAction::CreateShader { kind: ShaderKind::Vertex });

    let (st, act) = build_step(st, BuildEvent::HandleCreated { handle: 4 });
    assert_eq!(st, BuildState::AwaitVertexCompile { program: 3, vertex: 4 });
    assert_eq!(act, BuildAction::CompileShader { shader: 4, kind: ShaderKind::Vertex });

    let (st, act) = build_step(st, ok_compile());
    assert_eq!(st, BuildState::AwaitFragmentHandle { program: 3, vertex: 4 });
    assert_eq!(act, BuildAction::CreateShader { kind: ShaderKind::Fragment });

    let (st, act) = build_step(st, BuildEvent::HandleCreated { handle: 5 });
    assert_eq!(st, BuildState::AwaitFragmentCompile { program: 3, vertex: 4, fragment: 5 });
    assert_eq!(act, BuildAction::CompileShader { shader: 5, kind: ShaderKind::Fragment });

    let (st, act) = build_step(st, ok_compile());
    assert_eq!(st, BuildState::AwaitLink { program: 3, vertex: 4, fragment: 5 });
    assert_eq!(act, BuildAction::AttachAndLink { program: 3, vertex: 4, fragment: 5 });

    let (st, act) = build_step(st, BuildEvent::LinkFinished { success: true, log: String::new() });
    assert_eq!(st, BuildState::Succeeded { program: 3 });
    assert_eq!(act, BuildAction::Finish { program: 3 });
}

#[test]
fn build_fragment_syntax_error_fails_with_diagnostic() {
    // Drive the build to the fragment compile, then report the failure a
    // fragment source with a syntax error would produce.
    let (st, _) = build_start();
    let (st, _) = build_step(st, BuildEvent::HandleCreated { handle: 3 });
    let (st, _) = build_step(st, BuildEvent::HandleCreated { handle: 4 });
    let (st, _) = build_step(st, ok_compile());
    let (st, _) = build_step(st, BuildEvent::HandleCreated { handle: 5 });

    let diagnostic = "0:7(2): error: syntax error, unexpected NEW_IDENTIFIER".to_string();
    let (st, act) = build_step(
        st,
        BuildEvent::CompileFinished { success: false, log: diagnostic.clone() },
    );
    match &st {
        BuildState::Failed { error: BuildError::Compilation { kind, log } } => {
            assert_eq!(*kind, ShaderKind::Fragment);
            assert!(!log.is_empty());
            assert_eq!(*log, diagnostic);
        }
        other => panic!("expected a fragment compilation failure, got {:?}", other),
    }
    // Every partially created handle is released; no program is handed out.
    assert_eq!(
        act,
        BuildAction::Cleanup { program: Some(3), vertex: Some(4), fragment: Some(5) }
    );

    // A failed build stays failed, whatever the driver reports afterwards.
    let (st, act) = build_step(st, BuildEvent::LinkFinished { success: true, log: String::new() });
    assert!(matches!(st, BuildState::Failed { .. }));
    assert_eq!(act, BuildAction::Idle);
}

#[test]
fn build_vertex_compile_failure_names_the_vertex_stage() {
    let (st, _) = build_start();
    let (st, _) = build_step(st, BuildEvent::HandleCreated { handle: 8 });
    let (st, _) = build_step(st, BuildEvent::HandleCreated { handle: 9 });
    let (st, act) = build_step(
        st,
        BuildEvent::CompileFinished { success: false, log: "bad vertex".to_string() },
    );
    assert_eq!(
        st,
        BuildState::Failed {
            error: BuildError::Compilation { kind: ShaderKind::Vertex, log: "bad vertex".to_string() },
        }
    );
    assert_eq!(act, BuildAction::Cleanup { program: Some(8), vertex: Some(9), fragment: None });
}

#[test]
fn build_zero_program_handle_fails_allocation() {
    let (st, _) = build_start();
    let (st, act) = build_step(st, BuildEvent::HandleCreated { handle: 0 });
    assert_eq!(st, BuildState::Failed { error: BuildError::ProgramAllocation });
    assert_eq!(act, BuildAction::Cleanup { program: None, vertex: None, fragment: None });
}

#[test]
fn build_zero_shader_handle_fails_allocation() {
    let (st, _) = build_start();
    let (st, _) = build_step(st, BuildEvent::HandleCreated { handle: 6 });
    let (st, act) = build_step(st, BuildEvent::HandleCreated { handle: 0 });
    assert_eq!(
        st,
        BuildState::Failed { error: BuildError::ShaderAllocation { kind: ShaderKind::Vertex } }
    );
    assert_eq!(act, BuildAction::Cleanup { program: Some(6), vertex: None, fragment: None });
}

#[test]
fn build_link_failure_carries_the_linker_log() {
    let (st, _) = build_start();
    let (st, _) = build_step(st, BuildEvent::HandleCreated { handle: 3 });
    let (st, _) = build_step(st, BuildEvent::HandleCreated { handle: 4 });
    let (st, _) = build_step(st, ok_compile());
    let (st, _) = build_step(st, BuildEvent::HandleCreated { handle: 5 });
    let (st, _) = build_step(st, ok_compile());
    let (st, act) = build_step(
        st,
        BuildEvent::LinkFinished { success: false, log: "undefined entry point".to_string() },
    );
    assert_eq!(
        st,
        BuildState::Failed { error: BuildError::Linking { log: "undefined entry point".to_string() } }
    );
    assert_eq!(
        act,
        BuildAction::Cleanup { program: Some(3), vertex: Some(4), fragment: Some(5) }
    );
}

#[test]
fn build_mismatched_event_is_ignored() {
    let (st, _) = build_start();
    let (st2, act) = build_step(
        st.clone(),
        BuildEvent::LinkFinished { success: true, log: String::new() },
    );
    assert_eq!(st2, st);
    assert_eq!(act, BuildAction::Idle);
}

use bote::manifest::check_required_stages;
use bote::manifest::Stage;
use bote::pipeline::PipelineAction;
use bote::pipeline::PipelineEvent;
use bote::pipeline::PipelineFailure;
use bote::pipeline::PipelineRun;
use bote::pipeline::PipelineState;

fn names(items: &[&str]) -> Vec<String> {
    items.iter().map(|s| s.to_string()).collect()
}

#[test]
fn a_fully_successful_run_reaches_done_and_releases_the_sandbox() {
    let mut run = PipelineRun::new();
    assert_eq!(run.next_action(), PipelineAction::CompileManifest);
    let mut actions = Vec::new();
    actions.push(run.step(PipelineEvent::CompileOk));
    actions.push(run.step(PipelineEvent::SandboxReady));
    actions.push(run.step(PipelineEvent::VersionReturned { version: "1.2.0".to_string() }));
    actions.push(run.step(PipelineEvent::ListReturned { items: Vec::new() }));
    actions.push(run.step(PipelineEvent::ListReturned { items: Vec::new() }));
    actions.push(run.step(PipelineEvent::ListReturned { items: Vec::new() }));
    actions.push(run.step(PipelineEvent::Executables { names: names(&["ls"]) }));
    actions.push(run.step(PipelineEvent::StageDone));
    actions.push(run.step(PipelineEvent::StageDone));
    actions.push(run.step(PipelineEvent::StageDone));
    actions.push(run.step(PipelineEvent::Released));
    assert_eq!(
        actions,
        vec![
            PipelineAction::AcquireSandbox,
            PipelineAction::CallStage(Stage::Version),
            PipelineAction::CallStage(Stage::Conflicts),
            PipelineAction::CallStage(Stage::BoteDependencies),
            PipelineAction::CallStage(Stage::InstalledProgramDependencies),
            PipelineAction::ListExecutables,
            PipelineAction::CallStage(Stage::Prepare),
            PipelineAction::CallStage(Stage::Download),
            PipelineAction::CallStage(Stage::Install),
            PipelineAction::ReleaseSandbox,
            PipelineAction::Report,
        ]
    );
    assert_eq!(run.state, PipelineState::Done);
    assert!(run.failure.is_none());
    assert_eq!(run.version, Some("1.2.0".to_string()));
}

#[test]
fn a_missing_dependency_stops_the_run_before_prepare() {
    let mut run = PipelineRun::new();
    let mut actions = Vec::new();
    actions.push(run.step(PipelineEvent::CompileOk));
    actions.push(run.step(PipelineEvent::SandboxReady));
    actions.push(run.step(PipelineEvent::VersionReturned { version: "1.2.0".to_string() }));
    actions.push(run.step(PipelineEvent::ListReturned { items: Vec::new() }));
    actions.push(run.step(PipelineEvent::ListReturned { items: Vec::new() }));
    actions.push(run.step(PipelineEvent::ListReturned { items: names(&["^curl$"]) }));
    let after_verification = run.step(PipelineEvent::Executables { names: names(&["ls", "cat"]) });
    assert_eq!(after_verification, PipelineAction::ReleaseSandbox);
    assert_eq!(run.state, PipelineState::Cleanup);
    actions.push(after_verification);
    actions.push(run.step(PipelineEvent::Released));
    assert_eq!(run.state, PipelineState::Failed);
    match &run.failure {
        Some(PipelineFailure::MissingDependency { pattern }) => {
            assert_eq!(pattern, "^curl$");
        }
        other => panic!("expected a missing dependency, got {:?}", other),
    }
    assert!(!actions.contains(&PipelineAction::CallStage(Stage::Prepare)));
    assert!(!actions.contains(&PipelineAction::CallStage(Stage::Download)));
    assert!(!actions.contains(&PipelineAction::CallStage(Stage::Install)));
}

#[test]
fn a_failing_prepare_stage_still_releases_the_sandbox() {
    let mut run = PipelineRun::new();
    run.step(PipelineEvent::CompileOk);
    run.step(PipelineEvent::SandboxReady);
    run.step(PipelineEvent::VersionReturned { version: "0.1.0".to_string() });
    run.step(PipelineEvent::ListReturned { items: Vec::new() });
    run.step(PipelineEvent::ListReturned { items: Vec::new() });
    run.step(PipelineEvent::ListReturned { items: Vec::new() });
    run.step(PipelineEvent::Executables { names: names(&["ls"]) });
    assert_eq!(run.state, PipelineState::Prepare);
    let action = run.step(PipelineEvent::StageFailed { message: "deliberate".to_string() });
    assert_eq!(action, PipelineAction::ReleaseSandbox);
    assert_eq!(run.state, PipelineState::Cleanup);
    let action = run.step(PipelineEvent::Released);
    assert_eq!(action, PipelineAction::Report);
    assert_eq!(run.state, PipelineState::Failed);
    match &run.failure {
        Some(PipelineFailure::StageFailed { stage, message }) => {
            assert_eq!(*stage, Stage::Prepare);
            assert_eq!(message, "deliberate");
        }
        other => panic!("expected a stage failure, got {:?}", other),
    }
}

#[test]
fn a_compile_failure_goes_straight_to_failed() {
    let mut run = PipelineRun::new();
    let action = run.step(PipelineEvent::CompileFailed {
        message: "the build manifest misses the prepare stage".to_string(),
    });
    assert_eq!(action, PipelineAction::Report);
    assert_eq!(run.state, PipelineState::Failed);
    assert!(matches!(
        run.failure,
        Some(PipelineFailure::CompileFailed { .. })
    ));
}

#[test]
fn a_sandbox_failure_goes_straight_to_failed() {
    let mut run = PipelineRun::new();
    run.step(PipelineEvent::CompileOk);
    let action = run.step(PipelineEvent::SandboxFailed { message: "no temp dir".to_string() });
    assert_eq!(action, PipelineAction::Report);
    assert_eq!(run.state, PipelineState::Failed);
    assert!(matches!(
        run.failure,
        Some(PipelineFailure::SandboxFailed { .. })
    ));
}

#[test]
fn a_release_failure_after_success_is_reported() {
    let mut run = PipelineRun::new();
    run.step(PipelineEvent::CompileOk);
    run.step(PipelineEvent::SandboxReady);
    run.step(PipelineEvent::VersionReturned { version: "0.1.0".to_string() });
    run.step(PipelineEvent::ListReturned { items: Vec::new() });
    run.step(PipelineEvent::ListReturned { items: Vec::new() });
    run.step(PipelineEvent::ListReturned { items: Vec::new() });
    run.step(PipelineEvent::Executables { names: names(&["ls"]) });
    run.step(PipelineEvent::StageDone);
    run.step(PipelineEvent::StageDone);
    run.step(PipelineEvent::StageDone);
    run.step(PipelineEvent::ReleaseFailed { message: "busy".to_string() });
    assert_eq!(run.state, PipelineState::Failed);
    assert!(matches!(
        run.failure,
        Some(PipelineFailure::ReleaseFailed { .. })
    ));
}

#[test]
fn an_invalid_dependency_pattern_fails_verification() {
    let mut run = PipelineRun::new();
    run.step(PipelineEvent::CompileOk);
    run.step(PipelineEvent::SandboxReady);
    run.step(PipelineEvent::VersionReturned { version: "0.1.0".to_string() });
    run.step(PipelineEvent::ListReturned { items: Vec::new() });
    run.step(PipelineEvent::ListReturned { items: Vec::new() });
    run.step(PipelineEvent::ListReturned { items: names(&["("]) });
    run.step(PipelineEvent::Executables { names: names(&["ls"]) });
    assert_eq!(run.state, PipelineState::Cleanup);
    match &run.failure {
        Some(PipelineFailure::InvalidDependencyPattern { pattern }) => {
            assert_eq!(pattern, "(");
        }
        other => panic!("expected an invalid pattern, got {:?}", other),
    }
}

#[test]
fn a_manifest_with_all_stages_passes_the_stage_check() {
    let defined = names(&[
        "version",
        "conflicts",
        "bote_dependencies",
        "installed_program_dependencies",
        "prepare",
        "download",
        "install",
        "helper",
    ]);
    assert!(check_required_stages(&defined).is_ok());
}

#[test]
fn a_manifest_missing_prepare_is_rejected() {
    let defined = names(&[
        "version",
        "conflicts",
        "bote_dependencies",
        "installed_program_dependencies",
        "download",
        "install",
    ]);
    assert_eq!(check_required_stages(&defined), Err(Stage::Prepare));
}

#[test]
fn an_empty_manifest_misses_the_version_stage_first() {
    let defined: Vec<String> = Vec::new();
    assert_eq!(check_required_stages(&defined), Err(Stage::Version));
}

#[test]
fn failure_messages_surface_the_originating_error() {
    let f = PipelineFailure::MissingDependency { pattern: "^curl$".to_string() };
    assert_eq!(f.message(), "^curl$ does not exist".to_string());
    let f = PipelineFailure::StageFailed {
        stage: Stage::Prepare,
        message: "boom".to_string(),
    };
    assert_eq!(f.message(), "the prepare stage failed: boom".to_string());
    let f = PipelineFailure::CompileFailed { message: "syntax".to_string() };
    assert_eq!(
        f.message(),
        "failed to compile the build manifest: syntax".to_string()
    );
}

#[test]
fn stage_names_match_the_manifest_functions() {
    assert_eq!(Stage::Version.name(), "version".to_string());
    assert_eq!(
        Stage::InstalledProgramDependencies.name(),
        "installed_program_dependencies".to_string()
    );
    assert_eq!(Stage::Install.name(), "install".to_string());
}

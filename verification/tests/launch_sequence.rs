use sidecar_supervisor::health::HealthOutcome;
use sidecar_supervisor::launcher::{
    LaunchEvent, LaunchOutcome, LaunchSequence, LaunchStep, ResourceDir,
};
use sidecar_supervisor::platform::Platform;
use sidecar_supervisor::stager::{BundleProbe, LaunchMethod, StageAction};
use sidecar_supervisor::state::SupervisorState;

fn dir(path: &str, present: bool) -> ResourceDir {
    ResourceDir { path: path.to_string(), present }
}

fn development() -> LaunchEvent<u8> {
    LaunchEvent::Inspected {
        solutions: dir("/r/solutions", false),
        frontend: dir("/r/dist", true),
        bundle: BundleProbe {
            support_source_present: false,
            source_located: true,
            source_present: false,
            source_size: None,
            staged_executable_present: false,
            staged_support_present: false,
            staged_size: None,
        },
    }
}

fn packaged(staged_size: Option<u64>) -> LaunchEvent<u8> {
    LaunchEvent::Inspected {
        solutions: dir("/r/solutions", true),
        frontend: dir("/r/dist", true),
        bundle: BundleProbe {
            support_source_present: true,
            source_located: true,
            source_present: true,
            source_size: Some(700),
            staged_executable_present: staged_size.is_some(),
            staged_support_present: staged_size.is_some(),
            staged_size,
        },
    }
}

#[test]
fn launch_in_development_spawns_by_the_default_mechanism() {
    let mut state: SupervisorState<u8> = SupervisorState::new();
    state.set_backend_port(18080);
    let (mut launch, step) = LaunchSequence::begin(&state, Platform::Unix, 18080);
    assert_eq!(step, LaunchStep::Sweep);
    let step = launch.advance(&mut state, LaunchEvent::Swept { cleaned: 2 });
    assert_eq!(step, LaunchStep::Inspect);
    let step = launch.advance(&mut state, development());
    assert_eq!(step, LaunchStep::Spawn { method: LaunchMethod::Default });
    assert_eq!(
        launch.args(),
        &vec!["--port", "18080", "--host", "127.0.0.1", "--frontend-dir", "/r/dist"]
    );
    assert!(!state.is_started());
    let step = launch.advance(&mut state, LaunchEvent::Spawned { pid: 4242, handle: Some(9) });
    assert_eq!(step, LaunchStep::AwaitHealth);
    assert!(state.is_started());
    assert_eq!(state.worker_pid(), 4242);
    assert!(state.has_handle());
    let step = launch.advance(&mut state, LaunchEvent::Health { outcome: HealthOutcome::Ready });
    assert_eq!(step, LaunchStep::Finished(LaunchOutcome::Started));
    let again = launch.advance(&mut state, LaunchEvent::SpawnFailed);
    assert_eq!(again, LaunchStep::Finished(LaunchOutcome::Started));
}

#[test]
fn launch_twice_spawns_once() {
    let mut state: SupervisorState<u8> = SupervisorState::new();
    state.set_backend_port(18080);
    state.record_spawn(4242, None);
    let (mut launch, step) = LaunchSequence::begin(&state, Platform::Unix, 18080);
    assert_eq!(
        step,
        LaunchStep::Finished(LaunchOutcome::AlreadyStarted { pid: 4242, port: 18080 })
    );
    let step = launch.advance(&mut state, LaunchEvent::Spawned { pid: 5000, handle: Some(1) });
    assert_eq!(
        step,
        LaunchStep::Finished(LaunchOutcome::AlreadyStarted { pid: 4242, port: 18080 })
    );
    assert_eq!(state.worker_pid(), 4242);
    assert!(!state.has_handle());
}

#[test]
fn launch_stages_a_missing_copy_before_it_spawns() {
    let mut state: SupervisorState<u8> = SupervisorState::new();
    let (mut launch, _) = LaunchSequence::begin(&state, Platform::Unix, 9000);
    launch.advance(&mut state, LaunchEvent::Swept { cleaned: 0 });
    let step = launch.advance(&mut state, packaged(None));
    assert_eq!(step, LaunchStep::Stage);
    assert_eq!(
        launch.staging_actions(),
        &vec![
            StageAction::CreateCacheDir,
            StageAction::CopyExecutable,
            StageAction::MarkExecutable,
            StageAction::CopySupportDir,
            StageAction::MarkLibraries,
        ]
    );
    let step = launch.advance(&mut state, LaunchEvent::Staged { succeeded: true });
    assert_eq!(step, LaunchStep::Spawn { method: LaunchMethod::Staged });
    assert_eq!(
        launch.args(),
        &vec![
            "--port",
            "9000",
            "--host",
            "127.0.0.1",
            "--solutions-dir",
            "/r/solutions",
            "--frontend-dir",
            "/r/dist",
        ]
    );
}

#[test]
fn launch_falls_back_when_staging_fails() {
    let mut state: SupervisorState<u8> = SupervisorState::new();
    let (mut launch, _) = LaunchSequence::begin(&state, Platform::Windows, 9000);
    launch.advance(&mut state, LaunchEvent::Swept { cleaned: 0 });
    assert_eq!(launch.advance(&mut state, packaged(Some(1))), LaunchStep::Stage);
    let step = launch.advance(&mut state, LaunchEvent::Staged { succeeded: false });
    assert_eq!(step, LaunchStep::Spawn { method: LaunchMethod::Default });
}

#[test]
fn launch_reuses_a_fresh_copy_without_staging() {
    let mut state: SupervisorState<u8> = SupervisorState::new();
    let (mut launch, _) = LaunchSequence::begin(&state, Platform::Unix, 9000);
    launch.advance(&mut state, LaunchEvent::Swept { cleaned: 0 });
    let step = launch.advance(&mut state, packaged(Some(700)));
    assert_eq!(step, LaunchStep::Spawn { method: LaunchMethod::Staged });
    assert!(launch.staging_actions().is_empty());
}

#[test]
fn launch_reports_a_failed_spawn_and_a_timeout() {
    let mut state: SupervisorState<u8> = SupervisorState::new();
    let (mut launch, _) = LaunchSequence::begin(&state, Platform::Unix, 9000);
    launch.advance(&mut state, LaunchEvent::Swept { cleaned: 0 });
    launch.advance(&mut state, development());
    let step = launch.advance(&mut state, LaunchEvent::SpawnFailed);
    assert_eq!(step, LaunchStep::Finished(LaunchOutcome::SpawnFailed));
    assert!(!state.is_started());

    let (mut launch, _) = LaunchSequence::begin(&state, Platform::Unix, 9000);
    launch.advance(&mut state, LaunchEvent::Swept { cleaned: 0 });
    launch.advance(&mut state, development());
    launch.advance(&mut state, LaunchEvent::Spawned { pid: 7, handle: None });
    let step = launch.advance(&mut state, LaunchEvent::Health { outcome: HealthOutcome::TimedOut });
    assert_eq!(step, LaunchStep::Finished(LaunchOutcome::TimedOut));
}

#[test]
fn launch_asks_again_after_a_report_out_of_turn() {
    let mut state: SupervisorState<u8> = SupervisorState::new();
    let (mut launch, _) = LaunchSequence::begin(&state, Platform::Unix, 9000);
    let step = launch.advance(&mut state, LaunchEvent::Spawned { pid: 7, handle: Some(1) });
    assert_eq!(step, LaunchStep::Sweep);
    assert!(!state.is_started());
    assert_eq!(state.worker_pid(), 0);
    let step = launch.advance(&mut state, development());
    assert_eq!(step, LaunchStep::Sweep);
    launch.advance(&mut state, LaunchEvent::Swept { cleaned: 0 });
    let step = launch.advance(&mut state, LaunchEvent::Health { outcome: HealthOutcome::Ready });
    assert_eq!(step, LaunchStep::Inspect);
}

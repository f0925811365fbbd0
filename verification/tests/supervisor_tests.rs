use backend_supervisor::lifecycle::{
    on_startup, on_window_event, StartupAction, WindowEvent, WindowResponse, AUTO_START_DELAY_MS,
    DEFAULT_PORT,
};
use backend_supervisor::mode::{EnvSignals, LaunchMode};
use backend_supervisor::server::{start, LaunchError, ServerHandle};
use backend_supervisor::supervisor::{
    stop_finished, StartDecision, StartReport, Status, StopDecision,
    SupervisorState,
};

fn production() -> EnvSignals {
    EnvSignals { tauri_dev: false, debug: false, exe_has_platform_extension: Some(true) }
}

fn development() -> EnvSignals {
    EnvSignals { tauri_dev: true, debug: false, exe_has_platform_extension: Some(true) }
}

fn running_on(port: u16, pid: u32) -> SupervisorState {
    let mut state = SupervisorState::new();
    let report = state.launch_finished(Ok(ServerHandle { pid: Some(pid), port }));
    assert_eq!(report, StartReport { status: Status::Running(port), surplus: None });
    state
}

#[test]
fn new_supervisor_is_stopped() {
    let state = SupervisorState::new();
    assert_eq!(state.status(), Status::Stopped);
}

#[test]
fn logs_before_any_start_are_empty() {
    let state = SupervisorState::new();
    assert_eq!(state.logs(), "");
}

#[test]
fn start_on_empty_slot_launches_in_the_detected_mode() {
    let state = SupervisorState::new();
    assert_eq!(state.request_start(&production()), StartDecision::Launch(LaunchMode::Production));
    assert_eq!(state.request_start(&development()), StartDecision::Launch(LaunchMode::Development));
}

#[test]
fn successful_start_reports_running_on_the_port() {
    let state = running_on(8787, 10);
    assert_eq!(state.status(), Status::Running(8787));
    assert_eq!(state.status(), Status::Running(8787));
}

#[test]
fn repeated_starts_spawn_one_child() {
    let mut state = SupervisorState::new();
    let mut spawned = 0;
    for attempt in 0..5u16 {
        match state.request_start(&production()) {
            StartDecision::Launch(mode) => {
                spawned += 1;
                let port = 8000 + attempt;
                let report = state.launch_finished(start(mode, port, Ok(Some(77))));
                assert_eq!(report.status, Status::Running(port));
            }
            StartDecision::AlreadyRunning(port) => assert_eq!(port, 8000),
        }
    }
    assert_eq!(spawned, 1);
    assert_eq!(state.status(), Status::Running(8000));
}

#[test]
fn failed_start_leaves_the_slot_empty() {
    let mut state = SupervisorState::new();
    let decision = state.request_start(&production());
    assert_eq!(decision, StartDecision::Launch(LaunchMode::Production));
    let outcome = start(LaunchMode::Production, 8787, Err("No such file or directory".to_string()));
    assert!(matches!(outcome, Err(LaunchError::SpawnFailed(_))));
    let report = state.launch_finished(outcome);
    assert_eq!(
        report,
        StartReport {
            status: Status::Error("Failed to start server: No such file or directory".to_string()),
            surplus: None,
        }
    );
    assert_eq!(state.status(), Status::Stopped);
    assert_eq!(state.request_start(&production()), StartDecision::Launch(LaunchMode::Production));
}

#[test]
fn occupied_slot_declines_a_second_handle() {
    let mut state = running_on(8787, 10);
    let second = ServerHandle { pid: Some(11), port: 9000 };
    let report = state.launch_finished(Ok(second));
    assert_eq!(report, StartReport { status: Status::Running(8787), surplus: Some(second) });
    assert_eq!(state.status(), Status::Running(8787));
    assert_eq!(
        state.request_stop(),
        StopDecision::Terminate(ServerHandle { pid: Some(10), port: 8787 })
    );
}

#[test]
fn stop_on_empty_slot_signals_nothing() {
    let mut state = SupervisorState::new();
    assert_eq!(state.request_stop(), StopDecision::AlreadyStopped);
    assert_eq!(state.status(), Status::Stopped);
}

#[test]
fn stop_hands_out_the_handle_and_empties_the_slot() {
    let mut state = running_on(8787, 10);
    let handle = ServerHandle { pid: Some(10), port: 8787 };
    assert_eq!(state.request_stop(), StopDecision::Terminate(handle));
    assert_eq!(state.status(), Status::Stopped);
    assert_eq!(stop_finished(handle, Ok(())), Status::Stopped);
    assert_eq!(state.request_stop(), StopDecision::AlreadyStopped);
}

#[test]
fn failed_termination_still_clears_the_slot() {
    let mut state = running_on(8787, 10);
    let handle = match state.request_stop() {
        StopDecision::Terminate(handle) => handle,
        StopDecision::AlreadyStopped => panic!("a handle was held"),
    };
    assert_eq!(
        stop_finished(handle, Err("no such process".to_string())),
        Status::Error("Failed to stop server: no such process".to_string())
    );
    assert_eq!(state.status(), Status::Stopped);
}

#[test]
fn start_after_stop_spawns_anew() {
    let mut state = running_on(8787, 10);
    state.request_stop();
    assert_eq!(state.request_start(&production()), StartDecision::Launch(LaunchMode::Production));
    let report = state.launch_finished(Ok(ServerHandle { pid: Some(20), port: 9999 }));
    assert_eq!(report.status, Status::Running(9999));
    assert_eq!(state.status(), Status::Running(9999));
}

#[test]
fn captured_output_is_kept_until_the_next_run() {
    let mut state = running_on(8787, 10);
    state.record_output("listening\n");
    state.record_output("ready\n");
    assert_eq!(state.logs(), "listening\nready\n");
    state.request_stop();
    assert_eq!(state.logs(), "listening\nready\n");
    state.launch_finished(Err(LaunchError::SpawnFailed("boom".to_string())));
    assert_eq!(state.logs(), "listening\nready\n");
    state.launch_finished(Ok(ServerHandle { pid: None, port: 1 }));
    assert_eq!(state.logs(), "");
}

#[test]
fn startup_starts_the_default_port_once() {
    assert_eq!(DEFAULT_PORT, 8787);
    assert_eq!(AUTO_START_DELAY_MS, 500);
    let state = SupervisorState::new();
    assert_eq!(on_startup(&state), StartupAction::Start(8787));
    let state = running_on(8787, 10);
    assert_eq!(on_startup(&state), StartupAction::Skip);
}

#[test]
fn close_request_hides_the_window_and_keeps_the_server() {
    let state = running_on(8787, 10);
    let response = on_window_event(WindowEvent::CloseRequested);
    assert_eq!(response, WindowResponse { prevent_close: true, hide: true });
    assert_eq!(state.status(), Status::Running(8787));
}

#[test]
fn other_window_events_take_their_course() {
    assert_eq!(
        on_window_event(WindowEvent::Other),
        WindowResponse { prevent_close: false, hide: false }
    );
}

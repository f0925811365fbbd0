use backend_supervisor::mode::LaunchMode;
use backend_supervisor::resolve::{ExecutablePath, ResolveError};
use backend_supervisor::server::{
    development_target, plan, plan_development, plan_production, production_target, start, stop,
    LaunchError, ResolvedTarget, ServerHandle,
};

fn texts(items: &[&str]) -> Vec<String> {
    items.iter().map(|s| s.to_string()).collect()
}

#[test]
fn development_target_runs_the_dev_task() {
    let expected = ResolvedTarget::Development {
        root: "/work/project".to_string(),
        subpath: texts(&["apps", "server"]),
        command: "npm".to_string(),
        args: texts(&["run", "dev"]),
    };
    assert_eq!(development_target("/work/project".to_string()), expected);
    assert_eq!(plan_development(Ok("/work/project".to_string())), Ok(expected));
}

#[test]
fn production_target_passes_the_port() {
    let path = ExecutablePath { dir: "/opt/app".to_string(), file_name: "server".to_string() };
    let expected = ResolvedTarget::Production {
        dir: "/opt/app".to_string(),
        file_name: "server".to_string(),
        args: texts(&["--port", "8787"]),
    };
    assert_eq!(production_target(path, 8787), expected);
    assert_eq!(plan_production(Ok("/opt/app".to_string()), false, 8787), Ok(expected));
}

#[test]
fn production_plan_adds_the_extension_where_needed() {
    let expected = ResolvedTarget::Production {
        dir: "C:\\app".to_string(),
        file_name: "server.exe".to_string(),
        args: texts(&["--port", "3000"]),
    };
    assert_eq!(plan_production(Ok("C:\\app".to_string()), true, 3000), Ok(expected));
}

#[test]
fn plans_pass_on_resolution_failures() {
    assert_eq!(
        plan_development(Err(ResolveError::ManifestNotFound)),
        Err(LaunchError::ProjectRoot(ResolveError::ManifestNotFound))
    );
    assert_eq!(
        plan_production(Err("gone".to_string()), false, 1),
        Err(LaunchError::Executable(ResolveError::ExePathUnreadable("gone".to_string())))
    );
}

#[test]
fn start_records_the_requested_port() {
    assert_eq!(
        start(LaunchMode::Production, 8787, Ok(Some(4242))),
        Ok(ServerHandle { pid: Some(4242), port: 8787 })
    );
    assert_eq!(
        start(LaunchMode::Development, 3000, Ok(None)),
        Ok(ServerHandle { pid: None, port: 3000 })
    );
}

#[test]
fn start_reports_spawn_failures_with_guidance() {
    assert_eq!(
        start(LaunchMode::Development, 8787, Err("not found".to_string())),
        Err(LaunchError::SpawnFailed(
            "Failed to start dev server: not found. Ensure npm is in PATH".to_string()
        ))
    );
    assert_eq!(
        start(LaunchMode::Production, 8787, Err("No such file".to_string())),
        Err(LaunchError::SpawnFailed("Failed to start server: No such file".to_string()))
    );
}

#[test]
fn stop_reports_termination_failures() {
    let handle = ServerHandle { pid: Some(1), port: 8787 };
    assert_eq!(stop(handle, Ok(())), Ok(()));
    assert_eq!(
        stop(handle, Err("no such process".to_string())),
        Err("Failed to stop server: no such process".to_string())
    );
}

#[test]
fn launch_error_messages() {
    assert_eq!(
        LaunchError::ProjectRoot(ResolveError::ManifestNotFound).message(),
        "Failed to find project root: Could not find project root (package.json)"
    );
    assert_eq!(
        LaunchError::Executable(ResolveError::ExePathUnreadable("gone".to_string())).message(),
        "Failed to get exe path: gone"
    );
    assert_eq!(LaunchError::SpawnFailed("boom".to_string()).message(), "boom");
}

#[test]
fn plan_follows_the_mode() {
    let root = || Ok("/work/project".to_string());
    let exe_dir = || Ok("/opt/app".to_string());
    assert_eq!(
        plan(LaunchMode::Development, root(), exe_dir(), false, 8787),
        plan_development(root())
    );
    assert_eq!(
        plan(LaunchMode::Production, root(), exe_dir(), false, 8787),
        plan_production(exe_dir(), false, 8787)
    );
    assert_eq!(
        plan(LaunchMode::Production, Err(ResolveError::ManifestNotFound), exe_dir(), true, 80),
        plan_production(exe_dir(), true, 80)
    );
}

#[test]
fn plan_reports_the_failure_of_its_own_mode_only() {
    assert_eq!(
        plan(
            LaunchMode::Development,
            Err(ResolveError::ManifestNotFound),
            Ok("/opt/app".to_string()),
            false,
            8787
        ),
        Err(LaunchError::ProjectRoot(ResolveError::ManifestNotFound))
    );
    assert_eq!(
        plan(LaunchMode::Production, Ok("/work".to_string()), Err("gone".to_string()), false, 1),
        Err(LaunchError::Executable(ResolveError::ExePathUnreadable("gone".to_string())))
    );
    assert!(plan(LaunchMode::Development, Ok("/work".to_string()), Err("gone".to_string()), false, 1)
        .is_ok());
}

//! Launching and stopping the backend: the launch target for each mode,
//! and what a spawn or a termination, once attempted, amounts to.

use vstd::prelude::*;
use vstd::string::StringExecFns;
use crate::mode::LaunchMode;
use crate::resolve::{resolve_executable, spec_companion_name, ExecutablePath, ResolveError};
use crate::text::{decimal, spec_decimal};

verus! {

/// One running child process.
#[derive(Clone, Copy, Debug, PartialEq, Eq)]
pub struct ServerHandle {
    /// The system's identifier of the child, where it gave one.
    pub pid: Option<u32>,
    /// The port the start was requested for. In development mode the
    /// backend may bind a port of its own choosing.
    pub port: u16,
}

/// What is to be spawned.
#[derive(Clone, Debug, PartialEq, Eq)]
pub enum ResolvedTarget {
    /// Run `command` with `args` in the directory `root` followed by
    /// `subpath`.
    Development { root: String, subpath: Vec<String>, command: String, args: Vec<String> },
    /// Run the file `file_name` in the directory `dir` with `args`.
    Production { dir: String, file_name: String, args: Vec<String> },
}

/// Why a launch failed.
#[derive(Clone, Debug, PartialEq, Eq)]
pub enum LaunchError {
    /// Development: the project root could not be found.
    ProjectRoot(ResolveError),
    /// Production: the executable's path could not be computed.
    Executable(ResolveError),
    /// The target could not be started; holds the message for the user.
    SpawnFailed(String),
}

/// The development target under the project root `root`: `npm run dev`
/// in `apps/server`.
pub open spec fn is_development_target(target: ResolvedTarget, root: Seq<char>) -> bool {
    target matches ResolvedTarget::Development { root: r, subpath, command, args } && r@ == root
        && subpath.deep_view() == seq!["apps"@, "server"@] && command@ == "npm"@
        && args.deep_view() == seq!["run"@, "dev"@]
}

/// The production target: the executable at `path`, with `--port` and the
/// port's numeral.
pub open spec fn is_production_target(target: ResolvedTarget, path: ExecutablePath, port: u16) -> bool {
    target matches ResolvedTarget::Production { dir, file_name, args } && dir@ == path.dir@
        && file_name@ == path.file_name@ && args.deep_view() == seq![
        "--port"@,
        spec_decimal(port as nat),
    ]
}

/// A list of two texts.
fn pair(first: String, second: String) -> (list: Vec<String>)
    ensures
        list.deep_view() == seq![first@, second@],
{
    let mut list: Vec<String> = Vec::new();
    list.push(first);
    list.push(second);
    assert(list.deep_view() =~= seq![first@, second@]);
    list
}

/// The launch target in development mode.
pub fn development_target(root: String) -> (target: ResolvedTarget)
    ensures
        is_development_target(target, root@),
{
    ResolvedTarget::Development {
        root,
        subpath: pair(String::from_str("apps"), String::from_str("server")),
        command: String::from_str("npm"),
        args: pair(String::from_str("run"), String::from_str("dev")),
    }
}

/// The launch target in production mode.
pub fn production_target(path: ExecutablePath, port: u16) -> (target: ResolvedTarget)
    ensures
        is_production_target(target, path, port),
{
    let args = pair(String::from_str("--port"), decimal(port));
    ResolvedTarget::Production { dir: path.dir, file_name: path.file_name, args }
}

/// What a development plan is, given the outcome of the search for the
/// project root: the development target under the root, or the failure of
/// the search.
pub open spec fn is_development_plan(
    plan: Result<ResolvedTarget, LaunchError>,
    root: Result<String, ResolveError>,
) -> bool {
    match root {
        Ok(dir) => plan matches Ok(target) && is_development_target(target, dir@),
        Err(e) => plan == Err::<ResolvedTarget, LaunchError>(LaunchError::ProjectRoot(e)),
    }
}

/// What a production plan is, given the directory of the running
/// executable or the system's words where its path could not be read: the
/// companion executable in that directory with `--port` and the port's
/// numeral, or the failure.
pub open spec fn is_production_plan(
    plan: Result<ResolvedTarget, LaunchError>,
    exe_dir: Result<String, String>,
    needs_extension: bool,
    port: u16,
) -> bool {
    match exe_dir {
        Ok(dir) => plan matches Ok(ResolvedTarget::Production { dir: d, file_name, args }) && d@
            == dir@ && file_name@ == spec_companion_name(needs_extension) && args.deep_view()
            == seq!["--port"@, spec_decimal(port as nat)],
        Err(e) => plan == Err::<ResolvedTarget, LaunchError>(
            LaunchError::Executable(ResolveError::ExePathUnreadable(e)),
        ),
    }
}

/// Plans a development launch from the outcome of the search for the
/// project root.
pub fn plan_development(root: Result<String, ResolveError>) -> (plan: Result<
    ResolvedTarget,
    LaunchError,
>)
    ensures
        is_development_plan(plan, root),
{
    match root {
        Ok(dir) => Ok(development_target(dir)),
        Err(e) => Err(LaunchError::ProjectRoot(e)),
    }
}

/// Plans a production launch. `exe_dir` is the directory of the running
/// executable, or the system's words where its path could not be read.
pub fn plan_production(exe_dir: Result<String, String>, needs_extension: bool, port: u16) -> (plan:
    Result<ResolvedTarget, LaunchError>)
    ensures
        is_production_plan(plan, exe_dir, needs_extension, port),
{
    match resolve_executable(exe_dir, needs_extension) {
        Ok(path) => Ok(production_target(path, port)),
        Err(e) => Err(LaunchError::Executable(e)),
    }
}

/// Plans a launch in the given mode: as [`plan_development`] does from
/// `root` in development, as [`plan_production`] does from `exe_dir` in
/// production. What is given for the other mode is not looked at.
pub fn plan(
    mode: LaunchMode,
    root: Result<String, ResolveError>,
    exe_dir: Result<String, String>,
    needs_extension: bool,
    port: u16,
) -> (plan: Result<ResolvedTarget, LaunchError>)
    ensures
        match mode {
            LaunchMode::Development => is_development_plan(plan, root),
            LaunchMode::Production => is_production_plan(plan, exe_dir, needs_extension, port),
        },
{
    match mode {
        LaunchMode::Development => plan_development(root),
        LaunchMode::Production => plan_production(exe_dir, needs_extension, port),
    }
}

/// The message for a target that could not be started, from the system's
/// words. In development it adds that the package manager must be on the
/// execution path.
pub open spec fn spec_spawn_message(mode: LaunchMode, cause: Seq<char>) -> Seq<char> {
    match mode {
        LaunchMode::Development => "Failed to start dev server: "@ + cause
            + ". Ensure npm is in PATH"@,
        LaunchMode::Production => "Failed to start server: "@ + cause,
    }
}

/// The message for a termination that failed, from the system's words.
pub open spec fn spec_stop_message(cause: Seq<char>) -> Seq<char> {
    "Failed to stop server: "@ + cause
}

impl LaunchError {
    /// The text of [`LaunchError::message`].
    pub open spec fn spec_message(self) -> Seq<char> {
        match self {
            LaunchError::ProjectRoot(e) => "Failed to find project root: "@ + e.spec_message(),
            LaunchError::Executable(e) => e.spec_message(),
            LaunchError::SpawnFailed(text) => text@,
        }
    }

    /// The failure in words, for the user.
    pub fn message(&self) -> (text: String)
        ensures
            text@ == self.spec_message(),
    {
        match self {
            LaunchError::ProjectRoot(e) => {
                let inner = e.message();
                String::from_str("Failed to find project root: ").concat(inner.as_str())
            },
            LaunchError::Executable(e) => e.message(),
            LaunchError::SpawnFailed(text) => text.clone(),
        }
    }
}

/// Settles a launch once the spawn was attempted. `spawned` holds the
/// child's identifier, or the system's words where the target could not be
/// started. The handle records the requested port.
pub fn start(mode: LaunchMode, port: u16, spawned: Result<Option<u32>, String>) -> (launched:
    Result<ServerHandle, LaunchError>)
    ensures
        match spawned {
            Ok(pid) => launched == Ok::<ServerHandle, LaunchError>(ServerHandle { pid, port }),
            Err(cause) => launched matches Err(LaunchError::SpawnFailed(text)) && text@
                == spec_spawn_message(mode, cause@),
        },
{
    match spawned {
        Ok(pid) => Ok(ServerHandle { pid, port }),
        Err(cause) => {
            let text = match mode {
                LaunchMode::Development => String::from_str("Failed to start dev server: ").concat(
                    cause.as_str(),
                ).concat(". Ensure npm is in PATH"),
                LaunchMode::Production => String::from_str("Failed to start server: ").concat(
                    cause.as_str(),
                ),
            };
            Err(LaunchError::SpawnFailed(text))
        },
    }
}

/// Settles a stop once the termination was attempted. The handle is given
/// up either way; a failed termination is reported in words.
pub fn stop(handle: ServerHandle, killed: Result<(), String>) -> (stopped: Result<(), String>)
    ensures
        match killed {
            Ok(_) => stopped is Ok,
            Err(cause) => stopped matches Err(text) && text@ == spec_stop_message(cause@),
        },
{
    match killed {
        Ok(_) => Ok(()),
        Err(cause) => Err(String::from_str("Failed to stop server: ").concat(cause.as_str())),
    }
}

} // verus!

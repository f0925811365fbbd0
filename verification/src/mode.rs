//! Mode detection: development (run from the source tree) or production
//! (run from an installed bundle).

use vstd::prelude::*;
use vstd::string::StringExecFns;

verus! {

/// How the backend is to be launched.
#[derive(Clone, Copy, Debug, PartialEq, Eq, Structural)]
pub enum LaunchMode {
    /// Run from source through the package manager's development task.
    Development,
    /// Run the packaged companion executable.
    Production,
}

/// What the process environment shows about how the application runs.
#[derive(Clone, Copy, Debug)]
pub struct EnvSignals {
    /// The variable `TAURI_DEV` is set.
    pub tauri_dev: bool,
    /// The variable `DEBUG` is set.
    pub debug: bool,
    /// Whether the running executable's path carries the platform's
    /// executable extension, as [`carries_platform_extension`] decides;
    /// `None` where that path could not be read.
    pub exe_has_platform_extension: Option<bool>,
}

/// The extension of a path, as text.
pub open spec fn spec_extension(extension: Option<&str>) -> Option<Seq<char>> {
    match extension {
        Some(e) => Some(e@),
        None => None,
    }
}

/// The path's extension is the one that executables carry on the platform.
/// Where the platform gives its executables no extension
/// (`platform_extension` is empty), no path carries it.
pub open spec fn spec_carries_platform_extension(
    extension: Option<Seq<char>>,
    platform_extension: Seq<char>,
) -> bool {
    platform_extension.len() > 0 && extension == Some(platform_extension)
}

/// Tells whether an executable's path carries the platform's executable
/// extension. `extension` is the extension of the path, without the dot,
/// or `None` where the path has none.
pub fn carries_platform_extension(extension: Option<&str>, platform_extension: &str) -> (carries:
    bool)
    ensures
        carries == spec_carries_platform_extension(
            spec_extension(extension),
            platform_extension@,
        ),
{
    match extension {
        Some(e) => {
            if platform_extension.unicode_len() == 0 {
                return false;
            }
            let found = String::from_str(e);
            let wanted = String::from_str(platform_extension);
            found == wanted
        },
        None => false,
    }
}

/// Gathers the signals from what was read of the environment: whether
/// each variable is set, and the extension of the running executable's
/// path (`None` where the path could not be read, `Some(None)` where it
/// has no extension).
pub fn observe(
    tauri_dev: bool,
    debug: bool,
    exe_extension: Option<Option<&str>>,
    platform_extension: &str,
) -> (signals: EnvSignals)
    ensures
        signals.tauri_dev == tauri_dev,
        signals.debug == debug,
        signals.exe_has_platform_extension == match exe_extension {
            Some(extension) => Some(
                spec_carries_platform_extension(spec_extension(extension), platform_extension@),
            ),
            None => None,
        },
{
    let exe_has_platform_extension = match exe_extension {
        Some(extension) => Some(carries_platform_extension(extension, platform_extension)),
        None => None,
    };
    EnvSignals { tauri_dev, debug, exe_has_platform_extension }
}

/// A development flag is set, or the executable is not known to carry the
/// platform's executable extension.
pub open spec fn spec_is_development(signals: EnvSignals) -> bool {
    signals.tauri_dev || signals.debug || signals.exe_has_platform_extension != Some(true)
}

/// The mode that the signals call for.
pub open spec fn spec_detect(signals: EnvSignals) -> LaunchMode {
    if spec_is_development(signals) {
        LaunchMode::Development
    } else {
        LaunchMode::Production
    }
}

/// Whether the signals indicate a development environment.
pub fn is_development_mode(signals: &EnvSignals) -> (dev: bool)
    ensures
        dev == spec_is_development(*signals),
{
    if signals.tauri_dev || signals.debug {
        return true;
    }
    match signals.exe_has_platform_extension {
        Some(present) => !present,
        None => true,
    }
}

/// Decides the launch mode. The answer is a function of the signals alone,
/// and the absence of every signal is itself an answer: production.
pub fn detect(signals: &EnvSignals) -> (mode: LaunchMode)
    ensures
        mode == spec_detect(*signals),
        mode == LaunchMode::Production <==> (!signals.tauri_dev && !signals.debug
            && signals.exe_has_platform_extension == Some(true)),
{
    if is_development_mode(signals) {
        LaunchMode::Development
    } else {
        LaunchMode::Production
    }
}

} // verus!

//! Path resolution: the project root in development, the companion
//! executable in production.
//!
//! The filesystem is not read here. A walk upward from a directory is
//! described by what a prober saw at each level: whether the manifest lies
//! there, and whether the directory has a parent. A caller that probes one
//! level at a time is led by [`search_begin`], [`search_probed`] and
//! [`search_fallback`]; [`search_upward`] and [`find_project_root`] decide
//! over a recorded chain of levels, and [`lemma_step_follows_walk`] ties
//! the two together.

use vstd::prelude::*;
use vstd::string::StringExecFns;

verus! {

/// Levels probed upward from the working directory: the directory itself
/// and the ten above it.
pub const WORKING_DIR_LEVELS: usize = 11;

/// Levels probed upward from the executable's directory: the directory
/// itself and the four above it.
pub const EXE_DIR_LEVELS: usize = 5;

/// The name of the project manifest, the file that marks the project
/// root.
pub fn manifest_name() -> (name: &'static str)
    ensures
        name@ == "package.json"@,
{
    "package.json"
}

/// Where an upward walk starts.
#[derive(Clone, Copy, Debug, PartialEq, Eq, Structural)]
pub enum Origin {
    /// The current working directory.
    WorkingDir,
    /// The directory that holds the running executable.
    ExeDir,
}

/// The project root, as an ancestor of one of the two origins.
#[derive(Clone, Copy, Debug, PartialEq, Eq, Structural)]
pub struct RootLocation {
    pub origin: Origin,
    /// Levels above the origin: 0 is the origin itself.
    pub depth: usize,
}

/// Why no launch target could be computed.
#[derive(Clone, Debug, PartialEq, Eq)]
pub enum ResolveError {
    /// The working directory could not be read; holds the system's words.
    CurrentDirUnreadable(String),
    /// The executable's path could not be read; holds the system's words.
    ExePathUnreadable(String),
    /// Neither walk met the manifest.
    ManifestNotFound,
}

/// What to do after one level of a walk has been probed.
#[derive(Clone, Copy, Debug, PartialEq, Eq, Structural)]
pub enum WalkStep {
    /// The manifest lies at this level: it is the root.
    Found,
    /// Probe the parent next.
    Ascend,
    /// The walk ends without a root.
    GiveUp,
}

/// The decision at level `depth` of a walk bounded to `limit` levels.
pub open spec fn spec_walk_step(depth: nat, limit: nat, manifest: bool, has_parent: bool) -> WalkStep {
    if depth >= limit {
        WalkStep::GiveUp
    } else if manifest {
        WalkStep::Found
    } else if has_parent && depth + 1 < limit {
        WalkStep::Ascend
    } else {
        WalkStep::GiveUp
    }
}

/// The first level at or above `from`, below `limit` and within the chain,
/// at which the manifest lies. `chain[i]` says whether the manifest lies
/// `i` levels above the origin; the chain ends at the filesystem's root.
pub open spec fn spec_search_from(chain: Seq<bool>, limit: nat, from: nat) -> Option<nat>
    decreases chain.len() - from,
{
    if from >= limit || from >= chain.len() {
        None
    } else if chain[from as int] {
        Some(from)
    } else {
        spec_search_from(chain, limit, from + 1)
    }
}

/// The level that a walk bounded to `limit` levels settles on.
pub open spec fn spec_search(chain: Seq<bool>, limit: nat) -> Option<nat> {
    spec_search_from(chain, limit, 0)
}

/// No level from `from` up to `to` holds the manifest.
pub open spec fn none_between(chain: Seq<bool>, from: nat, to: nat) -> bool {
    forall|i: int| from <= i < to && i < chain.len() ==> !#[trigger] chain[i]
}

/// What both walks together settle on, given the two chains as the prober
/// read them or the system's words where an origin could not be read. The
/// executable's side is consulted only where the first walk found nothing.
pub open spec fn spec_find_project_root(
    cwd: Result<Vec<bool>, String>,
    exe: Result<Vec<bool>, String>,
) -> Result<RootLocation, ResolveError> {
    match cwd {
        Err(e) => Err(ResolveError::CurrentDirUnreadable(e)),
        Ok(c) => match spec_search(c@, WORKING_DIR_LEVELS as nat) {
            Some(d) => Ok(RootLocation { origin: Origin::WorkingDir, depth: d as usize }),
            None => match exe {
                Err(e) => Err(ResolveError::ExePathUnreadable(e)),
                Ok(x) => match spec_search(x@, EXE_DIR_LEVELS as nat) {
                    Some(d) => Ok(RootLocation { origin: Origin::ExeDir, depth: d as usize }),
                    None => Err(ResolveError::ManifestNotFound),
                },
            },
        },
    }
}

/// Decides one level of a walk: stop at the manifest, climb while there is
/// a parent and the bound allows another level, give up otherwise.
pub fn walk_step(depth: usize, limit: usize, manifest: bool, has_parent: bool) -> (step: WalkStep)
    ensures
        step == spec_walk_step(depth as nat, limit as nat, manifest, has_parent),
{
    if depth >= limit {
        WalkStep::GiveUp
    } else if manifest {
        WalkStep::Found
    } else if has_parent && depth + 1 < limit {
        WalkStep::Ascend
    } else {
        WalkStep::GiveUp
    }
}

/// Walks a recorded chain upward, one [`walk_step`] per level. `chain[i]`
/// says whether the manifest lies `i` levels above the origin, and the
/// chain's last level has no parent.
pub fn search_upward(chain: &Vec<bool>, limit: usize) -> (found: Option<usize>)
    ensures
        found matches Some(d) ==> spec_search(chain@, limit as nat) == Some(d as nat),
        found is None ==> spec_search(chain@, limit as nat) is None,
{
    let mut depth: usize = 0;
    while depth < chain.len()
        invariant
            depth <= chain.len(),
            spec_search(chain@, limit as nat) == spec_search_from(chain@, limit as nat, depth as nat),
        decreases chain.len() - depth,
    {
        let has_parent = depth + 1 < chain.len();
        match walk_step(depth, limit, chain[depth], has_parent) {
            WalkStep::Found => {
                return Some(depth);
            },
            WalkStep::Ascend => {
                depth = depth + 1;
            },
            WalkStep::GiveUp => {
                assert(spec_search_from(chain@, limit as nat, depth as nat + 1) is None);
                return None;
            },
        }
    }
    None
}

/// Finds the project root: first upward from the working directory, then,
/// where that walk meets no manifest, upward from the executable's
/// directory.
pub fn find_project_root(cwd: Result<Vec<bool>, String>, exe: Result<Vec<bool>, String>) -> (found:
    Result<RootLocation, ResolveError>)
    ensures
        found == spec_find_project_root(cwd, exe),
{
    match cwd {
        Err(e) => Err(ResolveError::CurrentDirUnreadable(e)),
        Ok(c) => match search_upward(&c, WORKING_DIR_LEVELS) {
            Some(d) => Ok(RootLocation { origin: Origin::WorkingDir, depth: d }),
            None => match exe {
                Err(e) => Err(ResolveError::ExePathUnreadable(e)),
                Ok(x) => match search_upward(&x, EXE_DIR_LEVELS) {
                    Some(d) => Ok(RootLocation { origin: Origin::ExeDir, depth: d }),
                    None => Err(ResolveError::ManifestNotFound),
                },
            },
        },
    }
}

/// What a search for the project root does next, where the levels are
/// probed one at a time.
#[derive(Debug, PartialEq, Eq)]
pub enum SearchStep {
    /// Probe this level: does it hold the manifest, and has it a parent?
    /// Answer with [`search_probed`].
    Probe(RootLocation),
    /// The walk from the working directory met no manifest: read the
    /// executable's directory and answer with [`search_fallback`].
    ReadExeDir,
    /// The search is settled.
    Done(Result<RootLocation, ResolveError>),
}

/// The levels that the walk from an origin may probe.
pub open spec fn spec_walk_levels(origin: Origin) -> nat {
    match origin {
        Origin::WorkingDir => WORKING_DIR_LEVELS as nat,
        Origin::ExeDir => EXE_DIR_LEVELS as nat,
    }
}

/// The first step: the working directory itself is probed, unless it could
/// not be read.
pub open spec fn spec_search_begin(cwd: Result<(), String>) -> SearchStep {
    match cwd {
        Ok(_) => SearchStep::Probe(RootLocation { origin: Origin::WorkingDir, depth: 0 }),
        Err(e) => SearchStep::Done(Err(ResolveError::CurrentDirUnreadable(e))),
    }
}

/// The step after the level `at` was probed: settled where the manifest
/// lies there, the parent where the walk may climb, and at the end of a
/// walk the fallback after the first and failure after the second.
pub open spec fn spec_search_probed(at: RootLocation, manifest: bool, has_parent: bool) -> SearchStep {
    match spec_walk_step(at.depth as nat, spec_walk_levels(at.origin), manifest, has_parent) {
        WalkStep::Found => SearchStep::Done(Ok(at)),
        WalkStep::Ascend => SearchStep::Probe(
            RootLocation { origin: at.origin, depth: (at.depth + 1) as usize },
        ),
        WalkStep::GiveUp => match at.origin {
            Origin::WorkingDir => SearchStep::ReadExeDir,
            Origin::ExeDir => SearchStep::Done(Err(ResolveError::ManifestNotFound)),
        },
    }
}

/// The step after the executable's directory was read: it is probed,
/// unless it could not be read.
pub open spec fn spec_search_fallback(exe: Result<(), String>) -> SearchStep {
    match exe {
        Ok(_) => SearchStep::Probe(RootLocation { origin: Origin::ExeDir, depth: 0 }),
        Err(e) => SearchStep::Done(Err(ResolveError::ExePathUnreadable(e))),
    }
}

/// Begins a search, given whether the working directory could be read or
/// the system's words where it could not.
pub fn search_begin(cwd: Result<(), String>) -> (step: SearchStep)
    ensures
        step == spec_search_begin(cwd),
{
    match cwd {
        Ok(_) => SearchStep::Probe(RootLocation { origin: Origin::WorkingDir, depth: 0 }),
        Err(e) => SearchStep::Done(Err(ResolveError::CurrentDirUnreadable(e))),
    }
}

/// Goes on with a search after the level `at` was probed.
pub fn search_probed(at: RootLocation, manifest: bool, has_parent: bool) -> (step: SearchStep)
    ensures
        step == spec_search_probed(at, manifest, has_parent),
{
    let levels = match at.origin {
        Origin::WorkingDir => WORKING_DIR_LEVELS,
        Origin::ExeDir => EXE_DIR_LEVELS,
    };
    match walk_step(at.depth, levels, manifest, has_parent) {
        WalkStep::Found => SearchStep::Done(Ok(at)),
        WalkStep::Ascend => SearchStep::Probe(
            RootLocation { origin: at.origin, depth: at.depth + 1 },
        ),
        WalkStep::GiveUp => match at.origin {
            Origin::WorkingDir => SearchStep::ReadExeDir,
            Origin::ExeDir => SearchStep::Done(Err(ResolveError::ManifestNotFound)),
        },
    }
}

/// Goes on with a search after the executable's directory was read, given
/// whether it could be read or the system's words where it could not.
pub fn search_fallback(exe: Result<(), String>) -> (step: SearchStep)
    ensures
        step == spec_search_fallback(exe),
{
    match exe {
        Ok(_) => SearchStep::Probe(RootLocation { origin: Origin::ExeDir, depth: 0 }),
        Err(e) => SearchStep::Done(Err(ResolveError::ExePathUnreadable(e))),
    }
}

/// Probing one level at a time settles on what the walk over the whole
/// chain settles on. For a level `depth` of `chain`, probed as the chain
/// records it: where the step settles on a root, that level is what the
/// walk from `depth` finds; where it asks for the parent, the walk from
/// the parent finds the same as the walk from `depth`; and where it ends
/// the walk, the walk from `depth` finds nothing.
pub proof fn lemma_step_follows_walk(chain: Seq<bool>, origin: Origin, depth: usize)
    requires
        depth < chain.len(),
    ensures
        match spec_search_probed(
            RootLocation { origin, depth },
            chain[depth as int],
            depth + 1 < chain.len(),
        ) {
            SearchStep::Done(Ok(found)) => found == (RootLocation { origin, depth })
                && spec_search_from(chain, spec_walk_levels(origin), depth as nat) == Some(
                depth as nat,
            ),
            SearchStep::Probe(next) => next == (RootLocation { origin, depth: (depth + 1) as usize })
                && spec_search_from(chain, spec_walk_levels(origin), depth as nat)
                == spec_search_from(chain, spec_walk_levels(origin), depth as nat + 1),
            SearchStep::ReadExeDir => origin == Origin::WorkingDir && spec_search_from(
                chain,
                spec_walk_levels(origin),
                depth as nat,
            ) is None,
            SearchStep::Done(Err(e)) => origin == Origin::ExeDir && e
                == ResolveError::ManifestNotFound && spec_search_from(
                chain,
                spec_walk_levels(origin),
                depth as nat,
            ) is None,
        },
{
    let levels = spec_walk_levels(origin);
    if depth < levels && !chain[depth as int] {
        assert(spec_search_from(chain, levels, depth as nat) == spec_search_from(
            chain,
            levels,
            depth as nat + 1,
        ));
        if !(depth + 1 < chain.len() && depth + 1 < levels) {
            assert(spec_search_from(chain, levels, depth as nat + 1) is None);
        }
    }
}

/// The search settles on the lowest level that holds the manifest, among
/// those below the bound and within the chain, and on none where there is
/// no such level.
pub proof fn lemma_search_is_first_manifest(chain: Seq<bool>, limit: nat)
    ensures
        match spec_search(chain, limit) {
            Some(d) => d < limit && d < chain.len() && chain[d as int] && none_between(chain, 0, d),
            None => none_between(chain, 0, limit),
        },
{
    lemma_search_from_is_first(chain, limit, 0);
}

proof fn lemma_search_from_is_first(chain: Seq<bool>, limit: nat, from: nat)
    ensures
        match spec_search_from(chain, limit, from) {
            Some(d) => from <= d < limit && d < chain.len() && chain[d as int] && none_between(
                chain,
                from,
                d,
            ),
            None => none_between(chain, from, limit),
        },
    decreases chain.len() - from,
{
    if from < limit && from < chain.len() && !chain[from as int] {
        lemma_search_from_is_first(chain, limit, from + 1);
    }
}

/// A manifest `depth` levels above the working directory, with none below
/// it, is settled on for every `depth` from none to ten, whatever the
/// executable's side holds.
pub proof fn lemma_manifest_above_working_dir_is_found(
    cwd: Vec<bool>,
    exe: Result<Vec<bool>, String>,
    depth: nat,
)
    requires
        depth <= 10,
        depth < cwd@.len(),
        cwd@[depth as int],
        none_between(cwd@, 0, depth),
    ensures
        spec_find_project_root(Ok(cwd), exe) == Ok::<RootLocation, ResolveError>(
            RootLocation { origin: Origin::WorkingDir, depth: depth as usize },
        ),
{
    lemma_search_is_first_manifest(cwd@, WORKING_DIR_LEVELS as nat);
    match spec_search(cwd@, WORKING_DIR_LEVELS as nat) {
        Some(d) => {
            if d < depth {
                assert(!cwd@[d as int]);
            } else if depth < d {
                assert(!cwd@[depth as int]);
            }
        },
        None => {
            assert(!cwd@[depth as int]);
        },
    }
}

/// The manifest lies at some level of the chain from the origin up to
/// `deepest` levels above it.
pub open spec fn manifest_in_reach(chain: Seq<bool>, deepest: nat) -> bool {
    exists|d: int| 0 <= d <= deepest && d < chain.len() && #[trigger] chain[d]
}

/// With both origins readable, a root is found exactly where a manifest
/// lies up to ten levels above the working directory or up to four levels
/// above the executable's directory; otherwise the search ends in
/// [`ResolveError::ManifestNotFound`].
pub proof fn lemma_root_found_iff_manifest_in_reach(cwd: Vec<bool>, exe: Vec<bool>)
    ensures
        spec_find_project_root(Ok(cwd), Ok(exe)) is Ok <==> manifest_in_reach(cwd@, 10)
            || manifest_in_reach(exe@, 4),
        spec_find_project_root(Ok(cwd), Ok(exe)) is Err ==> spec_find_project_root(Ok(cwd), Ok(exe))
            == Err::<RootLocation, ResolveError>(ResolveError::ManifestNotFound),
{
    lemma_search_is_first_manifest(cwd@, WORKING_DIR_LEVELS as nat);
    lemma_search_is_first_manifest(exe@, EXE_DIR_LEVELS as nat);
    if let Some(d) = spec_search(cwd@, WORKING_DIR_LEVELS as nat) {
        assert(cwd@[d as int]);
    }
    if let Some(d) = spec_search(exe@, EXE_DIR_LEVELS as nat) {
        assert(exe@[d as int]);
    }
}

/// The file name of the companion executable: `server`, with the
/// extension `exe` on a platform that requires one.
pub open spec fn spec_companion_name(needs_extension: bool) -> Seq<char> {
    if needs_extension {
        "server.exe"@
    } else {
        "server"@
    }
}

/// The companion executable: a directory and the file name within it.
#[derive(Clone, Debug, PartialEq, Eq)]
pub struct ExecutablePath {
    pub dir: String,
    pub file_name: String,
}

/// Names the companion executable beside the running one. `exe_dir` is the
/// directory of the running executable, or the system's words where its
/// path could not be read. Whether the file exists is not looked at: that
/// shows when it is spawned.
pub fn resolve_executable(exe_dir: Result<String, String>, needs_extension: bool) -> (resolved:
    Result<ExecutablePath, ResolveError>)
    ensures
        match exe_dir {
            Ok(dir) => resolved matches Ok(path) && path.dir == dir && path.file_name@
                == spec_companion_name(needs_extension),
            Err(e) => resolved == Err::<ExecutablePath, ResolveError>(
                ResolveError::ExePathUnreadable(e),
            ),
        },
{
    match exe_dir {
        Ok(dir) => {
            let file_name = if needs_extension {
                String::from_str("server.exe")
            } else {
                String::from_str("server")
            };
            Ok(ExecutablePath { dir, file_name })
        },
        Err(e) => Err(ResolveError::ExePathUnreadable(e)),
    }
}

impl ResolveError {
    /// The text of [`ResolveError::message`].
    pub open spec fn spec_message(self) -> Seq<char> {
        match self {
            ResolveError::CurrentDirUnreadable(e) => "Failed to get current dir: "@ + e@,
            ResolveError::ExePathUnreadable(e) => "Failed to get exe path: "@ + e@,
            ResolveError::ManifestNotFound => "Could not find project root (package.json)"@,
        }
    }

    /// The failure in words, for the user.
    pub fn message(&self) -> (text: String)
        ensures
            text@ == self.spec_message(),
    {
        match self {
            ResolveError::CurrentDirUnreadable(e) => String::from_str(
                "Failed to get current dir: ",
            ).concat(e.as_str()),
            ResolveError::ExePathUnreadable(e) => String::from_str("Failed to get exe path: ").concat(
                e.as_str(),
            ),
            ResolveError::ManifestNotFound => String::from_str(
                "Could not find project root (package.json)",
            ),
        }
    }
}

} // verus!

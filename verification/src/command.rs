//! The command that a launch target amounts to, built and ready to be
//! spawned. Spawning itself is left to the caller.

use vstd::prelude::*;
use tokio::process::Command;
use crate::server::ResolvedTarget;

verus! {

/// `tokio::process::Command`, a builder for a child process. Nothing of
/// its inside is known here but what the three functions below name.
#[verifier::external_type_specification]
#[verifier::external_body]
pub struct ExCommand(tokio::process::Command);

/// The program that a command runs, as `as_std().get_program()` shows it.
pub uninterp spec fn command_program(command: Command) -> Seq<char>;

/// The arguments of a command in order, as `as_std().get_args()` shows
/// them.
pub uninterp spec fn command_args(command: Command) -> Seq<Seq<char>>;

/// The working directory set for the child, as
/// `as_std().get_current_dir()` shows it; `None` where the child is to
/// inherit the caller's.
pub uninterp spec fn command_dir(command: Command) -> Option<Seq<char>>;

/// No character of `text` is NUL. A builder keeps a text as it was given
/// only where this holds.
pub open spec fn nul_free(text: Seq<char>) -> bool {
    forall|i: int| 0 <= i < text.len() ==> text[i] != '\0'
}

/// Every text of the list is free of NUL.
pub open spec fn all_nul_free(texts: Seq<Seq<char>>) -> bool {
    forall|i: int| 0 <= i < texts.len() ==> nul_free(#[trigger] texts[i])
}

/// Calls `tokio::process::Command::new`. Trusted, for a program without
/// NUL: the command runs `program`, has no arguments yet, and sets no
/// working directory.
#[verifier::external_body]
fn command_new(program: &str) -> (command: Command)
    requires
        nul_free(program@),
    ensures
        command_program(command) == program@,
        command_args(command) == Seq::<Seq<char>>::empty(),
        command_dir(command) is None,
{
    Command::new(program)
}

/// Calls `tokio::process::Command::arg`. Trusted, for an argument without
/// NUL: `arg` is added behind the arguments already there, and nothing
/// else changes.
#[verifier::external_body]
fn command_arg(command: &mut Command, arg: &str)
    requires
        nul_free(arg@),
    ensures
        command_program(*final(command)) == command_program(*old(command)),
        command_args(*final(command)) == command_args(*old(command)).push(arg@),
        command_dir(*final(command)) == command_dir(*old(command)),
{
    command.arg(arg);
}

/// Calls `tokio::process::Command::current_dir`. Trusted, for a directory
/// without NUL: the working directory becomes `dir`, and nothing else
/// changes.
#[verifier::external_body]
fn command_current_dir(command: &mut Command, dir: &str)
    requires
        nul_free(dir@),
    ensures
        command_program(*final(command)) == command_program(*old(command)),
        command_args(*final(command)) == command_args(*old(command)),
        command_dir(*final(command)) == Some(dir@),
{
    command.current_dir(dir);
}

/// The path that `std::path::Path::join` makes of `base` and `part`, by
/// the rules of the platform that the library is built for. It is made of
/// the two texts alone: the filesystem is not looked at.
pub uninterp spec fn joined_path(base: Seq<char>, part: Seq<char>) -> Seq<char>;

/// Calls `std::path::Path::join`. Trusted: the result is the path named
/// by [`joined_path`]. What that path is on given texts is not claimed.
#[verifier::external_body]
fn path_join(base: &str, part: &str) -> (joined: String)
    ensures
        joined@ == joined_path(base@, part@),
{
    std::path::Path::new(base).join(part).to_string_lossy().into_owned()
}

/// `base` with each of `parts` joined to it in turn.
pub open spec fn joined_all(base: Seq<char>, parts: Seq<Seq<char>>) -> Seq<char>
    decreases parts.len(),
{
    if parts.len() == 0 {
        base
    } else {
        joined_path(joined_all(base, parts.drop_last()), parts.last())
    }
}

/// The joined path of a target: in development the root with the subpath
/// joined to it, in production the directory with the file name joined to
/// it.
pub open spec fn target_location(target: ResolvedTarget) -> Seq<char> {
    match target {
        ResolvedTarget::Development { root, subpath, .. } => joined_all(root@, subpath.deep_view()),
        ResolvedTarget::Production { dir, file_name, .. } => joined_path(dir@, file_name@),
    }
}

/// The working directory that `dir` asks for.
pub open spec fn spec_dir(dir: Option<&str>) -> Option<Seq<char>> {
    match dir {
        Some(d) => Some(d@),
        None => None,
    }
}

/// A command can hold these texts: none of them has a NUL character.
pub open spec fn holdable(program: Seq<char>, args: Seq<Seq<char>>, dir: Option<Seq<char>>) -> bool {
    &&& nul_free(program)
    &&& all_nul_free(args)
    &&& dir matches Some(d) ==> nul_free(d)
}

/// Tells whether a text is free of NUL.
pub fn is_nul_free(text: &str) -> (free: bool)
    ensures
        free == nul_free(text@),
{
    let len = text.unicode_len();
    let mut i: usize = 0;
    while i < len
        invariant
            i <= len,
            len == text@.len(),
            forall|j: int| 0 <= j < i ==> text@[j] != '\0',
        decreases len - i,
    {
        if text.get_char(i) == '\0' {
            return false;
        }
        i = i + 1;
    }
    true
}

/// Tells whether every text of a list is free of NUL.
pub fn are_nul_free(texts: &Vec<String>) -> (free: bool)
    ensures
        free == all_nul_free(texts.deep_view()),
{
    let mut i: usize = 0;
    while i < texts.len()
        invariant
            i <= texts.len(),
            forall|j: int| 0 <= j < i ==> nul_free(#[trigger] texts.deep_view()[j]),
        decreases texts.len() - i,
    {
        if !is_nul_free(texts[i].as_str()) {
            assert(!nul_free(texts.deep_view()[i as int]));
            return false;
        }
        i = i + 1;
    }
    true
}

/// Builds the command that runs `program` with `args`, in the working
/// directory `dir` where one is given. No command is built where one of
/// the texts holds a NUL character: no process could be started from it.
pub fn command_with(program: &str, args: &Vec<String>, dir: Option<&str>) -> (built: Option<Command>)
    ensures
        built is Some <==> holdable(program@, args.deep_view(), spec_dir(dir)),
        built matches Some(command) ==> {
            &&& command_program(command) == program@
            &&& command_args(command) == args.deep_view()
            &&& command_dir(command) == spec_dir(dir)
        },
{
    if !is_nul_free(program) || !are_nul_free(args) {
        return None;
    }
    let mut command = command_new(program);
    if let Some(d) = dir {
        if !is_nul_free(d) {
            return None;
        }
        command_current_dir(&mut command, d);
    }
    let mut i: usize = 0;
    while i < args.len()
        invariant
            i <= args.len(),
            all_nul_free(args.deep_view()),
            command_program(command) == program@,
            command_dir(command) == spec_dir(dir),
            command_args(command) == args.deep_view().take(i as int),
        decreases args.len() - i,
    {
        assert(nul_free(args.deep_view()[i as int]));
        command_arg(&mut command, args[i].as_str());
        assert(args.deep_view().take(i as int).push(args[i as int]@) =~= args.deep_view().take(
            i + 1,
        ));
        i = i + 1;
    }
    assert(args.deep_view().take(args.len() as int) =~= args.deep_view());
    Some(command)
}

/// The program that a target runs, once its path is joined to `location`:
/// the package manager in development, the file at `location` in
/// production.
pub open spec fn target_program(target: ResolvedTarget, location: Seq<char>) -> Seq<char> {
    match target {
        ResolvedTarget::Development { command, .. } => command@,
        ResolvedTarget::Production { .. } => location,
    }
}

/// The arguments that a target passes.
pub open spec fn target_args(target: ResolvedTarget) -> Seq<Seq<char>> {
    match target {
        ResolvedTarget::Development { args, .. } => args.deep_view(),
        ResolvedTarget::Production { args, .. } => args.deep_view(),
    }
}

/// The working directory that a target sets, once its path is joined to
/// `location`: `location` in development, none in production.
pub open spec fn target_dir(target: ResolvedTarget, location: Seq<char>) -> Option<Seq<char>> {
    match target {
        ResolvedTarget::Development { .. } => Some(location),
        ResolvedTarget::Production { .. } => None,
    }
}

/// Builds the command for a launch target whose path has been joined to
/// `location`: in development the directory made of the root and the
/// subpath, in production the file made of the directory and the file
/// name.
pub fn command_for(target: &ResolvedTarget, location: &str) -> (built: Option<Command>)
    ensures
        built is Some <==> holdable(
            target_program(*target, location@),
            target_args(*target),
            target_dir(*target, location@),
        ),
        built matches Some(command) ==> {
            &&& command_program(command) == target_program(*target, location@)
            &&& command_args(command) == target_args(*target)
            &&& command_dir(command) == target_dir(*target, location@)
        },
{
    match target {
        ResolvedTarget::Development { command: program, args, .. } => command_with(
            program.as_str(),
            args,
            Some(location),
        ),
        ResolvedTarget::Production { args, .. } => command_with(location, args, None),
    }
}

/// Joins the target's path and builds its command: in development the
/// package manager, run in the root with the subpath joined to it; in
/// production the companion file in its directory. No command is built
/// where the program, an argument or the directory holds a NUL character.
pub fn build_command(target: &ResolvedTarget) -> (built: Option<Command>)
    ensures
        built is Some <==> holdable(
            target_program(*target, target_location(*target)),
            target_args(*target),
            target_dir(*target, target_location(*target)),
        ),
        built matches Some(command) ==> {
            &&& command_program(command) == target_program(*target, target_location(*target))
            &&& command_args(command) == target_args(*target)
            &&& command_dir(command) == target_dir(*target, target_location(*target))
        },
{
    let location = match target {
        ResolvedTarget::Development { root, subpath, .. } => {
            let mut dir = root.clone();
            let mut i: usize = 0;
            while i < subpath.len()
                invariant
                    i <= subpath.len(),
                    dir@ == joined_all(root@, subpath.deep_view().take(i as int)),
                decreases subpath.len() - i,
            {
                dir = path_join(dir.as_str(), subpath[i].as_str());
                proof {
                    let next = subpath.deep_view().take(i + 1);
                    assert(next.drop_last() =~= subpath.deep_view().take(i as int));
                    assert(next.last() == subpath[i as int]@);
                }
                i = i + 1;
            }
            assert(subpath.deep_view().take(subpath.len() as int) =~= subpath.deep_view());
            dir
        },
        ResolvedTarget::Production { dir, file_name, .. } => path_join(
            dir.as_str(),
            file_name.as_str(),
        ),
    };
    command_for(target, location.as_str())
}

} // verus!

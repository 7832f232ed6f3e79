//! The package-manager commands that add, update, remove and reinstall the
//! dependencies of a project.
//!
//! The library composes the command line; running it is the caller's part.

use vstd::prelude::*;
use vstd::string::StringExecFns;

verus! {

/// The package managers that the commands are written for.
#[derive(Clone, Copy, Debug, PartialEq, Eq, Structural)]
pub enum Runtime {
    Pnpm,
    Npm,
    Yarn,
}

/// Whether two texts are the same.
pub fn same_text(a: &str, b: &str) -> (same: bool)
    ensures
        same == (a@ == b@),
{
    a.to_owned() == b.to_owned()
}

/// The package manager that `name` names, if it names one.
pub open spec fn runtime_named(name: Seq<char>) -> Option<Runtime> {
    if name == "pnpm"@ {
        Some(Runtime::Pnpm)
    } else if name == "npm"@ {
        Some(Runtime::Npm)
    } else if name == "yarn"@ {
        Some(Runtime::Yarn)
    } else {
        None
    }
}

/// Reads the name of a package manager.
pub fn parse_runtime(name: &str) -> (runtime: Option<Runtime>)
    ensures
        runtime == runtime_named(name@),
{
    if same_text(name, "pnpm") {
        Some(Runtime::Pnpm)
    } else if same_text(name, "npm") {
        Some(Runtime::Npm)
    } else if same_text(name, "yarn") {
        Some(Runtime::Yarn)
    } else {
        None
    }
}

/// A dependency with the version asked for, written as the package
/// managers read it.
pub open spec fn versioned(dependency: Seq<char>, version: Option<Seq<char>>) -> Seq<char> {
    match version {
        Some(v) => dependency + "@"@ + v,
        None => dependency,
    }
}

/// The words with which a package manager adds a dependency.
pub open spec fn add_words(runtime: Runtime) -> Seq<char> {
    match runtime {
        Runtime::Pnpm => "pnpm add "@,
        Runtime::Npm => "npm install "@,
        Runtime::Yarn => "yarn add "@,
    }
}

/// The words with which a package manager brings a dependency up to date.
pub open spec fn update_words(runtime: Runtime) -> Seq<char> {
    match runtime {
        Runtime::Pnpm => "pnpm update "@,
        Runtime::Npm => "npm update "@,
        Runtime::Yarn => "yarn upgrade "@,
    }
}

/// The words with which a package manager removes a dependency.
pub open spec fn remove_words(runtime: Runtime) -> Seq<char> {
    match runtime {
        Runtime::Pnpm => "pnpm remove "@,
        Runtime::Npm => "npm uninstall "@,
        Runtime::Yarn => "yarn remove "@,
    }
}

/// The command with which a package manager installs everything anew.
pub open spec fn reinstall_words(runtime: Runtime) -> Seq<char> {
    match runtime {
        Runtime::Pnpm => "pnpm install --force"@,
        Runtime::Npm => "npm install --force"@,
        Runtime::Yarn => "yarn install --force"@,
    }
}

/// The result of composing a command for the package manager named
/// `runtime`: the command that `compose` makes for it, or the refusal of a
/// name that names none.
pub open spec fn for_runtime(
    runtime: Seq<char>,
    compose: spec_fn(Runtime) -> Seq<char>,
) -> Result<Seq<char>, Seq<char>> {
    match runtime_named(runtime) {
        Some(r) => Ok(compose(r)),
        None => Err("Unsupported runtime"@),
    }
}

/// The model of a composed command or its refusal.
pub open spec fn text_view(r: Result<String, String>) -> Result<Seq<char>, Seq<char>> {
    match r {
        Ok(text) => Ok(text@),
        Err(text) => Err(text@),
    }
}

/// The version as a model value.
pub open spec fn version_view(version: Option<&str>) -> Option<Seq<char>> {
    match version {
        Some(v) => Some(v@),
        None => None,
    }
}

/// Writes `dependency`, and `@` with the version where one is given, at
/// the end of `command`.
fn append_versioned(command: &mut String, dependency: &str, version: Option<&str>)
    ensures
        final(command)@ == old(command)@ + versioned(dependency@, version_view(version)),
{
    command.append(dependency);
    match version {
        Some(v) => {
            command.append("@");
            command.append(v);
        },
        None => {},
    }
}

/// The command that installs `dependency`, in the given version if there
/// is one, with the package manager named `runtime`.
pub fn install_dependency(runtime: &str, dependency: &str, version: Option<&str>) -> (command:
    Result<String, String>)
    ensures
        text_view(command) == for_runtime(
            runtime@,
            |r: Runtime| add_words(r) + versioned(dependency@, version_view(version)),
        ),
{
    let words = match parse_runtime(runtime) {
        Some(Runtime::Pnpm) => "pnpm add ",
        Some(Runtime::Npm) => "npm install ",
        Some(Runtime::Yarn) => "yarn add ",
        None => { return Err("Unsupported runtime".to_owned()); },
    };
    let mut command = words.to_owned();
    append_versioned(&mut command, dependency, version);
    Ok(command)
}

/// The command that updates `dependency` with the package manager named
/// `runtime`: to the given version by adding it anew, or, where no version
/// is given, to what the package manager finds newest.
pub fn update_dependency(runtime: &str, dependency: &str, version: Option<&str>) -> (command:
    Result<String, String>)
    ensures
        text_view(command) == for_runtime(
            runtime@,
            |r: Runtime|
                if version is Some {
                    add_words(r) + versioned(dependency@, version_view(version))
                } else {
                    update_words(r) + dependency@
                },
        ),
{
    let known = match parse_runtime(runtime) {
        Some(r) => r,
        None => { return Err("Unsupported runtime".to_owned()); },
    };
    let words = match version {
        Some(_) => match known {
            Runtime::Pnpm => "pnpm add ",
            Runtime::Npm => "npm install ",
            Runtime::Yarn => "yarn add ",
        },
        None => match known {
            Runtime::Pnpm => "pnpm update ",
            Runtime::Npm => "npm update ",
            Runtime::Yarn => "yarn upgrade ",
        },
    };
    let mut command = words.to_owned();
    append_versioned(&mut command, dependency, version);
    Ok(command)
}

/// The command that removes `dependency` with the package manager named
/// `runtime`.
pub fn delete_dependency(runtime: &str, dependency: &str) -> (command: Result<String, String>)
    ensures
        text_view(command) == for_runtime(runtime@, |r: Runtime| remove_words(r) + dependency@),
{
    let words = match parse_runtime(runtime) {
        Some(Runtime::Pnpm) => "pnpm remove ",
        Some(Runtime::Npm) => "npm uninstall ",
        Some(Runtime::Yarn) => "yarn remove ",
        None => { return Err("Unsupported runtime".to_owned()); },
    };
    let mut command = words.to_owned();
    command.append(dependency);
    Ok(command)
}

/// The command that installs all dependencies anew with the package
/// manager named `runtime`.
pub fn reinstall_dependencies(runtime: &str) -> (command: Result<String, String>)
    ensures
        text_view(command) == for_runtime(runtime@, |r: Runtime| reinstall_words(r)),
{
    match parse_runtime(runtime) {
        Some(Runtime::Pnpm) => Ok("pnpm install --force".to_owned()),
        Some(Runtime::Npm) => Ok("npm install --force".to_owned()),
        Some(Runtime::Yarn) => Ok("yarn install --force".to_owned()),
        None => Err("Unsupported runtime".to_owned()),
    }
}

} // verus!

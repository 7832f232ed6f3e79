//! How the desktop is asked to open an editor or a file browser on a
//! project, depending on the operating system.

use vstd::prelude::*;
use vstd::string::StringExecFns;
use crate::launch::CREATE_NO_WINDOW;
use crate::packages::same_text;

verus! {

/// A program to start and forget.
#[derive(Clone, Debug, PartialEq, Eq)]
pub struct SpawnPlan {
    /// The program to run.
    pub program: String,
    /// Its arguments.
    pub args: Vec<String>,
    /// The creation flags to pass on a console-capable system, if any.
    pub creation_flags: Option<u32>,
}

/// The model of a `SpawnPlan`.
pub ghost struct SpawnPlanView {
    pub program: Seq<char>,
    pub args: Seq<Seq<char>>,
    pub creation_flags: Option<u32>,
}

impl View for SpawnPlan {
    type V = SpawnPlanView;

    open spec fn view(&self) -> SpawnPlanView {
        SpawnPlanView {
            program: self.program@,
            args: self.args.deep_view(),
            creation_flags: self.creation_flags,
        }
    }
}

impl DeepView for SpawnPlan {
    type V = SpawnPlanView;

    open spec fn deep_view(&self) -> SpawnPlanView {
        self@
    }
}

/// The operating systems that the desktop integration knows.
#[derive(Clone, Copy, Debug, PartialEq, Eq, Structural)]
pub enum Desktop {
    Windows,
    MacOs,
    Linux,
}

/// The operating system that `os` names, if it is one of the known.
pub open spec fn desktop_named(os: Seq<char>) -> Option<Desktop> {
    if os == "windows"@ {
        Some(Desktop::Windows)
    } else if os == "macos"@ {
        Some(Desktop::MacOs)
    } else if os == "linux"@ {
        Some(Desktop::Linux)
    } else {
        None
    }
}

/// Reads the name of an operating system.
pub fn parse_desktop(os: &str) -> (desktop: Option<Desktop>)
    ensures
        desktop == desktop_named(os@),
{
    if same_text(os, "windows") {
        Some(Desktop::Windows)
    } else if same_text(os, "macos") {
        Some(Desktop::MacOs)
    } else if same_text(os, "linux") {
        Some(Desktop::Linux)
    } else {
        None
    }
}

/// How the editor `ide` is started on a project: on Windows through `cmd`
/// without a console window, elsewhere directly.
pub open spec fn ide_plan(desktop: Desktop, project_path: Seq<char>, ide: Seq<char>) -> SpawnPlanView {
    match desktop {
        Desktop::Windows => SpawnPlanView {
            program: "cmd"@,
            args: seq!["/C"@, ide, project_path],
            creation_flags: Some(CREATE_NO_WINDOW),
        },
        _ => SpawnPlanView { program: ide, args: seq![project_path], creation_flags: None },
    }
}

/// The model of a plan or its refusal.
pub open spec fn plan_view<T: View>(r: Result<T, String>) -> Result<T::V, Seq<char>> {
    match r {
        Ok(plan) => Ok(plan@),
        Err(text) => Err(text@),
    }
}

/// Builds a plan from a program and its arguments.
pub(crate) fn spawn_plan(program: &str, args: &[&str], creation_flags: Option<u32>) -> (plan: SpawnPlan)
    ensures
        plan@ == (SpawnPlanView {
            program: program@,
            args: args.deep_view(),
            creation_flags,
        }),
{
    let mut list: Vec<String> = Vec::new();
    let mut i: usize = 0;
    while i < args.len()
        invariant
            i <= args.len(),
            list.deep_view() == args.deep_view().subrange(0, i as int),
        decreases args.len() - i,
    {
        let ghost before = list.deep_view();
        list.push(args[i].to_owned());
        proof {
            assert(list.deep_view() =~= before.push(args[i as int]@));
        }
        i += 1;
    }
    proof {
        assert(args.deep_view().subrange(0, i as int) == args.deep_view());
    }
    SpawnPlan { program: program.to_owned(), args: list, creation_flags }
}

/// Decides how the editor `ide` is opened on `project_path` under the
/// operating system named `os`.
pub fn launch_ide(os: &str, project_path: &str, ide: &str) -> (r: Result<SpawnPlan, String>)
    ensures
        plan_view(r) == (match desktop_named(os@) {
            Some(desktop) => Ok::<SpawnPlanView, Seq<char>>(ide_plan(desktop, project_path@, ide@)),
            None => Err("Unsupported operating system"@),
        }),
{
    match parse_desktop(os) {
        Some(Desktop::Windows) => {
            let args = ["/C", ide, project_path];
            let plan = spawn_plan("cmd", args.as_slice(), Some(CREATE_NO_WINDOW));
            assert(plan@.args =~= seq!["/C"@, ide@, project_path@]);
            Ok(plan)
        },
        Some(_) => {
            let args = [project_path];
            let plan = spawn_plan(ide, args.as_slice(), None);
            assert(plan@.args =~= seq![project_path@]);
            Ok(plan)
        },
        None => Err("Unsupported operating system".to_owned()),
    }
}

/// The text for an editor that could not be started.
pub fn launch_failure(ide: &str, reason: &str) -> (text: String)
    ensures
        text@ == "Failed to launch "@ + ide@ + ": "@ + reason@,
{
    let mut text = "Failed to launch ".to_owned();
    text.append(ide);
    text.append(": ");
    text.append(reason);
    text
}

/// How a file browser is opened on a project, and what to try if that
/// program cannot be started.
#[derive(Clone, Debug, PartialEq, Eq)]
pub struct ExplorerPlan {
    /// The program to start.
    pub first: SpawnPlan,
    /// The program to start if the first cannot be started.
    pub fallback: Option<SpawnPlan>,
}

/// The model of an `ExplorerPlan`.
pub ghost struct ExplorerPlanView {
    pub first: SpawnPlanView,
    pub fallback: Option<SpawnPlanView>,
}

impl View for ExplorerPlan {
    type V = ExplorerPlanView;

    open spec fn view(&self) -> ExplorerPlanView {
        ExplorerPlanView { first: self.first@, fallback: self.fallback.deep_view() }
    }
}

/// The message with which the session bus is asked to show a path in the
/// file manager.
pub open spec fn show_items_args(project_path: Seq<char>) -> Seq<Seq<char>> {
    seq![
        "--session"@,
        "--dest=org.freedesktop.FileManager1"@,
        "--type=method_call"@,
        "/org/freedesktop/FileManager1"@,
        "org.freedesktop.FileManager1.ShowItems"@,
        "array:string:file://"@ + project_path,
        "string:\"\""@,
    ]
}

/// How the file browser is opened: Explorer on Windows, `open -R` on
/// macOS; on Linux `xdg-open`, and the file manager over the session bus
/// if that cannot be started.
pub open spec fn explorer_plan(desktop: Desktop, project_path: Seq<char>) -> ExplorerPlanView {
    match desktop {
        Desktop::Windows => ExplorerPlanView {
            first: SpawnPlanView {
                program: "explorer"@,
                args: seq![project_path],
                creation_flags: Some(CREATE_NO_WINDOW),
            },
            fallback: None,
        },
        Desktop::MacOs => ExplorerPlanView {
            first: SpawnPlanView {
                program: "open"@,
                args: seq!["-R"@, project_path],
                creation_flags: None,
            },
            fallback: None,
        },
        Desktop::Linux => ExplorerPlanView {
            first: SpawnPlanView {
                program: "xdg-open"@,
                args: seq![project_path],
                creation_flags: None,
            },
            fallback: Some(
                SpawnPlanView {
                    program: "dbus-send"@,
                    args: show_items_args(project_path),
                    creation_flags: None,
                },
            ),
        },
    }
}

/// Decides how a file browser is opened on `project_path` under the
/// operating system named `os`.
pub fn open_file_explorer(os: &str, project_path: &str) -> (r: Result<ExplorerPlan, String>)
    ensures
        plan_view(r) == (match desktop_named(os@) {
            Some(desktop) => Ok::<ExplorerPlanView, Seq<char>>(explorer_plan(desktop, project_path@)),
            None => Err("Unsupported operating system"@),
        }),
{
    match parse_desktop(os) {
        Some(Desktop::Windows) => {
            let args = [project_path];
            let first = spawn_plan("explorer", args.as_slice(), Some(CREATE_NO_WINDOW));
            assert(first@.args =~= seq![project_path@]);
            Ok(ExplorerPlan { first, fallback: None })
        },
        Some(Desktop::MacOs) => {
            let args = ["-R", project_path];
            let first = spawn_plan("open", args.as_slice(), None);
            assert(first@.args =~= seq!["-R"@, project_path@]);
            Ok(ExplorerPlan { first, fallback: None })
        },
        Some(Desktop::Linux) => {
            let args = [project_path];
            let first = spawn_plan("xdg-open", args.as_slice(), None);
            assert(first@.args =~= seq![project_path@]);
            let mut uri = "array:string:file://".to_owned();
            uri.append(project_path);
            let bus_args = [
                "--session",
                "--dest=org.freedesktop.FileManager1",
                "--type=method_call",
                "/org/freedesktop/FileManager1",
                "org.freedesktop.FileManager1.ShowItems",
                uri.as_str(),
                "string:\"\"",
            ];
            let second = spawn_plan("dbus-send", bus_args.as_slice(), None);
            assert(second@.args =~= show_items_args(project_path@));
            Ok(ExplorerPlan { first, fallback: Some(second) })
        },
        None => Err("Unsupported operating system".to_owned()),
    }
}

/// The text for a file browser that could not be started.
pub fn explorer_failure(reason: &str) -> (text: String)
    ensures
        text@ == "Failed to open file explorer: "@ + reason@,
{
    let mut text = "Failed to open file explorer: ".to_owned();
    text.append(reason);
    text
}

} // verus!

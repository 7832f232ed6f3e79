//! Making sure that Node.js is there: which commands find it, which install
//! it through nvm, and what their results mean.

use vstd::prelude::*;
use vstd::string::StringExecFns;
use crate::desktop::{desktop_named, parse_desktop, spawn_plan, Desktop, SpawnPlan, SpawnPlanView};
use crate::shell::{command_line, join_words};
use crate::status::{trim_text, trimmed, CommandText};

verus! {

/// One step of setting Node.js up.
#[derive(Clone, Copy, Debug, PartialEq, Eq, Structural)]
pub enum SetupStep {
    /// Install nvm.
    InstallNvm,
    /// Install Node.js with nvm.
    InstallNode,
}

/// The steps that are left to take: none where Node.js runs already;
/// else nvm first, unless it is there, and then Node.js.
pub open spec fn steps_needed(node_installed: bool, nvm_installed: bool) -> Seq<SetupStep> {
    if node_installed {
        Seq::empty()
    } else if nvm_installed {
        seq![SetupStep::InstallNode]
    } else {
        seq![SetupStep::InstallNvm, SetupStep::InstallNode]
    }
}

/// Decides which steps make sure that Node.js is installed, given whether
/// the commands of Node.js and of nvm could be run.
pub fn ensure_node_installed(node_installed: bool, nvm_installed: bool) -> (steps: Vec<SetupStep>)
    ensures
        steps@ == steps_needed(node_installed, nvm_installed),
{
    let mut steps: Vec<SetupStep> = Vec::new();
    if !node_installed {
        if !nvm_installed {
            steps.push(SetupStep::InstallNvm);
        }
        steps.push(SetupStep::InstallNode);
    }
    steps
}

/// The installers of nvm.
#[derive(Clone, Copy, Debug, PartialEq, Eq, Structural)]
pub enum NvmInstaller {
    /// The setup program of nvm for Windows.
    Windows,
    /// The install script of nvm.
    Unix,
}

/// Decides which installer of nvm serves the operating system named `os`.
pub fn install_nvm(os: &str) -> (r: Result<NvmInstaller, String>)
    ensures
        match desktop_named(os@) {
            Some(Desktop::Windows) => r == Ok::<NvmInstaller, String>(NvmInstaller::Windows),
            Some(_) => r == Ok::<NvmInstaller, String>(NvmInstaller::Unix),
            None => r is Err && r->Err_0@ == "Unsupported operating system"@,
        },
{
    match parse_desktop(os) {
        Some(Desktop::Windows) => Ok(NvmInstaller::Windows),
        Some(_) => Ok(NvmInstaller::Unix),
        None => Err("Unsupported operating system".to_owned()),
    }
}

/// The command that downloads the setup program of nvm to `setup_path`.
pub fn nvm_download(setup_path: &str) -> (plan: SpawnPlan)
    ensures
        plan@ == (SpawnPlanView {
            program: "powershell"@,
            args: seq![
                "-Command"@,
                "Invoke-WebRequest -Uri https://raw.githubusercontent.com/coreybutler/nvm-windows/master/nvm-setup.exe -OutFile "@
                    + setup_path@,
            ],
            creation_flags: None,
        }),
{
    let mut request =
        "Invoke-WebRequest -Uri https://raw.githubusercontent.com/coreybutler/nvm-windows/master/nvm-setup.exe -OutFile ".to_owned();
    request.append(setup_path);
    let args = ["-Command", request.as_str()];
    let plan = spawn_plan("powershell", args.as_slice(), None);
    assert(plan@.args =~= seq!["-Command"@, request@]);
    plan
}

/// The command that runs the downloaded setup program of nvm without
/// questions and without a restart.
pub fn nvm_setup(setup_path: &str) -> (plan: SpawnPlan)
    ensures
        plan@ == (SpawnPlanView {
            program: setup_path@,
            args: seq!["/SILENT"@, "/NORESTART"@],
            creation_flags: None,
        }),
{
    let args = ["/SILENT", "/NORESTART"];
    let plan = spawn_plan(setup_path, args.as_slice(), None);
    assert(plan@.args =~= seq!["/SILENT"@, "/NORESTART"@]);
    plan
}

/// A script handed to bash.
fn bash_plan(script: &str) -> (plan: SpawnPlan)
    ensures
        plan@ == (SpawnPlanView {
            program: "bash"@,
            args: seq!["-c"@, script@],
            creation_flags: None,
        }),
{
    let args = ["-c", script];
    let plan = spawn_plan("bash", args.as_slice(), None);
    assert(plan@.args =~= seq!["-c"@, script@]);
    plan
}

/// The command that fetches the install script of nvm and runs it.
pub fn nvm_install_script() -> (plan: SpawnPlan)
    ensures
        plan@ == (SpawnPlanView {
            program: "bash"@,
            args: seq![
                "-c"@,
                "curl -o- https://raw.githubusercontent.com/nvm-sh/nvm/v0.39.1/install.sh | bash"@,
            ],
            creation_flags: None,
        }),
{
    bash_plan("curl -o- https://raw.githubusercontent.com/nvm-sh/nvm/v0.39.1/install.sh | bash")
}

/// The command that reads nvm into a shell, given `NVM_DIR` in its
/// environment.
pub fn nvm_source() -> (plan: SpawnPlan)
    ensures
        plan@ == (SpawnPlanView {
            program: "bash"@,
            args: seq!["-c"@, "[ -s \"$NVM_DIR/nvm.sh\" ] && \\. \"$NVM_DIR/nvm.sh\""@],
            creation_flags: None,
        }),
{
    bash_plan("[ -s \"$NVM_DIR/nvm.sh\" ] && \\. \"$NVM_DIR/nvm.sh\"")
}

/// The command that installs Node.js with nvm.
pub fn install_node_with_nvm(windows: bool) -> (plan: SpawnPlan)
    ensures
        plan@ == (if windows {
            SpawnPlanView {
                program: "cmd"@,
                args: seq!["/C"@, "nvm"@, "install"@, "node"@],
                creation_flags: None,
            }
        } else {
            SpawnPlanView {
                program: "bash"@,
                args: seq!["-c"@, "source $HOME/.nvm/nvm.sh && nvm install node"@],
                creation_flags: None,
            }
        }),
{
    if windows {
        let args = ["/C", "nvm", "install", "node"];
        let plan = spawn_plan("cmd", args.as_slice(), None);
        assert(plan@.args =~= seq!["/C"@, "nvm"@, "install"@, "node"@]);
        plan
    } else {
        bash_plan("source $HOME/.nvm/nvm.sh && nvm install node")
    }
}

/// The command that asks Node.js for its version.
pub fn check_node_installed(windows: bool) -> (plan: SpawnPlan)
    ensures
        plan@ == (SpawnPlanView {
            program: if windows {
                "cmd"@
            } else {
                "sh"@
            },
            args: seq![
                if windows {
                    "/C"@
                } else {
                    "-c"@
                },
                "node -v"@,
            ],
            creation_flags: None,
        }),
{
    let args = [
        if windows {
            "/C"
        } else {
            "-c"
        },
        "node -v",
    ];
    let plan = spawn_plan(
        if windows {
            "cmd"
        } else {
            "sh"
        },
        args.as_slice(),
        None,
    );
    assert(plan@.args =~= seq![
        if windows {
            "/C"@
        } else {
            "-c"@
        },
        "node -v"@,
    ]);
    plan
}

/// What the result of a command says of a step that returns nothing: done
/// where the command ran and succeeded; else the error, which is
/// `not_run` with the reason where the command could not be run, and
/// `failed` with what the command wrote to its standard error where it
/// ran and failed.
pub open spec fn step_result(
    result: Result<CommandText, String>,
    not_run: Seq<char>,
    failed: Seq<char>,
) -> Result<(), Seq<char>> {
    match result {
        Err(reason) => Err(not_run + reason@),
        Ok(output) => if output.success {
            Ok(())
        } else {
            Err(failed + output.stderr@)
        },
    }
}

/// The model of the result of a step.
pub open spec fn step_view(r: Result<(), String>) -> Result<(), Seq<char>> {
    match r {
        Ok(()) => Ok(()),
        Err(text) => Err(text@),
    }
}

/// Reads the result of the command of a step. `not_run` and `failed`
/// begin the error for a command that could not be run and for one that
/// failed.
pub fn step_outcome(result: &Result<CommandText, String>, not_run: &str, failed: &str) -> (r:
    Result<(), String>)
    ensures
        step_view(r) == step_result(*result, not_run@, failed@),
{
    match result {
        Err(reason) => {
            let mut text = not_run.to_owned();
            text.append(reason.as_str());
            Err(text)
        },
        Ok(output) => {
            if output.success {
                Ok(())
            } else {
                let mut text = failed.to_owned();
                text.append(output.stderr.as_str());
                Err(text)
            }
        },
    }
}

/// Whether Node.js is installed, by the result of asking for its version:
/// it is where the command succeeded, and nothing is known where the
/// command could not be run.
pub fn node_check_outcome(result: &Result<CommandText, String>) -> (r: Result<bool, String>)
    ensures
        match *result {
            Ok(output) => r == Ok::<bool, String>(output.success),
            Err(reason) => r is Err && r->Err_0@ == "Failed to execute command: "@ + reason@,
        },
{
    match result {
        Ok(output) => Ok(output.success),
        Err(reason) => {
            let mut text = "Failed to execute command: ".to_owned();
            text.append(reason.as_str());
            Err(text)
        },
    }
}

/// The lines that make nvm known to a shell before it is called.
pub open spec fn nvm_init(windows: bool) -> Seq<char> {
    if windows {
        "\n        @echo off\n        call %APPDATA%\\nvm\\nvm.exe\n        "@
    } else {
        "\n        export NVM_DIR=\"$HOME/.nvm\"\n        [ -s \"$NVM_DIR/nvm.sh\" ] && \\. \"$NVM_DIR/nvm.sh\"\n        "@
    }
}

/// How nvm is called with `args`: on Windows through `cmd`, which runs
/// the lines of `nvm_init` and then nvm with each argument as a word;
/// elsewhere through bash, which gets one script, the lines of `nvm_init`
/// and below them nvm with the arguments in one line.
pub open spec fn nvm_plan(args: Seq<Seq<char>>, windows: bool) -> SpawnPlanView {
    if windows {
        SpawnPlanView {
            program: "cmd"@,
            args: seq!["/C"@, nvm_init(true), "&&"@, "nvm"@] + args,
            creation_flags: None,
        }
    } else {
        SpawnPlanView {
            program: "bash"@,
            args: seq!["-c"@, nvm_init(false) + "\nnvm "@ + command_line(args)],
            creation_flags: None,
        }
    }
}

/// Decides how nvm is called with `args`.
pub fn run_nvm_command(args: &[&str], windows: bool) -> (plan: SpawnPlan)
    ensures
        plan@ == nvm_plan(args.deep_view(), windows),
{
    if windows {
        let mut list: Vec<String> = Vec::new();
        list.push("/C".to_owned());
        list.push(
            "\n        @echo off\n        call %APPDATA%\\nvm\\nvm.exe\n        ".to_owned(),
        );
        list.push("&&".to_owned());
        list.push("nvm".to_owned());
        let mut i: usize = 0;
        while i < args.len()
            invariant
                i <= args.len(),
                list.deep_view() == seq!["/C"@, nvm_init(true), "&&"@, "nvm"@]
                    + args.deep_view().subrange(0, i as int),
            decreases args.len() - i,
        {
            let ghost before = list.deep_view();
            list.push(args[i].to_owned());
            proof {
                assert(list.deep_view() =~= before.push(args[i as int]@));
            }
            i += 1;
        }
        proof {
            assert(args.deep_view().subrange(0, i as int) == args.deep_view());
        }
        SpawnPlan { program: "cmd".to_owned(), args: list, creation_flags: None }
    } else {
        let mut script =
            "\n        export NVM_DIR=\"$HOME/.nvm\"\n        [ -s \"$NVM_DIR/nvm.sh\" ] && \\. \"$NVM_DIR/nvm.sh\"\n        ".to_owned();
        script.append("\nnvm ");
        let line = join_words(args);
        script.append(line.as_str());
        bash_plan(script.as_str())
    }
}

/// What a call of nvm gave: what it wrote to its standard output where it
/// succeeded, what it wrote to its standard error where it failed, each
/// without the white space at its ends, or the reason why it was not run.
pub open spec fn nvm_result(result: Result<CommandText, String>) -> Result<Seq<char>, Seq<char>> {
    match result {
        Err(reason) => Err("Failed to execute command: "@ + reason@),
        Ok(output) => if output.success {
            Ok(trimmed(output.stdout@))
        } else {
            Err(trimmed(output.stderr@))
        },
    }
}

/// Reads the result of a call of nvm.
pub fn nvm_outcome(result: &Result<CommandText, String>) -> (r: Result<String, String>)
    ensures
        crate::packages::text_view(r) == nvm_result(*result),
{
    match result {
        Err(reason) => {
            let mut text = "Failed to execute command: ".to_owned();
            text.append(reason.as_str());
            Err(text)
        },
        Ok(output) => {
            if output.success {
                Ok(trim_text(output.stdout.as_str()).to_owned())
            } else {
                Err(trim_text(output.stderr.as_str()).to_owned())
            }
        },
    }
}

/// Whether nvm is installed, by what asking it for its version gave: it is
/// exactly where that call succeeded.
pub fn check_nvm_installed(version: &Result<String, String>) -> (r: Result<bool, String>)
    ensures
        r == Ok::<bool, String>(*version is Ok),
{
    match version {
        Ok(_) => Ok(true),
        Err(_) => Ok(false),
    }
}

} // verus!

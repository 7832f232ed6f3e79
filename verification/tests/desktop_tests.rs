use project_runner::desktop::{
    explorer_failure, launch_failure, launch_ide, open_file_explorer, parse_desktop, Desktop,
    ExplorerPlan, SpawnPlan,
};
use project_runner::node::{
    check_node_installed, check_nvm_installed, ensure_node_installed, install_node_with_nvm,
    install_nvm, node_check_outcome, nvm_download, nvm_install_script, nvm_outcome, nvm_setup,
    nvm_source, run_nvm_command, step_outcome, NvmInstaller, SetupStep,
};
use project_runner::status::CommandText;

fn plan(program: &str, args: &[&str], creation_flags: Option<u32>) -> SpawnPlan {
    SpawnPlan {
        program: program.to_string(),
        args: args.iter().map(|a| a.to_string()).collect(),
        creation_flags,
    }
}

fn ran(success: bool, stdout: &str, stderr: &str) -> Result<CommandText, String> {
    Ok(CommandText {
        success,
        exit_code: Some(if success { 0 } else { 1 }),
        stdout: stdout.to_string(),
        stderr: stderr.to_string(),
    })
}

#[test]
fn desktops_by_name() {
    assert_eq!(parse_desktop("windows"), Some(Desktop::Windows));
    assert_eq!(parse_desktop("macos"), Some(Desktop::MacOs));
    assert_eq!(parse_desktop("linux"), Some(Desktop::Linux));
    assert_eq!(parse_desktop("freebsd"), None);
}

#[test]
fn ide_on_windows_goes_through_cmd() {
    assert_eq!(
        launch_ide("windows", "C:\\sites\\a", "code"),
        Ok(plan("cmd", &["/C", "code", "C:\\sites\\a"], Some(0x0800_0000)))
    );
}

#[test]
fn ide_elsewhere_is_started_directly() {
    assert_eq!(launch_ide("linux", "/srv/a", "code"), Ok(plan("code", &["/srv/a"], None)));
    assert_eq!(launch_ide("macos", "/srv/a", "zed"), Ok(plan("zed", &["/srv/a"], None)));
}

#[test]
fn ide_on_unknown_system_is_refused() {
    assert_eq!(
        launch_ide("android", "/srv/a", "code"),
        Err("Unsupported operating system".to_string())
    );
}

#[test]
fn failure_texts() {
    assert_eq!(launch_failure("code", "not found"), "Failed to launch code: not found");
    assert_eq!(explorer_failure("not found"), "Failed to open file explorer: not found");
}

#[test]
fn explorer_on_windows_and_macos() {
    assert_eq!(
        open_file_explorer("windows", "C:\\a"),
        Ok(ExplorerPlan { first: plan("explorer", &["C:\\a"], Some(0x0800_0000)), fallback: None })
    );
    assert_eq!(
        open_file_explorer("macos", "/a"),
        Ok(ExplorerPlan { first: plan("open", &["-R", "/a"], None), fallback: None })
    );
}

#[test]
fn explorer_on_linux_falls_back_to_the_session_bus() {
    assert_eq!(
        open_file_explorer("linux", "/home/me/site"),
        Ok(ExplorerPlan {
            first: plan("xdg-open", &["/home/me/site"], None),
            fallback: Some(plan(
                "dbus-send",
                &[
                    "--session",
                    "--dest=org.freedesktop.FileManager1",
                    "--type=method_call",
                    "/org/freedesktop/FileManager1",
                    "org.freedesktop.FileManager1.ShowItems",
                    "array:string:file:///home/me/site",
                    "string:\"\"",
                ],
                None
            )),
        })
    );
}

#[test]
fn explorer_on_unknown_system_is_refused() {
    assert_eq!(
        open_file_explorer("", "/a"),
        Err("Unsupported operating system".to_string())
    );
}

#[test]
fn setup_steps() {
    assert_eq!(ensure_node_installed(true, true), Vec::new());
    assert_eq!(ensure_node_installed(true, false), Vec::new());
    assert_eq!(ensure_node_installed(false, true), vec![SetupStep::InstallNode]);
    assert_eq!(
        ensure_node_installed(false, false),
        vec![SetupStep::InstallNvm, SetupStep::InstallNode]
    );
}

#[test]
fn nvm_installer_by_system() {
    assert_eq!(install_nvm("windows"), Ok(NvmInstaller::Windows));
    assert_eq!(install_nvm("macos"), Ok(NvmInstaller::Unix));
    assert_eq!(install_nvm("linux"), Ok(NvmInstaller::Unix));
    assert_eq!(install_nvm("solaris"), Err("Unsupported operating system".to_string()));
}

#[test]
fn nvm_installer_commands() {
    assert_eq!(
        nvm_download("C:\\Users\\me\\nvm-setup.exe"),
        plan(
            "powershell",
            &[
                "-Command",
                "Invoke-WebRequest -Uri https://raw.githubusercontent.com/coreybutler/nvm-windows/master/nvm-setup.exe -OutFile C:\\Users\\me\\nvm-setup.exe",
            ],
            None
        )
    );
    assert_eq!(
        nvm_setup("C:\\Users\\me\\nvm-setup.exe"),
        plan("C:\\Users\\me\\nvm-setup.exe", &["/SILENT", "/NORESTART"], None)
    );
    assert_eq!(
        nvm_install_script(),
        plan(
            "bash",
            &["-c", "curl -o- https://raw.githubusercontent.com/nvm-sh/nvm/v0.39.1/install.sh | bash"],
            None
        )
    );
    assert_eq!(
        nvm_source(),
        plan("bash", &["-c", "[ -s \"$NVM_DIR/nvm.sh\" ] && \\. \"$NVM_DIR/nvm.sh\""], None)
    );
}

#[test]
fn node_commands() {
    assert_eq!(install_node_with_nvm(true), plan("cmd", &["/C", "nvm", "install", "node"], None));
    assert_eq!(
        install_node_with_nvm(false),
        plan("bash", &["-c", "source $HOME/.nvm/nvm.sh && nvm install node"], None)
    );
    assert_eq!(check_node_installed(true), plan("cmd", &["/C", "node -v"], None));
    assert_eq!(check_node_installed(false), plan("sh", &["-c", "node -v"], None));
}

#[test]
fn nvm_commands() {
    assert_eq!(
        run_nvm_command(&["install", "20"], false),
        plan(
            "bash",
            &[
                "-c",
                "\n        export NVM_DIR=\"$HOME/.nvm\"\n        [ -s \"$NVM_DIR/nvm.sh\" ] && \\. \"$NVM_DIR/nvm.sh\"\n        \nnvm install 20",
            ],
            None
        )
    );
    assert_eq!(
        run_nvm_command(&["--version"], true),
        plan(
            "cmd",
            &[
                "/C",
                "\n        @echo off\n        call %APPDATA%\\nvm\\nvm.exe\n        ",
                "&&",
                "nvm",
                "--version",
            ],
            None
        )
    );
}

#[test]
fn step_outcomes() {
    assert_eq!(step_outcome(&ran(true, "", "warn"), "not run: ", "failed: "), Ok(()));
    assert_eq!(
        step_outcome(&ran(false, "", "boom"), "not run: ", "Failed to install NVM: "),
        Err("Failed to install NVM: boom".to_string())
    );
    assert_eq!(
        step_outcome(&Err("no bash".to_string()), "Failed to source NVM: ", "failed: "),
        Err("Failed to source NVM: no bash".to_string())
    );
}

#[test]
fn node_check_outcomes() {
    assert_eq!(node_check_outcome(&ran(true, "v20.1.0\n", "")), Ok(true));
    assert_eq!(node_check_outcome(&ran(false, "", "not found")), Ok(false));
    assert_eq!(
        node_check_outcome(&Err("no shell".to_string())),
        Err("Failed to execute command: no shell".to_string())
    );
}

#[test]
fn nvm_outcomes_are_trimmed() {
    assert_eq!(nvm_outcome(&ran(true, "  0.39.1\n", "")), Ok("0.39.1".to_string()));
    assert_eq!(nvm_outcome(&ran(false, "x", "\n nvm: not found \n")), Err("nvm: not found".to_string()));
    assert_eq!(
        nvm_outcome(&Err("no bash".to_string())),
        Err("Failed to execute command: no bash".to_string())
    );
}

#[test]
fn nvm_outcome_trims_every_kind_of_white_space() {
    let padded = "\u{a0}\u{3000}\t v1 \u{2003}x\u{2028}\r\n";
    assert_eq!(nvm_outcome(&ran(true, padded, "")), Ok(padded.trim().to_string()));
    assert_eq!(nvm_outcome(&ran(true, padded, "")), Ok("v1 \u{2003}x".to_string()));
    assert_eq!(nvm_outcome(&ran(true, " \n ", "")), Ok(String::new()));
}

#[test]
fn nvm_is_installed_where_its_version_came_back() {
    assert_eq!(check_nvm_installed(&Ok("0.39.1".to_string())), Ok(true));
    assert_eq!(check_nvm_installed(&Err("nvm: not found".to_string())), Ok(false));
}

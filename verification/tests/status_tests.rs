use project_runner::status::{
    append_decimal, decode_output, decode_result, outcome_message, progress_message,
    status_event, Action, CommandOutput, CommandText,
};

fn ran(success: bool, exit_code: Option<i32>, stdout: &[u8], stderr: &[u8]) -> Result<CommandText, String> {
    decode_result(Ok(CommandOutput {
        success,
        exit_code,
        stdout: stdout.to_vec(),
        stderr: stderr.to_vec(),
    }))
}

fn decimal(value: i32) -> String {
    let mut text = String::from("n=");
    append_decimal(&mut text, value);
    text
}

#[test]
fn status_events() {
    assert_eq!(status_event(Action::Install), "install_status");
    assert_eq!(status_event(Action::Update), "update_status");
    assert_eq!(status_event(Action::Delete), "delete_status");
    assert_eq!(status_event(Action::Reinstall), "reinstall_status");
}

#[test]
fn progress_messages() {
    assert_eq!(progress_message(Action::Install), "Installing dependency...");
    assert_eq!(progress_message(Action::Update), "Updating dependency...");
    assert_eq!(progress_message(Action::Delete), "Deleting dependency...");
    assert_eq!(progress_message(Action::Reinstall), "Reinstalling dependencies...");
}

#[test]
fn decimal_digits() {
    assert_eq!(decimal(0), "n=0");
    assert_eq!(decimal(7), "n=7");
    assert_eq!(decimal(10), "n=10");
    assert_eq!(decimal(127), "n=127");
    assert_eq!(decimal(1002003), "n=1002003");
    assert_eq!(decimal(-1), "n=-1");
    assert_eq!(decimal(-90), "n=-90");
    assert_eq!(decimal(i32::MAX), "n=2147483647");
    assert_eq!(decimal(i32::MIN), "n=-2147483648");
}

#[test]
fn decimal_agrees_with_the_standard_formatting() {
    for value in [0, 1, 9, 10, 11, 99, 100, 101, 255, 256, 65535, -5, -10, -128, 1_000_000_000] {
        assert_eq!(decimal(value), format!("n={}", value));
    }
}

#[test]
fn success_messages() {
    assert_eq!(
        outcome_message(Action::Install, &ran(true, Some(0), b"added 3 packages", b"")),
        "added 3 packages installed successfully!"
    );
    assert_eq!(
        outcome_message(Action::Update, &ran(true, Some(0), b"ok", b"notice")),
        "ok updated successfully!"
    );
    assert_eq!(
        outcome_message(Action::Delete, &ran(true, Some(0), b"", b"")),
        " deleted successfully!"
    );
    assert_eq!(
        outcome_message(Action::Reinstall, &ran(true, Some(0), b"up to date", b"")),
        "Dependencies reinstalled successfully!\nup to date"
    );
}

#[test]
fn failure_with_error_output_shows_it() {
    for action in [Action::Install, Action::Update, Action::Delete, Action::Reinstall] {
        assert_eq!(
            outcome_message(action, &ran(false, Some(1), b"out", b"E404 not found\n")),
            "Error: E404 not found\n"
        );
    }
}

#[test]
fn silent_failure_shows_the_exit_code() {
    assert_eq!(
        outcome_message(Action::Install, &ran(false, Some(2), b"out", b"")),
        "out installed successfully! Installation failed. Exit code: 2. Check stdout for details."
    );
    assert_eq!(
        outcome_message(Action::Update, &ran(false, Some(127), b"out", b"  \n\t")),
        "out updated successfully! Update failed. Exit code: 127. Check stdout for details."
    );
    assert_eq!(
        outcome_message(Action::Delete, &ran(false, Some(-3), b"", b"\n")),
        " deleted successfully! Deletion failed. Exit code: -3. Check stdout for details."
    );
    assert_eq!(
        outcome_message(Action::Reinstall, &ran(false, Some(1), b"out", b"")),
        "Reinstallation failed. Exit code: 1. Check stdout for details."
    );
}

#[test]
fn missing_exit_code_is_minus_one() {
    assert_eq!(
        outcome_message(Action::Reinstall, &ran(false, None, b"", b"")),
        "Reinstallation failed. Exit code: -1. Check stdout for details."
    );
}

#[test]
fn command_that_could_not_run() {
    assert_eq!(
        outcome_message(Action::Install, &Err("No such file or directory (os error 2)".to_string())),
        "Failed to execute command: No such file or directory (os error 2)"
    );
}

#[test]
fn output_that_is_not_utf8_is_shown_lossily() {
    assert_eq!(
        outcome_message(Action::Install, &ran(true, Some(0), &[b'o', 0xff, b'k'], b"")),
        "o\u{fffd}k installed successfully!"
    );
    assert_eq!(
        outcome_message(Action::Install, &ran(false, Some(1), b"", &[0xfe])),
        "Error: \u{fffd}"
    );
}

#[test]
fn output_is_decoded_field_by_field() {
    let output = CommandOutput {
        success: false,
        exit_code: Some(3),
        stdout: b"caf\xc3\xa9".to_vec(),
        stderr: vec![b'a', 0x80, b'b'],
    };
    assert_eq!(
        decode_output(&output),
        CommandText {
            success: false,
            exit_code: Some(3),
            stdout: "caf\u{e9}".to_string(),
            stderr: "a\u{fffd}b".to_string(),
        }
    );
}

#[test]
fn reason_of_a_command_that_did_not_run_is_kept() {
    assert_eq!(decode_result(Err("no shell".to_string())), Err("no shell".to_string()));
}

#[test]
fn every_kind_of_white_space_counts_as_silence() {
    let blank = "\u{9}\u{a}\u{b}\u{c}\u{d} \u{85}\u{a0}\u{1680}\u{2000}\u{2005}\u{200a}\u{2028}\u{2029}\u{202f}\u{205f}\u{3000}";
    assert_eq!(
        outcome_message(Action::Reinstall, &ran(false, Some(9), b"", blank.as_bytes())),
        "Reinstallation failed. Exit code: 9. Check stdout for details."
    );
}

#[test]
fn characters_next_to_white_space_are_not_silence() {
    for loud in ["\u{200b}", "\u{180e}", "\u{feff}", "\u{1f}", "\u{0}", "\u{2060}"] {
        let stderr = format!(" {} ", loud);
        assert_eq!(
            outcome_message(Action::Reinstall, &ran(false, Some(9), b"", stderr.as_bytes())),
            format!("Error: {}", stderr)
        );
    }
}

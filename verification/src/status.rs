//! The status texts that are sent out while a package-manager command or a
//! project generator runs, and what is done when it has ended.

use vstd::prelude::*;
use vstd::string::StringExecFns;
use crate::creation::Template;
use crate::relay::{decode_lossy, utf8_lossy};

verus! {

/// What a package-manager command does to the dependencies of a project.
#[derive(Clone, Copy, Debug, PartialEq, Eq, Structural)]
pub enum Action {
    Install,
    Update,
    Delete,
    Reinstall,
}

/// What is known of a command that has ended.
#[derive(Clone, Debug, PartialEq, Eq)]
pub struct CommandOutput {
    /// Whether the command reported success.
    pub success: bool,
    /// Its exit code, unless a signal ended it.
    pub exit_code: Option<i32>,
    /// What it wrote to its standard output.
    pub stdout: Vec<u8>,
    /// What it wrote to its standard error.
    pub stderr: Vec<u8>,
}

/// The output of a command that has ended, read as text.
#[derive(Clone, Debug, PartialEq, Eq)]
pub struct CommandText {
    /// Whether the command reported success.
    pub success: bool,
    /// Its exit code, unless a signal ended it.
    pub exit_code: Option<i32>,
    /// What it wrote to its standard output.
    pub stdout: String,
    /// What it wrote to its standard error.
    pub stderr: String,
}

/// Reads the output of a command as text. Bytes that are not UTF-8 become
/// replacement characters, so that no output is lost for a stray byte.
pub fn decode_output(output: &CommandOutput) -> (text: CommandText)
    ensures
        text.success == output.success,
        text.exit_code == output.exit_code,
        text.stdout@ == utf8_lossy(output.stdout@),
        text.stderr@ == utf8_lossy(output.stderr@),
{
    CommandText {
        success: output.success,
        exit_code: output.exit_code,
        stdout: decode_lossy(output.stdout.as_slice()),
        stderr: decode_lossy(output.stderr.as_slice()),
    }
}

/// Reads the result of running a command as text: the output of a command
/// that ran, or unchanged the reason why it did not.
pub fn decode_result(result: Result<CommandOutput, String>) -> (text: Result<CommandText, String>)
    ensures
        match result {
            Ok(output) => text matches Ok(t) && t.success == output.success && t.exit_code
                == output.exit_code && t.stdout@ == utf8_lossy(output.stdout@) && t.stderr@
                == utf8_lossy(output.stderr@),
            Err(reason) => text == Err::<CommandText, String>(reason),
        },
{
    match result {
        Ok(output) => Ok(decode_output(&output)),
        Err(reason) => Err(reason),
    }
}

/// The name of the event under which the status of an action is sent out.
pub fn status_event(action: Action) -> (name: &'static str)
    ensures
        name@ == (match action {
            Action::Install => "install_status"@,
            Action::Update => "update_status"@,
            Action::Delete => "delete_status"@,
            Action::Reinstall => "reinstall_status"@,
        }),
{
    match action {
        Action::Install => "install_status",
        Action::Update => "update_status",
        Action::Delete => "delete_status",
        Action::Reinstall => "reinstall_status",
    }
}

/// The status that is sent out before the command of an action runs.
pub fn progress_message(action: Action) -> (text: &'static str)
    ensures
        text@ == (match action {
            Action::Install => "Installing dependency..."@,
            Action::Update => "Updating dependency..."@,
            Action::Delete => "Deleting dependency..."@,
            Action::Reinstall => "Reinstalling dependencies..."@,
        }),
{
    match action {
        Action::Install => "Installing dependency...",
        Action::Update => "Updating dependency...",
        Action::Delete => "Deleting dependency...",
        Action::Reinstall => "Reinstalling dependencies...",
    }
}

/// The character of a decimal digit.
pub open spec fn digit(d: nat) -> char {
    if d == 0 {
        '0'
    } else if d == 1 {
        '1'
    } else if d == 2 {
        '2'
    } else if d == 3 {
        '3'
    } else if d == 4 {
        '4'
    } else if d == 5 {
        '5'
    } else if d == 6 {
        '6'
    } else if d == 7 {
        '7'
    } else if d == 8 {
        '8'
    } else {
        '9'
    }
}

/// A natural number in decimal digits, without leading zeros.
pub open spec fn digits(n: nat) -> Seq<char>
    decreases n,
{
    if n < 10 {
        seq![digit(n)]
    } else {
        digits(n / 10).push(digit(n % 10))
    }
}

/// An integer in decimal digits, with a minus sign where it is negative.
pub open spec fn decimal(value: int) -> Seq<char> {
    if value < 0 {
        seq!['-'] + digits((-value) as nat)
    } else {
        digits(value as nat)
    }
}

/// Writes the decimal digits of `n` at the end of `text`.
fn append_digits(text: &mut String, n: u32)
    ensures
        final(text)@ == old(text)@ + digits(n as nat),
    decreases n,
{
    if n >= 10 {
        append_digits(text, n / 10);
    }
    let d = n % 10;
    let last = if d == 0 {
        "0"
    } else if d == 1 {
        "1"
    } else if d == 2 {
        "2"
    } else if d == 3 {
        "3"
    } else if d == 4 {
        "4"
    } else if d == 5 {
        "5"
    } else if d == 6 {
        "6"
    } else if d == 7 {
        "7"
    } else if d == 8 {
        "8"
    } else {
        "9"
    };
    proof {
        reveal_strlit("0");
        reveal_strlit("1");
        reveal_strlit("2");
        reveal_strlit("3");
        reveal_strlit("4");
        reveal_strlit("5");
        reveal_strlit("6");
        reveal_strlit("7");
        reveal_strlit("8");
        reveal_strlit("9");
    }
    text.append(last);
}

/// Writes `value` in decimal at the end of `text`.
pub fn append_decimal(text: &mut String, value: i32)
    ensures
        final(text)@ == old(text)@ + decimal(value as int),
{
    if value < 0 {
        text.append("-");
        let magnitude: u32 = if value == i32::MIN {
            0x8000_0000
        } else {
            (-value) as u32
        };
        append_digits(text, magnitude);
        proof {
            reveal_strlit("-");
        }
    } else {
        append_digits(text, value as u32);
    }
}

/// The text with which an action reports success, after what the command
/// wrote to its standard output.
pub open spec fn success_words(action: Action) -> Seq<char> {
    match action {
        Action::Install => " installed successfully!"@,
        Action::Update => " updated successfully!"@,
        Action::Delete => " deleted successfully!"@,
        Action::Reinstall => ""@,
    }
}

/// The status of an action whose command reported success and wrote
/// `stdout`: the output and the words of success, and for a reinstall the
/// words first and the output on a line of its own.
pub open spec fn success_text(action: Action, stdout: Seq<char>) -> Seq<char> {
    if action == Action::Reinstall {
        "Dependencies reinstalled successfully!\n"@ + stdout
    } else {
        stdout + success_words(action)
    }
}

/// How an action names its failure.
pub open spec fn failure_words(action: Action) -> Seq<char> {
    match action {
        Action::Install => " Installation failed. Exit code: "@,
        Action::Update => " Update failed. Exit code: "@,
        Action::Delete => " Deletion failed. Exit code: "@,
        Action::Reinstall => "Reinstallation failed. Exit code: "@,
    }
}

/// The status of an action whose command failed without a word on its
/// standard error: the exit code, or -1 where there is none, after the text
/// of success that the command did not earn. A reinstall leaves that text
/// out.
pub open spec fn silent_failure_text(action: Action, stdout: Seq<char>, exit_code: Option<i32>) -> Seq<
    char,
> {
    let code: int = match exit_code {
        Some(c) => c as int,
        None => -1,
    };
    (if action == Action::Reinstall {
        Seq::<char>::empty()
    } else {
        success_text(action, stdout)
    }) + failure_words(action) + decimal(code) + ". Check stdout for details."@
}

/// Whether a character is white space: the characters with the Unicode
/// property `White_Space`.
pub open spec fn is_white_space(c: char) -> bool {
    let code = c as u32;
    ||| 0x09 <= code <= 0x0d
    ||| code == 0x20
    ||| code == 0x85
    ||| code == 0xa0
    ||| code == 0x1680
    ||| 0x2000 <= code <= 0x200a
    ||| code == 0x2028
    ||| code == 0x2029
    ||| code == 0x202f
    ||| code == 0x205f
    ||| code == 0x3000
}

/// A text without the white space that it begins with.
pub open spec fn trimmed_start(text: Seq<char>) -> Seq<char>
    decreases text.len(),
{
    if text.len() > 0 && is_white_space(text[0]) {
        trimmed_start(text.skip(1))
    } else {
        text
    }
}

/// A text without the white space that it ends with.
pub open spec fn trimmed_end(text: Seq<char>) -> Seq<char>
    decreases text.len(),
{
    if text.len() > 0 && is_white_space(text.last()) {
        trimmed_end(text.drop_last())
    } else {
        text
    }
}

/// A text without the white space at its two ends.
pub open spec fn trimmed(text: Seq<char>) -> Seq<char> {
    trimmed_end(trimmed_start(text))
}

/// `str::trim` returns the part of a text between its leading and its
/// trailing white space, where white space is what the Unicode property
/// `White_Space` says.
#[verifier::external_body]
pub(crate) fn trim_text(text: &str) -> (inner: &str)
    ensures
        inner@ == trimmed(text@),
{
    text.trim()
}

/// The status of an action whose command has ended with the given output:
/// the text of success where it succeeded; where it failed, what it wrote
/// to its standard error, or the exit code if that is nothing but white
/// space.
pub open spec fn finished_text(action: Action, output: CommandText) -> Seq<char> {
    if output.success {
        success_text(action, output.stdout@)
    } else if trimmed(output.stderr@).len() == 0 {
        silent_failure_text(action, output.stdout@, output.exit_code)
    } else {
        "Error: "@ + output.stderr@
    }
}

/// The status of an action by the result of running its command: the
/// output of a command that ran, or the reason why it did not.
pub open spec fn outcome_text(action: Action, result: Result<CommandText, String>) -> Seq<char> {
    match result {
        Ok(output) => finished_text(action, output),
        Err(reason) => "Failed to execute command: "@ + reason@,
    }
}

/// The status to send out when the command of `action` has ended as
/// `result` says.
pub fn outcome_message(action: Action, result: &Result<CommandText, String>) -> (text: String)
    ensures
        text@ == outcome_text(action, *result),
{
    match result {
        Err(reason) => {
            let mut text = "Failed to execute command: ".to_owned();
            text.append(reason.as_str());
            text
        },
        Ok(output) => {
            let mut message = match action {
                Action::Reinstall => {
                    let mut m = "Dependencies reinstalled successfully!\n".to_owned();
                    m.append(output.stdout.as_str());
                    m
                },
                _ => {
                    let mut m = output.stdout.clone();
                    m.append(
                        match action {
                            Action::Install => " installed successfully!",
                            Action::Update => " updated successfully!",
                            _ => " deleted successfully!",
                        },
                    );
                    m
                },
            };
            if output.success {
                return message;
            }
            if trim_text(output.stderr.as_str()).is_empty() {
                let code: i32 = match output.exit_code {
                    Some(c) => c,
                    None => -1,
                };
                let mut text = match action {
                    Action::Reinstall => String::new(),
                    _ => message,
                };
                text.append(
                    match action {
                        Action::Install => " Installation failed. Exit code: ",
                        Action::Update => " Update failed. Exit code: ",
                        Action::Delete => " Deletion failed. Exit code: ",
                        Action::Reinstall => "Reinstallation failed. Exit code: ",
                    },
                );
                append_decimal(&mut text, code);
                text.append(". Check stdout for details.");
                text
            } else {
                let mut text = "Error: ".to_owned();
                text.append(output.stderr.as_str());
                text
            }
        },
    }
}

/// What follows when the generator of a new project has ended.
#[derive(Clone, Debug, PartialEq, Eq)]
pub enum CreationStep {
    /// Nothing more is run; the text is the last status.
    Finished(String),
    /// The generator has succeeded and the dependencies are installed next.
    InstallDependencies,
}

/// The model of a `CreationStep`.
pub ghost enum CreationStepView {
    Finished(Seq<char>),
    InstallDependencies,
}

impl View for CreationStep {
    type V = CreationStepView;

    open spec fn view(&self) -> CreationStepView {
        match *self {
            CreationStep::Finished(text) => CreationStepView::Finished(text@),
            CreationStep::InstallDependencies => CreationStepView::InstallDependencies,
        }
    }
}

/// The step after the generator of `template` has ended as `result` says:
/// a generator that could not be run or that failed ends the creation with
/// its error; after success only Vue has its dependencies installed.
pub open spec fn step_after_generator(
    template: Template,
    result: Result<CommandText, String>,
) -> CreationStepView {
    match result {
        Err(reason) => CreationStepView::Finished("Failed to execute command: "@ + reason@),
        Ok(output) => if !output.success {
            CreationStepView::Finished("Error: "@ + output.stderr@)
        } else if template == Template::Vue {
            CreationStepView::InstallDependencies
        } else {
            CreationStepView::Finished("Project created successfully!"@)
        },
    }
}

/// Decides what follows the generator of a new project.
pub fn after_generator(template: Template, result: &Result<CommandText, String>) -> (step:
    CreationStep)
    ensures
        step@ == step_after_generator(template, *result),
{
    match result {
        Err(reason) => {
            let mut text = "Failed to execute command: ".to_owned();
            text.append(reason.as_str());
            CreationStep::Finished(text)
        },
        Ok(output) => {
            if !output.success {
                let mut text = "Error: ".to_owned();
                text.append(output.stderr.as_str());
                CreationStep::Finished(text)
            } else {
                match template {
                    Template::Vue => CreationStep::InstallDependencies,
                    _ => CreationStep::Finished("Project created successfully!".to_owned()),
                }
            }
        },
    }
}

/// The last status of a creation whose dependencies were installed
/// afterwards, by the result of the installing command.
pub open spec fn text_after_install(result: Result<CommandText, String>) -> Seq<char> {
    match result {
        Err(reason) => "Failed to execute install command: "@ + reason@,
        Ok(output) => if output.success {
            "Project created successfully!"@
        } else {
            "Error installing dependencies: "@ + output.stderr@
        },
    }
}

/// The last status of a creation when the installing command has ended.
pub fn after_install(result: &Result<CommandText, String>) -> (text: String)
    ensures
        text@ == text_after_install(*result),
{
    match result {
        Err(reason) => {
            let mut text = "Failed to execute install command: ".to_owned();
            text.append(reason.as_str());
            text
        },
        Ok(output) => {
            if output.success {
                "Project created successfully!".to_owned()
            } else {
                let mut text = "Error installing dependencies: ".to_owned();
                text.append(output.stderr.as_str());
                text
            }
        },
    }
}

} // verus!

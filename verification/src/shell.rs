//! How a one-shot command is handed to the shell of the system.

use vstd::prelude::*;
use vstd::string::StringExecFns;
use crate::launch::CREATE_NO_WINDOW;

verus! {

/// Everything that running a one-shot command takes.
#[derive(Clone, Debug, PartialEq, Eq)]
pub struct ShellPlan {
    /// The shell.
    pub program: String,
    /// The arguments of the shell.
    pub args: Vec<String>,
    /// The directory in which the command runs.
    pub working_directory: String,
    /// The creation flags to pass on a console-capable system, if any.
    pub creation_flags: Option<u32>,
    /// Whether the command is told that npm is the calling package manager,
    /// through the variable `npm_config_user_agent` with the value `npm`.
    pub npm_user_agent: bool,
}

/// The model of a `ShellPlan`.
pub ghost struct ShellPlanView {
    pub program: Seq<char>,
    pub args: Seq<Seq<char>>,
    pub working_directory: Seq<char>,
    pub creation_flags: Option<u32>,
    pub npm_user_agent: bool,
}

impl View for ShellPlan {
    type V = ShellPlanView;

    open spec fn view(&self) -> ShellPlanView {
        ShellPlanView {
            program: self.program@,
            args: self.args.deep_view(),
            working_directory: self.working_directory@,
            creation_flags: self.creation_flags,
            npm_user_agent: self.npm_user_agent,
        }
    }
}

/// The words of a command written in one line, a space between each two.
pub open spec fn command_line(words: Seq<Seq<char>>) -> Seq<char>
    decreases words.len(),
{
    if words.len() == 0 {
        Seq::empty()
    } else if words.len() == 1 {
        words[0]
    } else {
        command_line(words.drop_last()) + " "@ + words.last()
    }
}

/// Whether `pattern` stands somewhere in `text`.
pub open spec fn has_subtext(text: Seq<char>, pattern: Seq<char>) -> bool {
    exists|i: int|
        0 <= i && i + pattern.len() <= text.len() && #[trigger] text.subrange(
            i,
            i + pattern.len(),
        ) == pattern
}

/// `str::contains` with a text as its pattern says whether the pattern
/// occurs in the text as a run of consecutive characters.
#[verifier::external_body]
fn contains_text(text: &str, pattern: &str) -> (found: bool)
    ensures
        found == has_subtext(text@, pattern@),
{
    text.contains(pattern)
}

/// Writes the words of a command in one line.
pub fn join_words(words: &[&str]) -> (line: String)
    ensures
        line@ == command_line(words.deep_view()),
{
    let mut line = String::new();
    let mut i: usize = 0;
    while i < words.len()
        invariant
            i <= words.len(),
            line@ == command_line(words.deep_view().subrange(0, i as int)),
        decreases words.len() - i,
    {
        let ghost sofar = words.deep_view().subrange(0, i as int);
        let ghost next = words.deep_view().subrange(0, i + 1);
        proof {
            assert(next.drop_last() == sofar);
        }
        if i > 0 {
            line.append(" ");
        }
        line.append(words[i]);
        i += 1;
    }
    proof {
        assert(words.deep_view().subrange(0, i as int) == words.deep_view());
    }
    line
}

/// The plan for the command `words` in the directory `project_path`.
///
/// Where the system is Windows, the words are handed one by one to `cmd`
/// after `/C`, and no console window is opened. Elsewhere they are written
/// in one line and handed to `sh` after `-c`. A command that mentions npm
/// is told that npm calls it.
pub open spec fn shell_plan(words: Seq<Seq<char>>, project_path: Seq<char>, windows: bool) -> ShellPlanView {
    ShellPlanView {
        program: if windows {
            "cmd"@
        } else {
            "sh"@
        },
        args: if windows {
            seq!["/C"@] + words
        } else {
            seq!["-c"@, command_line(words)]
        },
        working_directory: project_path,
        creation_flags: if windows {
            Some(CREATE_NO_WINDOW)
        } else {
            None
        },
        npm_user_agent: has_subtext(command_line(words), "npm"@),
    }
}

/// Decides how the one-shot command `cmd` is run in `project_path`.
pub fn execute_command(cmd: &[&str], project_path: &str, windows: bool) -> (plan: ShellPlan)
    ensures
        plan@ == shell_plan(cmd.deep_view(), project_path@, windows),
{
    let line = join_words(cmd);
    let npm_user_agent = contains_text(line.as_str(), "npm");
    let mut args: Vec<String> = Vec::new();
    if windows {
        args.push("/C".to_owned());
        let mut i: usize = 0;
        while i < cmd.len()
            invariant
                i <= cmd.len(),
                args.deep_view() == seq!["/C"@] + cmd.deep_view().subrange(0, i as int),
            decreases cmd.len() - i,
        {
            let ghost before = args.deep_view();
            args.push(cmd[i].to_owned());
            proof {
                assert(args.deep_view() =~= before.push(cmd[i as int]@));
            }
            i += 1;
        }
        proof {
            assert(cmd.deep_view().subrange(0, i as int) == cmd.deep_view());
        }
        ShellPlan {
            program: "cmd".to_owned(),
            args,
            working_directory: project_path.to_owned(),
            creation_flags: Some(CREATE_NO_WINDOW),
            npm_user_agent,
        }
    } else {
        args.push("-c".to_owned());
        args.push(line);
        proof {
            assert(args.deep_view() =~= seq!["-c"@, command_line(cmd.deep_view())]);
        }
        ShellPlan {
            program: "sh".to_owned(),
            args,
            working_directory: project_path.to_owned(),
            creation_flags: None,
            npm_user_agent,
        }
    }
}

} // verus!

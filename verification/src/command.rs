//! Command resolver: splits a shell-style command string into the executable
//! and its positional arguments.

use vstd::prelude::*;

verus! {

/// Why a command string could not be resolved.
#[derive(Clone, Copy, Debug, PartialEq, Eq, Structural)]
pub enum ParseError {
    /// The command holds no word at all.
    Empty,
    /// The command ends inside a quotation or after a lone escape character.
    Malformed,
}

impl ParseError {
    /// The text shown to the caller of a failed start.
    pub fn message(&self) -> (text: String)
        ensures
            text@ == "Failed to parse command"@,
    {
        "Failed to parse command".to_owned()
    }
}

/// The words that `shlex::split` finds in a command, `None` where it reports
/// the command as erroneous.
pub uninterp spec fn shell_words(command: Seq<char>) -> Option<Seq<Seq<char>>>;

/// `shlex::split` tokenizes its argument by the quoting rules of a POSIX
/// shell. It reads nothing but its argument, so its result is named by
/// `shell_words`; nothing more is claimed of it.
pub assume_specification[ shlex::split ](in_str: &str) -> (words: Option<Vec<String>>)
    ensures
        words.deep_view() == shell_words(in_str@),
;

/// What resolving makes of the words of a command: the first word is the
/// executable, the others are its arguments in their order.
pub open spec fn resolved(words: Option<Seq<Seq<char>>>) -> Result<
    (Seq<char>, Seq<Seq<char>>),
    ParseError,
> {
    match words {
        None => Err(ParseError::Malformed),
        Some(w) => if w.len() == 0 {
            Err(ParseError::Empty)
        } else {
            Ok((w[0], w.skip(1)))
        },
    }
}

/// What `parse_command` returns for a command: an empty command is refused
/// before any tokenizing, every other command goes by its shell words.
pub open spec fn resolution(command: Seq<char>) -> Result<(Seq<char>, Seq<Seq<char>>), ParseError> {
    if command.len() == 0 {
        Err(ParseError::Empty)
    } else {
        resolved(shell_words(command))
    }
}

/// The model of a resolver result: the executable and the arguments as
/// sequences of characters.
pub open spec fn outcome_view(r: Result<(String, Vec<String>), ParseError>) -> Result<
    (Seq<char>, Seq<Seq<char>>),
    ParseError,
> {
    match r {
        Ok((executable, args)) => Ok((executable@, args.deep_view())),
        Err(e) => Err(e),
    }
}

/// Turns the words of a tokenized command into executable and arguments.
///
/// The words are passed on as they are: nothing is expanded, globbed or
/// quoted again.
pub fn resolve_words(words: Option<Vec<String>>) -> (r: Result<(String, Vec<String>), ParseError>)
    ensures
        outcome_view(r) == resolved(words.deep_view()),
{
    match words {
        None => Err(ParseError::Malformed),
        Some(mut parts) => {
            if parts.len() == 0 {
                Err(ParseError::Empty)
            } else {
                let ghost all = parts.deep_view();
                let executable = parts.remove(0);
                proof {
                    assert(parts.deep_view() =~= all.skip(1));
                }
                Ok((executable, parts))
            }
        },
    }
}

/// Splits `command` by POSIX shell-word rules into the executable and its
/// arguments.
pub fn parse_command(command: &str) -> (r: Result<(String, Vec<String>), ParseError>)
    ensures
        outcome_view(r) == resolution(command@),
{
    if command.is_empty() {
        return Err(ParseError::Empty);
    }
    resolve_words(shlex::split(command))
}

/// A command without any character is never resolved.
pub proof fn lemma_empty_command_is_refused(command: Seq<char>)
    requires
        command.len() == 0,
    ensures
        resolution(command) == Err::<(Seq<char>, Seq<Seq<char>>), ParseError>(ParseError::Empty),
{
}

/// The executable of a resolved command is never empty, unless the command
/// itself begins with an empty word, as a pair of quotes with nothing
/// between them is.
pub proof fn lemma_executable_is_not_empty(command: Seq<char>)
    requires
        !(shell_words(command) matches Some(words) && words.len() > 0 && words[0].len() == 0),
    ensures
        resolution(command) matches Ok(resolved) ==> resolved.0.len() > 0,
{
}

} // verus!

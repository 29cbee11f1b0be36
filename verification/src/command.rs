//! Parsing of shell-style command lines handed to the run-command intrinsic.
//!
//! The command line is tokenized with POSIX shell word-splitting; the first
//! word names the program and the remaining words are its arguments. An input
//! that cannot be tokenized, or that contains no words at all, is rejected
//! before any process could be spawned.

use vstd::prelude::*;

verus! {

/// What POSIX shell word-splitting yields on a command line: `None` on
/// unbalanced quoting, otherwise the sequence of words.
pub uninterp spec fn shell_words(s: Seq<char>) -> Option<Seq<Seq<char>>>;

/// The words of a command line that tokenizes successfully.
pub open spec fn words_of(s: Seq<char>) -> Seq<Seq<char>>
    recommends
        shell_words(s) is Some,
{
    shell_words(s)->0
}

/// Relies on shlex::split: POSIX shell word-splitting, a function of the
/// characters alone, `None` exactly when the input ends inside a quotation or
/// right after an unescaped backslash; whitespace only delimits words, so an
/// input of blanks alone yields `Some` with no words.
#[verifier::external_body]
fn split_command_line(s: &str) -> (r: Option<Vec<String>>)
    ensures
        r is Some <==> shell_words(s@) is Some,
        r matches Some(v) ==> v.deep_view() == words_of(s@),
{
    shlex::split(s)
}

/// A command line split into the program to spawn and its arguments.
pub struct ParsedCommand {
    pub program: String,
    pub args: Vec<String>,
}

/// Why a command line was rejected.
#[derive(Debug)]
pub enum CommandError {
    /// The command line could not be tokenized (unbalanced quoting).
    Tokenize { cmdline: String },
    /// The command line contains no words.
    Empty,
}

/// The script-visible message of a [`CommandError`].
pub open spec fn spec_command_error_message(e: CommandError) -> Seq<char> {
    match e {
        CommandError::Tokenize { cmdline } => "failed to parse the given command: "@ + cmdline@,
        CommandError::Empty => "command is empty"@,
    }
}

impl CommandError {
    /// Renders this error as the message surfaced to the manifest script.
    pub fn message(&self) -> (r: String)
        ensures
            r@ == spec_command_error_message(*self),
    {
        match self {
            CommandError::Tokenize { cmdline } => String::from_str(
                "failed to parse the given command: ",
            ).concat(cmdline.as_str()),
            CommandError::Empty => String::from_str("command is empty"),
        }
    }
}

/// Splits a command line into a program and its arguments.
///
/// Fails with [`CommandError::Tokenize`] exactly when word-splitting fails,
/// and with [`CommandError::Empty`] exactly when splitting succeeds but yields
/// no words, so that no process is ever spawned from an empty command.
pub fn parse_command(cmdline: &str) -> (r: Result<ParsedCommand, CommandError>)
    ensures
        r is Ok <==> (shell_words(cmdline@) is Some && words_of(cmdline@).len() > 0),
        r matches Ok(p) ==> {
            &&& p.program@ == words_of(cmdline@)[0]
            &&& p.args.deep_view() == words_of(cmdline@).drop_first()
        },
        r matches Err(e) ==> match e {
            CommandError::Tokenize { cmdline: c } => shell_words(cmdline@) is None && c@
                == cmdline@,
            CommandError::Empty => shell_words(cmdline@) == Some(Seq::<Seq<char>>::empty()),
        },
{
    match split_command_line(cmdline) {
        None => Err(CommandError::Tokenize { cmdline: String::from_str(cmdline) }),
        Some(words) => {
            if words.len() == 0 {
                proof {
                    assert(words_of(cmdline@) =~= Seq::<Seq<char>>::empty());
                }
                Err(CommandError::Empty)
            } else {
                let program = words[0].clone();
                let mut args: Vec<String> = Vec::new();
                let mut i: usize = 1;
                while i < words.len()
                    invariant
                        1 <= i <= words.len(),
                        words.deep_view() == words_of(cmdline@),
                        args@.len() == i - 1,
                        forall|j: int| 0 <= j < i - 1 ==> args@[j] == words@[j + 1],
                        program@ == words_of(cmdline@)[0],
                    decreases words.len() - i,
                {
                    args.push(words[i].clone());
                    i = i + 1;
                }
                proof {
                    assert forall|j: int|
                        0 <= j < args.deep_view().len() implies args.deep_view()[j] == words_of(
                        cmdline@,
                    ).drop_first()[j] by {
                        assert(args@[j] == words@[j + 1]);
                        assert(words.deep_view()[j + 1] == words@[j + 1].deep_view());
                    }
                    assert(args.deep_view() =~= words_of(cmdline@).drop_first());
                }
                Ok(ParsedCommand { program, args })
            }
        },
    }
}

} // verus!

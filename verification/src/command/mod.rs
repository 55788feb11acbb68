//! The commands that a foreground process can ask of the daemon, and their
//! form on the wire: one token on a line of its own.

pub mod handler;
pub mod pipe;

use crate::text::{lemma_leading_space_is, lemma_trailing_space_is, same, trim, trimmed, white_space};
use vstd::prelude::*;
use vstd::std_specs::convert::FromSpecImpl;
use vstd::string::StringExecFns;

verus! {

/// What a client can ask of the daemon.
#[derive(Debug, Clone, Copy, PartialEq, Eq, Structural)]
pub enum Command {
    /// List the files that the remote service knows.
    ListFiles,
    /// Anything that is no command.
    Unknown,
}

/// The token that stands for a command on the wire.
pub open spec fn token_of(command: Command) -> Seq<char> {
    match command {
        Command::ListFiles => "list_files"@,
        Command::Unknown => "unknown"@,
    }
}

/// The command that a token stands for; a token that names none is
/// `Unknown`.
pub open spec fn command_of(token: Seq<char>) -> Command {
    if token == "list_files"@ {
        Command::ListFiles
    } else {
        Command::Unknown
    }
}

/// The line that carries a command: its token and a newline.
pub open spec fn line_of(command: Command) -> Seq<char> {
    token_of(command).push('\n')
}

/// The command that a received line carries: what its text stands for once
/// the white space around it is removed.
pub open spec fn command_of_line(line: Seq<char>) -> Command {
    command_of(trimmed(line))
}

impl From<Command> for &'static str {
    fn from(command: Command) -> (r: &'static str) {
        match command {
            Command::ListFiles => "list_files",
            Command::Unknown => "unknown",
        }
    }
}

impl FromSpecImpl<Command> for &'static str {
    open spec fn obeys_from_spec() -> bool {
        true
    }

    open spec fn from_spec(command: Command) -> &'static str {
        match command {
            Command::ListFiles => "list_files",
            Command::Unknown => "unknown",
        }
    }
}

impl<'a> From<&'a str> for Command {
    fn from(command: &'a str) -> (r: Command) {
        if same(command, "list_files") {
            Command::ListFiles
        } else {
            Command::Unknown
        }
    }
}

impl<'a> FromSpecImpl<&'a str> for Command {
    open spec fn obeys_from_spec() -> bool {
        true
    }

    open spec fn from_spec(command: &'a str) -> Command {
        command_of(command@)
    }
}

impl Command {
    /// The token of this command.
    pub fn token(self) -> (r: &'static str)
        ensures
            r@ == token_of(self),
    {
        match self {
            Command::ListFiles => "list_files",
            Command::Unknown => "unknown",
        }
    }

    /// The command that a token names.
    pub fn parse(token: &str) -> (r: Command)
        ensures
            r == command_of(token@),
    {
        if same(token, "list_files") {
            Command::ListFiles
        } else {
            Command::Unknown
        }
    }

    /// The line to send for this command.
    pub fn encode(self) -> (r: String)
        ensures
            r@ == line_of(self),
    {
        let mut line = String::from_str(self.token());
        line.append("\n");
        proof {
            reveal_strlit("\n");
            assert(line@ =~= token_of(self).push('\n'));
        }
        line
    }

    /// The command that a received line asks for. Text that names no
    /// command gives `Unknown`.
    pub fn decode(line: &str) -> (r: Command)
        ensures
            r == command_of_line(line@),
    {
        Command::parse(trim(line))
    }
}

/// No token holds white space, so trimming leaves a token as it is.
pub proof fn lemma_token_is_trimmed(command: Command)
    ensures
        trimmed(token_of(command)) == token_of(command),
        trimmed(line_of(command)) == token_of(command),
        token_of(command).len() > 0,
{
    reveal_strlit("list_files");
    reveal_strlit("unknown");
    let token = token_of(command);
    assert(forall|i: int| 0 <= i < token.len() ==> !white_space(#[trigger] token[i]));
    lemma_leading_space_is(token, 0);
    lemma_trailing_space_is(token.skip(0), 0);
    assert(token.skip(0) =~= token);
    assert(token.take(token.len() as int) =~= token);
    let line = line_of(command);
    assert(line[0] == token[0]);
    lemma_leading_space_is(line, 0);
    assert(line.skip(0) =~= line);
    assert(white_space('\n'));
    assert(line[line.len() - 2] == token[token.len() - 1]);
    lemma_trailing_space_is(line, 1);
    assert(line.take(line.len() - 1) =~= token);
}

/// A command that is encoded and decoded again is the same command, with
/// or without the newline that ends its line.
pub proof fn lemma_round_trip(command: Command)
    ensures
        command_of(token_of(command)) == command,
        command_of_line(line_of(command)) == command,
{
    lemma_token_is_trimmed(command);
    reveal_strlit("list_files");
    reveal_strlit("unknown");
    assert("unknown"@.len() != "list_files"@.len());
}

/// Only the token of `ListFiles`, with white space around it or not, is
/// decoded as `ListFiles`: every other line gives `Unknown`.
pub proof fn lemma_unrecognized_is_unknown(line: Seq<char>)
    ensures
        trimmed(line) != token_of(Command::ListFiles) ==> command_of_line(line) == Command::Unknown,
        trimmed(line) == token_of(Command::ListFiles) ==> command_of_line(line)
            == Command::ListFiles,
{
}

} // verus!

//! The command line, once parsed: what it asks the program to do.

use crate::command::pipe::{CommandWriter, WriterAction, WriterView};
use vstd::prelude::*;
use vstd::string::StringExecFns;

verus! {

/// What a command of the command line does with the command bus.
pub trait Handler {
    /// The command that is sent to the daemon, if one is.
    spec fn request(&self) -> Option<crate::command::Command>;

    /// Runs the command on a writer: sends its request, if it has one, and
    /// returns the work that the writer then asks for.
    fn handler(&self, command_bus: &mut CommandWriter) -> (r: Option<WriterAction>)
        ensures
            match self.request() {
                Some(command) => r matches Some(action) && (final(command_bus)@, action@) == old(
                    command_bus,
                )@.sending(command),
                None => r is None && final(command_bus)@ == old(command_bus)@,
            },
    ;
}

/// Lists the files that are synchronized.
#[derive(Debug, Clone, Copy, PartialEq, Eq, Structural)]
pub struct ListCommand;

impl Handler for ListCommand {
    open spec fn request(&self) -> Option<crate::command::Command> {
        Some(crate::command::Command::ListFiles)
    }

    fn handler(&self, command_bus: &mut CommandWriter) -> (r: Option<WriterAction>) {
        Some(command_bus.send(crate::command::Command::ListFiles))
    }
}

/// Watches files on the host. The daemon does so by itself; as a command
/// this asks for nothing.
#[derive(Debug, Clone, Copy, PartialEq, Eq, Structural)]
pub struct WatchCommand;

impl Handler for WatchCommand {
    open spec fn request(&self) -> Option<crate::command::Command> {
        None
    }

    fn handler(&self, command_bus: &mut CommandWriter) -> (r: Option<WriterAction>) {
        None
    }
}

/// The commands of the command line.
#[derive(Debug, Clone, Copy, PartialEq, Eq, Structural)]
pub enum Command {
    List(ListCommand),
}

impl Handler for Command {
    open spec fn request(&self) -> Option<crate::command::Command> {
        match self {
            Command::List(list) => list.request(),
        }
    }

    fn handler(&self, command_bus: &mut CommandWriter) -> (r: Option<WriterAction>) {
        match self {
            Command::List(list) => list.handler(command_bus),
        }
    }
}

/// How much the program logs.
#[derive(Debug, Clone, Copy, PartialEq, Eq, Structural)]
pub enum LogLevel {
    Info,
    Debug,
    Trace,
}

/// What is wrong with a command line.
#[derive(Debug, Clone, Copy, PartialEq, Eq, Structural)]
pub enum CliError {
    /// Neither the daemon nor a command was asked for.
    NoCommand,
}

impl CliError {
    pub open spec fn message_spec(self) -> Seq<char> {
        match self {
            CliError::NoCommand => "no command provided. To start client in daemon mode, use --daemon."@,
        }
    }

    /// The error in words.
    pub fn message(&self) -> (r: String)
        ensures
            r@ == self.message_spec(),
    {
        match self {
            CliError::NoCommand => String::from_str(
                "no command provided. To start client in daemon mode, use --daemon.",
            ),
        }
    }
}

/// The parsed command line.
#[derive(Debug, Clone, PartialEq, Eq)]
pub struct Cli {
    /// How often verbosity was asked for.
    pub verbose: usize,
    /// Whether the program is to run as the daemon.
    pub daemon: bool,
    /// The files, directories or globs to watch.
    pub files: Vec<String>,
    /// The path of a configuration file.
    pub config: Option<String>,
    /// The command to execute.
    pub command: Option<Command>,
}

impl Cli {
    /// The log level: `Debug` for one request of verbosity, `Trace` for
    /// two, else `Info`.
    pub fn log_level(&self) -> (r: LogLevel)
        ensures
            r == if self.verbose == 1 {
                LogLevel::Debug
            } else if self.verbose == 2 {
                LogLevel::Trace
            } else {
                LogLevel::Info
            },
    {
        if self.verbose == 1 {
            LogLevel::Debug
        } else if self.verbose == 2 {
            LogLevel::Trace
        } else {
            LogLevel::Info
        }
    }

    /// The command to execute, or the error that none was given.
    pub fn command(self) -> (r: Result<Box<dyn Handler>, CliError>)
        ensures
            match self.command {
                Some(command) => r matches Ok(h) && h.request() == command.request(),
                None => r == Err::<Box<dyn Handler>, CliError>(CliError::NoCommand),
            },
    {
        match self.command {
            Some(Command::List(list)) => Ok(Box::new(list)),
            None => Err(CliError::NoCommand),
        }
    }
}

} // verus!

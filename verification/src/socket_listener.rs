//! The life of the daemon's socket: opened at the start, removed when the
//! process is told to end.

use crate::command::handler::CommandHandler;
use crate::command::pipe::{CommandListener, ListenerAction, ListenerActionView, ListenerState, ListenerView};
use vstd::prelude::*;
use vstd::string::StringExecFns;

verus! {

/// Where the daemon takes commands, unless it is told otherwise.
pub const DEFAULT_SOCKET: &'static str = "/tmp/polydrive.sock";

/// A signal sent to the process.
#[derive(Debug, Clone, Copy, PartialEq, Eq, Structural)]
pub enum Signal {
    /// The request to end, as from the keyboard.
    Interrupt,
    /// The order to end at once.
    Kill,
    /// Any other signal, by its number.
    Other(i32),
}

/// What the process does on a signal.
#[derive(Debug, Clone, PartialEq, Eq)]
pub enum SignalAction {
    /// Remove the socket file at `path`, then exit.
    RemoveSocketAndExit { path: String },
    /// Exit.
    Exit,
    /// Go on.
    Ignore,
}

pub enum SignalActionView {
    RemoveSocketAndExit { path: Seq<char> },
    Exit,
    Ignore,
}

impl View for SignalAction {
    type V = SignalActionView;

    open spec fn view(&self) -> SignalActionView {
        match self {
            SignalAction::RemoveSocketAndExit { path } => SignalActionView::RemoveSocketAndExit {
                path: path@,
            },
            SignalAction::Exit => SignalActionView::Exit,
            SignalAction::Ignore => SignalActionView::Ignore,
        }
    }
}

/// The daemon's socket: how it is opened, and what a signal does to it.
pub struct SocketListener {}

impl SocketListener {
    /// What to do on `signal` while the socket at `socket` is open: an
    /// interrupt removes the socket file before the process exits.
    pub fn exit_signal_handler(signal: Signal, socket: &str) -> (r: SignalAction)
        ensures
            r@ == match signal {
                Signal::Interrupt => SignalActionView::RemoveSocketAndExit { path: socket@ },
                Signal::Kill => SignalActionView::Exit,
                Signal::Other(_) => SignalActionView::Ignore,
            },
    {
        match signal {
            Signal::Interrupt => SignalAction::RemoveSocketAndExit { path: String::from_str(socket) },
            Signal::Kill => SignalAction::Exit,
            Signal::Other(_) => SignalAction::Ignore,
        }
    }

    /// The connection where one was accepted; a failed attempt gives none
    /// and is passed over.
    pub fn handle_error<S>(connection: Result<S, String>) -> (r: Option<S>)
        ensures
            r == match connection {
                Ok(stream) => Some(stream),
                Err(_) => None,
            },
    {
        match connection {
            Ok(stream) => Some(stream),
            Err(_) => None,
        }
    }

    /// Starts listening on the socket at `socket`: the listener, and its
    /// first request.
    pub fn start(socket: &str) -> (r: (CommandListener, ListenerAction))
        ensures
            r.0@ == (ListenerView { socket: socket@, state: ListenerState::Probing }),
            r.1@ == (ListenerActionView::CheckSocket { path: socket@ }),
    {
        CommandListener::new(socket, CommandHandler::new())
    }
}

} // verus!

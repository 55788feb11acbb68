//! The two ends of the local command bus: the daemon's listener and the
//! client's writer. Each request is one line on a connection of its own;
//! the answer is all that the daemon writes until it closes the
//! connection.
//!
//! The socket is outside work. Each end decides what is asked next of it.

use crate::command::handler::{
    clean_table_text,
    listing,
    not_found,
    unavailable,
    CommandHandler,
    Execution,
};
use crate::command::{command_of_line, lemma_round_trip, line_of, Command};
use crate::remote::{RemoteFileDescriptor, RemoteFileDescriptorView};
use vstd::prelude::*;
use vstd::string::StringExecFns;
use vstd::utf8::{decode_utf8, encode_utf8, valid_utf8};

verus! {

/// What can go wrong on the command bus.
#[derive(Debug, Clone, PartialEq, Eq)]
pub enum BusError {
    /// No socket is at the path: no daemon runs.
    NoDaemon,
    /// The socket is there, but nobody answered.
    ConnectFailed { path: String, cause: String },
    /// The daemon could not bind the socket.
    BindFailed { path: String, cause: String },
    /// Writing or reading failed.
    Io(String),
    /// The answer is no UTF-8 text.
    InvalidText,
    /// This end was handed something that it had not asked for.
    OutOfTurn,
}

pub enum BusErrorView {
    NoDaemon,
    ConnectFailed { path: Seq<char>, cause: Seq<char> },
    BindFailed { path: Seq<char>, cause: Seq<char> },
    Io(Seq<char>),
    InvalidText,
    OutOfTurn,
}

impl View for BusError {
    type V = BusErrorView;

    open spec fn view(&self) -> BusErrorView {
        match self {
            BusError::NoDaemon => BusErrorView::NoDaemon,
            BusError::ConnectFailed { path, cause } => BusErrorView::ConnectFailed {
                path: path@,
                cause: cause@,
            },
            BusError::BindFailed { path, cause } => BusErrorView::BindFailed {
                path: path@,
                cause: cause@,
            },
            BusError::Io(cause) => BusErrorView::Io(cause@),
            BusError::InvalidText => BusErrorView::InvalidText,
            BusError::OutOfTurn => BusErrorView::OutOfTurn,
        }
    }
}

impl BusErrorView {
    /// The error in words, for the operator.
    pub open spec fn message(self) -> Seq<char> {
        match self {
            BusErrorView::NoDaemon => "cannot establish a connection with the daemon, please ensure a daemon is running on the host"@,
            BusErrorView::ConnectFailed { path, cause } => "failed to connect to socket on path. path="@
                + path + ", details="@ + cause,
            BusErrorView::BindFailed { path, cause } => "failed to bind socket on path. path="@
                + path + ", details="@ + cause,
            BusErrorView::Io(cause) => "failed to talk to the daemon. details="@ + cause,
            BusErrorView::InvalidText => "the daemon's answer is no UTF-8 text"@,
            BusErrorView::OutOfTurn => "the command bus was used out of turn"@,
        }
    }
}

impl BusError {
    /// The error in words, for the operator.
    pub fn message(&self) -> (r: String)
        ensures
            r@ == self@.message(),
    {
        match self {
            BusError::NoDaemon => String::from_str(
                "cannot establish a connection with the daemon, please ensure a daemon is running on the host",
            ),
            BusError::ConnectFailed { path, cause } => {
                let mut text = String::from_str("failed to connect to socket on path. path=");
                text.append(path.as_str());
                text.append(", details=");
                text.append(cause.as_str());
                text
            },
            BusError::BindFailed { path, cause } => {
                let mut text = String::from_str("failed to bind socket on path. path=");
                text.append(path.as_str());
                text.append(", details=");
                text.append(cause.as_str());
                text
            },
            BusError::Io(cause) => {
                let mut text = String::from_str("failed to talk to the daemon. details=");
                text.append(cause.as_str());
                text
            },
            BusError::InvalidText => String::from_str("the daemon's answer is no UTF-8 text"),
            BusError::OutOfTurn => String::from_str("the command bus was used out of turn"),
        }
    }
}

/// `String::from_utf8` of the standard library: a string is returned
/// exactly where the bytes are valid UTF-8, and it is made of these bytes.
#[verifier::external_body]
fn string_from_utf8(bytes: Vec<u8>) -> (r: Option<String>)
    ensures
        r is Some <==> valid_utf8(bytes@),
        r matches Some(text) ==> encode_utf8(text@) == bytes@,
{
    String::from_utf8(bytes).ok()
}

/// The text that an answer of the daemon holds, if it is UTF-8.
pub open spec fn answer_of(bytes: Seq<u8>) -> Result<Seq<char>, BusErrorView> {
    if valid_utf8(bytes) {
        Ok(decode_utf8(bytes))
    } else {
        Err(BusErrorView::InvalidText)
    }
}

/// Reads the daemon's answer as text.
pub fn decode_response(bytes: Vec<u8>) -> (r: Result<String, BusError>)
    ensures
        match r {
            Ok(text) => answer_of(bytes@) == Ok::<Seq<char>, BusErrorView>(text@),
            Err(e) => answer_of(bytes@) == Err::<Seq<char>, BusErrorView>(e@),
        },
{
    let ghost given = bytes@;
    match string_from_utf8(bytes) {
        Some(text) => {
            proof {
                vstd::utf8::encode_utf8_decode_utf8(text@);
            }
            Ok(text)
        },
        None => Err(BusError::InvalidText),
    }
}

/// A file of the remote service, and whether a file is at its path here.
#[derive(Debug, Clone, PartialEq, Eq)]
pub struct ListedFile {
    pub file: RemoteFileDescriptor,
    pub synced: bool,
}

/// Where the daemon's end stands: what it waits for.
#[derive(Debug, Clone, Copy, PartialEq, Eq, Structural)]
pub enum ListenerState {
    /// The answer whether a file is at the socket's path.
    Probing,
    /// The stale socket file to be removed.
    Clearing,
    /// The socket to be bound.
    Binding,
    /// The next connection.
    Accepting,
    /// The line of the request.
    Reading,
    /// The files of the remote service.
    Fetching,
    /// The answer to be written and the connection closed.
    Replying,
    Stopped,
}

/// What came of the work that the listener last asked for.
#[derive(Debug, Clone, PartialEq, Eq)]
pub enum ListenerInput {
    /// The work was done: the file removed, the socket bound, a
    /// connection accepted, the answer written.
    Done,
    /// The work failed, for this cause.
    Failed(String),
    /// Whether a file is at the socket's path.
    Presence(bool),
    /// The line that the client sent.
    Line(String),
    /// The files of the remote service, and for each whether a file is at
    /// its path.
    Files(Vec<RemoteFileDescriptor>, Vec<bool>),
}

pub enum ListenerInputView {
    Done,
    Failed(Seq<char>),
    Presence(bool),
    Line(Seq<char>),
    Files(Seq<RemoteFileDescriptorView>, Seq<bool>),
}

impl View for ListenerInput {
    type V = ListenerInputView;

    open spec fn view(&self) -> ListenerInputView {
        match self {
            ListenerInput::Done => ListenerInputView::Done,
            ListenerInput::Failed(c) => ListenerInputView::Failed(c@),
            ListenerInput::Presence(there) => ListenerInputView::Presence(*there),
            ListenerInput::Line(line) => ListenerInputView::Line(line@),
            ListenerInput::Files(files, present) => ListenerInputView::Files(
                files.deep_view(),
                present@,
            ),
        }
    }
}

/// The work that the listener asks of its caller.
#[derive(Debug, Clone, PartialEq, Eq)]
pub enum ListenerAction {
    /// Say whether a file is at `path`.
    CheckSocket { path: String },
    /// Remove the file at `path`, left by an earlier run.
    RemoveStale { path: String },
    /// Bind the socket at `path`.
    Bind { path: String },
    /// Wait for the next connection.
    Accept,
    /// Read one line from the connection.
    ReadLine,
    /// Fetch the files from the remote service, and say of each whether a
    /// file is at its path.
    FetchFiles,
    /// Write `text` to the connection and close it.
    Reply { text: String },
    /// Stop listening.
    Stop(BusError),
}

pub enum ListenerActionView {
    CheckSocket { path: Seq<char> },
    RemoveStale { path: Seq<char> },
    Bind { path: Seq<char> },
    Accept,
    ReadLine,
    FetchFiles,
    Reply { text: Seq<char> },
    Stop(BusErrorView),
}

impl View for ListenerAction {
    type V = ListenerActionView;

    open spec fn view(&self) -> ListenerActionView {
        match self {
            ListenerAction::CheckSocket { path } => ListenerActionView::CheckSocket { path: path@ },
            ListenerAction::RemoveStale { path } => ListenerActionView::RemoveStale { path: path@ },
            ListenerAction::Bind { path } => ListenerActionView::Bind { path: path@ },
            ListenerAction::Accept => ListenerActionView::Accept,
            ListenerAction::ReadLine => ListenerActionView::ReadLine,
            ListenerAction::FetchFiles => ListenerActionView::FetchFiles,
            ListenerAction::Reply { text } => ListenerActionView::Reply { text: text@ },
            ListenerAction::Stop(e) => ListenerActionView::Stop(e@),
        }
    }
}

/// The model of the daemon's end: the socket's path and where it stands.
pub struct ListenerView {
    pub socket: Seq<char>,
    pub state: ListenerState,
}

impl ListenerView {
    pub open spec fn at(self, state: ListenerState) -> ListenerView {
        ListenerView { state, ..self }
    }

    /// The step taken on the line of a request: the answer where the line
    /// names no command, else the request for the files.
    pub open spec fn on_line(self, line: Seq<char>) -> (ListenerView, ListenerActionView) {
        match command_of_line(line) {
            Command::ListFiles => (self.at(ListenerState::Fetching), ListenerActionView::FetchFiles),
            Command::Unknown => (
                self.at(ListenerState::Replying),
                ListenerActionView::Reply { text: not_found() },
            ),
        }
    }

    /// The step that the listener takes on an input.
    pub open spec fn next(self, input: ListenerInputView) -> (ListenerView, ListenerActionView) {
        match (self.state, input) {
            (ListenerState::Probing, ListenerInputView::Presence(there)) => if there {
                (
                    self.at(ListenerState::Clearing),
                    ListenerActionView::RemoveStale { path: self.socket },
                )
            } else {
                (self.at(ListenerState::Binding), ListenerActionView::Bind { path: self.socket })
            },
            (ListenerState::Clearing, ListenerInputView::Done)
            | (ListenerState::Clearing, ListenerInputView::Failed(_)) => (
                self.at(ListenerState::Binding),
                ListenerActionView::Bind { path: self.socket },
            ),
            (ListenerState::Binding, ListenerInputView::Done) => (
                self.at(ListenerState::Accepting),
                ListenerActionView::Accept,
            ),
            (ListenerState::Binding, ListenerInputView::Failed(cause)) => (
                self.at(ListenerState::Stopped),
                ListenerActionView::Stop(BusErrorView::BindFailed { path: self.socket, cause }),
            ),
            (ListenerState::Accepting, ListenerInputView::Done) => (
                self.at(ListenerState::Reading),
                ListenerActionView::ReadLine,
            ),
            (ListenerState::Accepting, ListenerInputView::Failed(_)) => (
                self.at(ListenerState::Accepting),
                ListenerActionView::Accept,
            ),
            (ListenerState::Reading, ListenerInputView::Line(line)) => self.on_line(line),
            (ListenerState::Reading, ListenerInputView::Failed(_)) => (
                self.at(ListenerState::Accepting),
                ListenerActionView::Accept,
            ),
            (ListenerState::Fetching, ListenerInputView::Files(files, present)) => (
                self.at(ListenerState::Replying),
                ListenerActionView::Reply { text: clean_table_text(listing(files, present)) },
            ),
            (ListenerState::Fetching, ListenerInputView::Failed(cause)) => (
                self.at(ListenerState::Replying),
                ListenerActionView::Reply { text: unavailable(cause) },
            ),
            (ListenerState::Replying, ListenerInputView::Done)
            | (ListenerState::Replying, ListenerInputView::Failed(_)) => (
                self.at(ListenerState::Accepting),
                ListenerActionView::Accept,
            ),
            _ => (self.at(ListenerState::Stopped), ListenerActionView::Stop(BusErrorView::OutOfTurn)),
        }
    }

    /// The listener after it was handed `inputs` one after the other.
    pub open spec fn after(self, inputs: Seq<ListenerInputView>) -> ListenerView
        decreases inputs.len(),
    {
        if inputs.len() == 0 {
            self
        } else {
            self.after(inputs.drop_last()).next(inputs.last()).0
        }
    }

    /// What the listener asked for when it was handed the last of `inputs`.
    pub open spec fn asked(self, inputs: Seq<ListenerInputView>) -> ListenerActionView
        recommends
            inputs.len() > 0,
    {
        self.after(inputs.drop_last()).next(inputs.last()).1
    }
}

/// The daemon's end of the command bus.
#[derive(Debug, Clone)]
pub struct CommandListener {
    socket: String,
    command_handler: CommandHandler,
    state: ListenerState,
}

impl View for CommandListener {
    type V = ListenerView;

    closed spec fn view(&self) -> ListenerView {
        ListenerView { socket: self.socket@, state: self.state }
    }
}

impl CommandListener {
    /// A listener for the socket at `socket`, and its first request: to
    /// say whether a file is at that path already.
    pub fn new(socket: &str, command_handler: CommandHandler) -> (r: (CommandListener, ListenerAction))
        ensures
            r.0@ == (ListenerView { socket: socket@, state: ListenerState::Probing }),
            r.1@ == (ListenerActionView::CheckSocket { path: socket@ }),
    {
        (
            CommandListener {
                socket: String::from_str(socket),
                command_handler,
                state: ListenerState::Probing,
            },
            ListenerAction::CheckSocket { path: String::from_str(socket) },
        )
    }

    /// Takes what came of the work last asked for, and says what is asked
    /// next. A connection that fails is given up, and the next one
    /// awaited; only a socket that cannot be bound stops the listener.
    /// Whatever is answered to a client is not empty.
    pub fn listen(&mut self, input: ListenerInput) -> (action: ListenerAction)
        ensures
            (final(self)@, action@) == old(self)@.next(input@),
            action matches ListenerAction::Reply { text } ==> text@.len() > 0,
    {
        let state = self.state;
        self.state = ListenerState::Stopped;
        match (state, input) {
            (ListenerState::Probing, ListenerInput::Presence(there)) => {
                if there {
                    self.state = ListenerState::Clearing;
                    ListenerAction::RemoveStale { path: self.socket.clone() }
                } else {
                    self.state = ListenerState::Binding;
                    ListenerAction::Bind { path: self.socket.clone() }
                }
            },
            (ListenerState::Clearing, ListenerInput::Done) => {
                self.state = ListenerState::Binding;
                ListenerAction::Bind { path: self.socket.clone() }
            },
            (ListenerState::Clearing, ListenerInput::Failed(_)) => {
                self.state = ListenerState::Binding;
                ListenerAction::Bind { path: self.socket.clone() }
            },
            (ListenerState::Binding, ListenerInput::Done) => {
                self.state = ListenerState::Accepting;
                ListenerAction::Accept
            },
            (ListenerState::Binding, ListenerInput::Failed(cause)) => ListenerAction::Stop(
                BusError::BindFailed { path: self.socket.clone(), cause },
            ),
            (ListenerState::Accepting, ListenerInput::Done) => {
                self.state = ListenerState::Reading;
                ListenerAction::ReadLine
            },
            (ListenerState::Accepting, ListenerInput::Failed(_)) => {
                self.state = ListenerState::Accepting;
                ListenerAction::Accept
            },
            (ListenerState::Reading, ListenerInput::Line(line)) => {
                let command = Command::decode(line.as_str());
                match self.command_handler.execute(command) {
                    Execution::FetchFiles => {
                        self.state = ListenerState::Fetching;
                        ListenerAction::FetchFiles
                    },
                    Execution::Reply(text) => {
                        self.state = ListenerState::Replying;
                        ListenerAction::Reply { text }
                    },
                }
            },
            (ListenerState::Reading, ListenerInput::Failed(_)) => {
                self.state = ListenerState::Accepting;
                ListenerAction::Accept
            },
            (ListenerState::Fetching, ListenerInput::Files(files, present)) => {
                self.state = ListenerState::Replying;
                ListenerAction::Reply { text: self.command_handler.list(&files, &present) }
            },
            (ListenerState::Fetching, ListenerInput::Failed(cause)) => {
                self.state = ListenerState::Replying;
                ListenerAction::Reply { text: self.command_handler.failure(cause.as_str()) }
            },
            (ListenerState::Replying, ListenerInput::Done) => {
                self.state = ListenerState::Accepting;
                ListenerAction::Accept
            },
            (ListenerState::Replying, ListenerInput::Failed(_)) => {
                self.state = ListenerState::Accepting;
                ListenerAction::Accept
            },
            _ => ListenerAction::Stop(BusError::OutOfTurn),
        }
    }
}

/// Whether an input says how a piece of work ended, well or not.
pub open spec fn is_end_of_work(input: ListenerInputView) -> bool {
    input is Done || input is Failed
}

/// A socket file left by an earlier run does not keep the daemon from
/// starting: the listener has it removed, then binds the socket, and once
/// that is done waits for connections. It binds even where the file could
/// not be removed.
pub proof fn lemma_stale_socket_is_replaced(socket: Seq<char>, removal: ListenerInputView)
    requires
        is_end_of_work(removal),
    ensures
        ({
            let start = ListenerView { socket, state: ListenerState::Probing };
            let inputs = seq![ListenerInputView::Presence(true), removal, ListenerInputView::Done];
            &&& start.asked(inputs.take(1)) == (ListenerActionView::RemoveStale { path: socket })
            &&& start.asked(inputs.take(2)) == (ListenerActionView::Bind { path: socket })
            &&& start.asked(inputs) == ListenerActionView::Accept
            &&& start.after(inputs) == start.at(ListenerState::Accepting)
        }),
{
    let start = ListenerView { socket, state: ListenerState::Probing };
    let inputs = seq![ListenerInputView::Presence(true), removal, ListenerInputView::Done];
    assert(inputs.take(1).drop_last() =~= Seq::<ListenerInputView>::empty());
    assert(inputs.take(2).drop_last() =~= inputs.take(1));
    assert(inputs.drop_last() =~= inputs.take(2));
    assert(start.after(inputs.take(1)) == start.at(ListenerState::Clearing));
    assert(start.after(inputs.take(2)) == start.at(ListenerState::Binding));
}

/// Without a file at the socket's path the listener binds at once.
pub proof fn lemma_fresh_socket_is_bound(socket: Seq<char>)
    ensures
        ({
            let start = ListenerView { socket, state: ListenerState::Probing };
            start.next(ListenerInputView::Presence(false)) == (
                start.at(ListenerState::Binding),
                ListenerActionView::Bind { path: socket },
            )
        }),
{
}

/// Each connection carries one request and gets one answer. A line that
/// names no command is answered with the text that says so; the listener
/// goes on. After the answer, written or not, the next connection is
/// awaited.
pub proof fn lemma_one_answer_per_connection(
    listener: ListenerView,
    line: Seq<char>,
    files: Seq<RemoteFileDescriptorView>,
    present: Seq<bool>,
    cause: Seq<char>,
    written: ListenerInputView,
)
    requires
        listener.state == ListenerState::Accepting,
        is_end_of_work(written),
    ensures
        listener.next(ListenerInputView::Done) == (
            listener.at(ListenerState::Reading),
            ListenerActionView::ReadLine,
        ),
        command_of_line(line) == Command::Unknown ==> listener.at(ListenerState::Reading).next(
            ListenerInputView::Line(line),
        ) == (listener.at(ListenerState::Replying), ListenerActionView::Reply { text: not_found() }),
        command_of_line(line) == Command::ListFiles ==> listener.at(ListenerState::Reading).next(
            ListenerInputView::Line(line),
        ) == (listener.at(ListenerState::Fetching), ListenerActionView::FetchFiles),
        listener.at(ListenerState::Fetching).next(ListenerInputView::Files(files, present)) == (
            listener.at(ListenerState::Replying),
            ListenerActionView::Reply { text: clean_table_text(listing(files, present)) },
        ),
        listener.at(ListenerState::Fetching).next(ListenerInputView::Failed(cause)) == (
            listener.at(ListenerState::Replying),
            ListenerActionView::Reply { text: unavailable(cause) },
        ),
        listener.at(ListenerState::Replying).next(written) == (listener, ListenerActionView::Accept),
{
    assert(listener.at(ListenerState::Accepting) == listener);
}

/// The listener stops for one reason only, unless it is used out of
/// turn: the socket cannot be bound.
pub proof fn lemma_only_bind_failure_stops(listener: ListenerView, input: ListenerInputView)
    ensures
        listener.next(input).1 matches ListenerActionView::Stop(e) ==> e == BusErrorView::OutOfTurn
            || (listener.state == ListenerState::Binding && input is Failed && e
            == (BusErrorView::BindFailed { path: listener.socket, cause: input->Failed_0 })),
{
}

/// Where the client's end stands: what it waits for.
#[derive(Debug, Clone, Copy, PartialEq, Eq, Structural)]
pub enum WriterState {
    /// The answer whether a file is at the socket's path.
    Probing,
    /// The connection to be made.
    Connecting,
    /// A command to send.
    Connected,
    /// The request to be written.
    Writing,
    /// The answer, up to the end of the connection.
    Reading,
    Closed,
}

/// What came of the work that the writer last asked for.
#[derive(Debug, Clone, PartialEq, Eq)]
pub enum WriterInput {
    /// The work was done: connected, the request written.
    Done,
    /// The work failed, for this cause.
    Failed(String),
    /// Whether a file is at the socket's path.
    Presence(bool),
    /// All that the daemon wrote before it closed the connection.
    Answer(Vec<u8>),
}

pub enum WriterInputView {
    Done,
    Failed(Seq<char>),
    Presence(bool),
    Answer(Seq<u8>),
}

impl View for WriterInput {
    type V = WriterInputView;

    open spec fn view(&self) -> WriterInputView {
        match self {
            WriterInput::Done => WriterInputView::Done,
            WriterInput::Failed(c) => WriterInputView::Failed(c@),
            WriterInput::Presence(there) => WriterInputView::Presence(*there),
            WriterInput::Answer(bytes) => WriterInputView::Answer(bytes@),
        }
    }
}

/// The work that the writer asks of its caller.
#[derive(Debug, PartialEq, Eq)]
pub enum WriterAction {
    /// Say whether a file is at `path`.
    CheckSocket { path: String },
    /// Connect to the socket at `path`.
    Connect { path: String },
    /// Nothing: a command can be sent.
    Ready,
    /// Write `line` to the connection.
    Write { line: String },
    /// Read until the daemon closes the connection.
    ReadToEnd,
    /// The exchange is over: the daemon's answer, or why there is none.
    Finish(Result<String, BusError>),
}

pub enum WriterActionView {
    CheckSocket { path: Seq<char> },
    Connect { path: Seq<char> },
    Ready,
    Write { line: Seq<char> },
    ReadToEnd,
    Finish(Result<Seq<char>, BusErrorView>),
}

impl View for WriterAction {
    type V = WriterActionView;

    open spec fn view(&self) -> WriterActionView {
        match self {
            WriterAction::CheckSocket { path } => WriterActionView::CheckSocket { path: path@ },
            WriterAction::Connect { path } => WriterActionView::Connect { path: path@ },
            WriterAction::Ready => WriterActionView::Ready,
            WriterAction::Write { line } => WriterActionView::Write { line: line@ },
            WriterAction::ReadToEnd => WriterActionView::ReadToEnd,
            WriterAction::Finish(r) => WriterActionView::Finish(
                match r {
                    Ok(text) => Ok(text@),
                    Err(e) => Err(e@),
                },
            ),
        }
    }
}

/// The model of the client's end: the socket's path and where it stands.
pub struct WriterView {
    pub socket: Seq<char>,
    pub state: WriterState,
}

impl WriterView {
    pub open spec fn at(self, state: WriterState) -> WriterView {
        WriterView { state, ..self }
    }

    pub open spec fn fail(self, e: BusErrorView) -> (WriterView, WriterActionView) {
        (self.at(WriterState::Closed), WriterActionView::Finish(Err(e)))
    }

    /// The step that the writer takes on an input.
    pub open spec fn next(self, input: WriterInputView) -> (WriterView, WriterActionView) {
        match (self.state, input) {
            (WriterState::Probing, WriterInputView::Presence(there)) => if there {
                (self.at(WriterState::Connecting), WriterActionView::Connect { path: self.socket })
            } else {
                self.fail(BusErrorView::NoDaemon)
            },
            (WriterState::Connecting, WriterInputView::Done) => (
                self.at(WriterState::Connected),
                WriterActionView::Ready,
            ),
            (WriterState::Connecting, WriterInputView::Failed(cause)) => self.fail(
                BusErrorView::ConnectFailed { path: self.socket, cause },
            ),
            (WriterState::Writing, WriterInputView::Done) => (
                self.at(WriterState::Reading),
                WriterActionView::ReadToEnd,
            ),
            (WriterState::Writing, WriterInputView::Failed(cause)) => self.fail(
                BusErrorView::Io(cause),
            ),
            (WriterState::Reading, WriterInputView::Answer(bytes)) => (
                self.at(WriterState::Closed),
                WriterActionView::Finish(answer_of(bytes)),
            ),
            (WriterState::Reading, WriterInputView::Failed(cause)) => self.fail(
                BusErrorView::Io(cause),
            ),
            _ => self.fail(BusErrorView::OutOfTurn),
        }
    }

    /// The step that the writer takes when it is told to send `command`.
    pub open spec fn sending(self, command: Command) -> (WriterView, WriterActionView) {
        match self.state {
            WriterState::Connected => (
                self.at(WriterState::Writing),
                WriterActionView::Write { line: line_of(command) },
            ),
            _ => self.fail(BusErrorView::OutOfTurn),
        }
    }
}

/// The client's end of the command bus.
#[derive(Debug, Clone)]
pub struct CommandWriter {
    socket: String,
    state: WriterState,
}

impl View for CommandWriter {
    type V = WriterView;

    closed spec fn view(&self) -> WriterView {
        WriterView { socket: self.socket@, state: self.state }
    }
}

impl CommandWriter {
    /// A writer for the socket at `socket`, and its first request: to say
    /// whether a file is at that path. The writer never starts a daemon.
    pub fn new(socket: &str) -> (r: (CommandWriter, WriterAction))
        ensures
            r.0@ == (WriterView { socket: socket@, state: WriterState::Probing }),
            r.1@ == (WriterActionView::CheckSocket { path: socket@ }),
    {
        (
            CommandWriter { socket: String::from_str(socket), state: WriterState::Probing },
            WriterAction::CheckSocket { path: String::from_str(socket) },
        )
    }

    /// Sends `command`: asks for its line to be written.
    pub fn send(&mut self, command: Command) -> (action: WriterAction)
        ensures
            (final(self)@, action@) == old(self)@.sending(command),
    {
        match self.state {
            WriterState::Connected => {
                self.state = WriterState::Writing;
                WriterAction::Write { line: command.encode() }
            },
            _ => {
                self.state = WriterState::Closed;
                WriterAction::Finish(Err(BusError::OutOfTurn))
            },
        }
    }

    /// Takes what came of the work last asked for, and says what is asked
    /// next.
    pub fn advance(&mut self, input: WriterInput) -> (action: WriterAction)
        ensures
            (final(self)@, action@) == old(self)@.next(input@),
    {
        let state = self.state;
        self.state = WriterState::Closed;
        match (state, input) {
            (WriterState::Probing, WriterInput::Presence(there)) => {
                if there {
                    self.state = WriterState::Connecting;
                    WriterAction::Connect { path: self.socket.clone() }
                } else {
                    WriterAction::Finish(Err(BusError::NoDaemon))
                }
            },
            (WriterState::Connecting, WriterInput::Done) => {
                self.state = WriterState::Connected;
                WriterAction::Ready
            },
            (WriterState::Connecting, WriterInput::Failed(cause)) => WriterAction::Finish(
                Err(BusError::ConnectFailed { path: self.socket.clone(), cause }),
            ),
            (WriterState::Writing, WriterInput::Done) => {
                self.state = WriterState::Reading;
                WriterAction::ReadToEnd
            },
            (WriterState::Writing, WriterInput::Failed(cause)) => WriterAction::Finish(
                Err(BusError::Io(cause)),
            ),
            (WriterState::Reading, WriterInput::Answer(bytes)) => WriterAction::Finish(
                decode_response(bytes),
            ),
            (WriterState::Reading, WriterInput::Failed(cause)) => WriterAction::Finish(
                Err(BusError::Io(cause)),
            ),
            _ => WriterAction::Finish(Err(BusError::OutOfTurn)),
        }
    }
}

/// The writer connects only to a socket that is there: without one it
/// ends with the error that no daemon runs, and asks for no connection.
pub proof fn lemma_no_daemon_no_connection(writer: WriterView, input: WriterInputView)
    ensures
        writer.state == WriterState::Probing ==> writer.next(WriterInputView::Presence(false)) == (
            writer.at(WriterState::Closed),
            WriterActionView::Finish(Err(BusErrorView::NoDaemon)),
        ),
        writer.next(input).1 is Connect ==> writer.state == WriterState::Probing && input
            == WriterInputView::Presence(true),
{
}

/// What the writer sends for a command, the listener reads as that
/// command: the line for `ListFiles` makes the listener fetch the files.
pub proof fn lemma_request_is_understood(writer: WriterView, listener: ListenerView, command: Command)
    requires
        writer.state == WriterState::Connected,
        listener.state == ListenerState::Reading,
    ensures
        writer.sending(command).1 matches WriterActionView::Write { line } && command_of_line(line)
            == command && listener.next(ListenerInputView::Line(line)) == listener.on_line(
            line_of(command),
        ),
        command == Command::ListFiles ==> listener.on_line(line_of(command)).1
            == ListenerActionView::FetchFiles,
{
    lemma_round_trip(command);
}

/// The answer that the client gets is the text that the daemon wrote.
pub proof fn lemma_answer_is_what_was_written(text: Seq<char>)
    ensures
        answer_of(encode_utf8(text)) == Ok::<Seq<char>, BusErrorView>(text),
{
    vstd::utf8::encode_utf8_valid_utf8(text);
    vstd::utf8::encode_utf8_decode_utf8(text);
}

} // verus!

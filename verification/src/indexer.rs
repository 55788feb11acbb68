//! The indexer: tells the remote service of files that were created and
//! has them uploaded.
//!
//! It listens to the watcher. To look at the disk, to call the service and
//! to transfer a file are outside work; the indexer decides what is asked
//! next. Whatever fails, it ends the work on that file and is ready for
//! the next event.

use crate::event::{FileEventType, FileSystemEvent, FileSystemEventView};
use crate::paths::{base_name, file_name};
use crate::remote::{
    ChangeNotificationRequest,
    ChangeNotificationRequestView,
    ChangeResponse,
    ChangeResponseView,
    RemoteFileDescriptor,
    RemoteFileDescriptorView,
};
use vstd::prelude::*;
use vstd::string::StringExecFns;

verus! {

/// How the work on one event ended.
#[derive(Debug, Clone, PartialEq, Eq)]
pub enum IndexEnd {
    /// The connection to the service is made.
    Connected,
    /// The file was announced and its upload attempted.
    Indexed,
    /// A directory was created: it holds nothing to upload yet.
    DirectorySkipped,
    /// The event is of a kind that is recognized and not acted upon.
    NotImplemented,
    /// The event reports a failure of the watch.
    WatchFailed,
    /// The event is of no known kind.
    Ignored,
    /// A piece of the work failed, for this cause.
    Failed(String),
    /// The indexer was handed something that it had not asked for.
    OutOfTurn,
}

pub enum IndexEndView {
    Connected,
    Indexed,
    DirectorySkipped,
    NotImplemented,
    WatchFailed,
    Ignored,
    Failed(Seq<char>),
    OutOfTurn,
}

impl View for IndexEnd {
    type V = IndexEndView;

    open spec fn view(&self) -> IndexEndView {
        match self {
            IndexEnd::Connected => IndexEndView::Connected,
            IndexEnd::Indexed => IndexEndView::Indexed,
            IndexEnd::DirectorySkipped => IndexEndView::DirectorySkipped,
            IndexEnd::NotImplemented => IndexEndView::NotImplemented,
            IndexEnd::WatchFailed => IndexEndView::WatchFailed,
            IndexEnd::Ignored => IndexEndView::Ignored,
            IndexEnd::Failed(c) => IndexEndView::Failed(c@),
            IndexEnd::OutOfTurn => IndexEndView::OutOfTurn,
        }
    }
}

/// Where the indexer stands: what it waits for.
#[derive(Debug, Clone, PartialEq, Eq)]
pub enum IndexState {
    /// The connection to the service to be made.
    Connecting,
    /// The next event.
    Idle,
    /// The answer whether `path` is a directory.
    Probing { path: String },
    /// The file at `path` to be opened.
    Opening { path: String },
    /// The service's answer to the announcement of `path`.
    Notifying { path: String },
    /// The upload to end.
    Uploading,
    /// The service could not be reached at the start.
    Unavailable,
}

pub enum IndexStateView {
    Connecting,
    Idle,
    Probing { path: Seq<char> },
    Opening { path: Seq<char> },
    Notifying { path: Seq<char> },
    Uploading,
    Unavailable,
}

impl View for IndexState {
    type V = IndexStateView;

    open spec fn view(&self) -> IndexStateView {
        match self {
            IndexState::Connecting => IndexStateView::Connecting,
            IndexState::Idle => IndexStateView::Idle,
            IndexState::Probing { path } => IndexStateView::Probing { path: path@ },
            IndexState::Opening { path } => IndexStateView::Opening { path: path@ },
            IndexState::Notifying { path } => IndexStateView::Notifying { path: path@ },
            IndexState::Uploading => IndexStateView::Uploading,
            IndexState::Unavailable => IndexStateView::Unavailable,
        }
    }
}

/// What came of the work that the indexer last asked for.
#[derive(Debug, Clone, PartialEq, Eq)]
pub enum IndexInput {
    /// The work was done: connected, the file opened, the upload ended.
    Done,
    /// The work failed, for this cause.
    Failed(String),
    /// Whether the path asked about is a directory.
    IsDirectory(bool),
    /// The answer of the service to the announcement.
    Response(ChangeResponse),
}

pub enum IndexInputView {
    Done,
    Failed(Seq<char>),
    IsDirectory(bool),
    Response(ChangeResponseView),
}

impl View for IndexInput {
    type V = IndexInputView;

    open spec fn view(&self) -> IndexInputView {
        match self {
            IndexInput::Done => IndexInputView::Done,
            IndexInput::Failed(c) => IndexInputView::Failed(c@),
            IndexInput::IsDirectory(is) => IndexInputView::IsDirectory(*is),
            IndexInput::Response(response) => IndexInputView::Response(response@),
        }
    }
}

/// The work that the indexer asks of its caller.
#[derive(Debug, Clone, PartialEq, Eq)]
pub enum IndexerAction {
    /// Connect to the service at `address`.
    Connect { address: String },
    /// Say whether `path` is a directory.
    ProbeDirectory { path: String },
    /// Open the file at `path` for reading.
    Open { path: String },
    /// Announce the change to the service.
    Notify(ChangeNotificationRequest),
    /// Upload the file at `path` to `url`.
    Upload { url: String, path: String },
    /// Nothing is left to do for this event.
    Rest(IndexEnd),
}

pub enum IndexerActionView {
    Connect { address: Seq<char> },
    ProbeDirectory { path: Seq<char> },
    Open { path: Seq<char> },
    Notify(ChangeNotificationRequestView),
    Upload { url: Seq<char>, path: Seq<char> },
    Rest(IndexEndView),
}

impl View for IndexerAction {
    type V = IndexerActionView;

    open spec fn view(&self) -> IndexerActionView {
        match self {
            IndexerAction::Connect { address } => IndexerActionView::Connect { address: address@ },
            IndexerAction::ProbeDirectory { path } => IndexerActionView::ProbeDirectory {
                path: path@,
            },
            IndexerAction::Open { path } => IndexerActionView::Open { path: path@ },
            IndexerAction::Notify(request) => IndexerActionView::Notify(request@),
            IndexerAction::Upload { url, path } => IndexerActionView::Upload {
                url: url@,
                path: path@,
            },
            IndexerAction::Rest(end) => IndexerActionView::Rest(end@),
        }
    }
}

/// The name given to a file whose path ends in no name.
pub open spec fn fallback_name() -> Seq<char> {
    "file"@
}

/// The announcement of a change of kind `kind` to the file at `path`.
pub open spec fn change_request(path: Seq<char>, kind: FileEventType) -> ChangeNotificationRequestView {
    ChangeNotificationRequestView {
        client_name: None,
        event_type: kind,
        file: RemoteFileDescriptorView {
            path,
            base_name: match base_name(path) {
                Some(name) => name,
                None => fallback_name(),
            },
            created: None,
            updated: None,
            version: None,
        },
    }
}

/// The step that an idle indexer takes on an event of the watcher.
pub open spec fn on_watch_event(event: FileSystemEventView) -> (IndexStateView, IndexerActionView) {
    match event {
        FileSystemEventView::Created(path) => (
            IndexStateView::Probing { path },
            IndexerActionView::ProbeDirectory { path },
        ),
        FileSystemEventView::Modified(_)
        | FileSystemEventView::AttributesChanged(_)
        | FileSystemEventView::Removed(_)
        | FileSystemEventView::Renamed(_, _)
        | FileSystemEventView::RescanRequired => (
            IndexStateView::Idle,
            IndexerActionView::Rest(IndexEndView::NotImplemented),
        ),
        FileSystemEventView::Error(_, _) => (
            IndexStateView::Idle,
            IndexerActionView::Rest(IndexEndView::WatchFailed),
        ),
        FileSystemEventView::Other => (
            IndexStateView::Idle,
            IndexerActionView::Rest(IndexEndView::Ignored),
        ),
    }
}

/// The state in which an indexer that was handed something out of turn,
/// or whose work failed, goes on: ready for the next event, unless it
/// never reached the service.
pub open spec fn resting(state: IndexStateView) -> IndexStateView {
    match state {
        IndexStateView::Connecting | IndexStateView::Unavailable => IndexStateView::Unavailable,
        _ => IndexStateView::Idle,
    }
}

/// The step that the indexer takes on an event while it stands at `state`.
pub open spec fn event_step(state: IndexStateView, event: FileSystemEventView) -> (
    IndexStateView,
    IndexerActionView,
) {
    match state {
        IndexStateView::Idle => on_watch_event(event),
        _ => (resting(state), IndexerActionView::Rest(IndexEndView::OutOfTurn)),
    }
}

/// The step that the indexer takes on what came of its last request.
pub open spec fn next(state: IndexStateView, input: IndexInputView) -> (
    IndexStateView,
    IndexerActionView,
) {
    match (state, input) {
        (IndexStateView::Connecting, IndexInputView::Done) => (
            IndexStateView::Idle,
            IndexerActionView::Rest(IndexEndView::Connected),
        ),
        (IndexStateView::Connecting, IndexInputView::Failed(cause)) => (
            IndexStateView::Unavailable,
            IndexerActionView::Rest(IndexEndView::Failed(cause)),
        ),
        (IndexStateView::Probing { path }, IndexInputView::IsDirectory(is)) => if is {
            (IndexStateView::Idle, IndexerActionView::Rest(IndexEndView::DirectorySkipped))
        } else {
            (IndexStateView::Opening { path }, IndexerActionView::Open { path })
        },
        (IndexStateView::Opening { path }, IndexInputView::Done) => (
            IndexStateView::Notifying { path },
            IndexerActionView::Notify(change_request(path, FileEventType::Create)),
        ),
        (IndexStateView::Notifying { path }, IndexInputView::Response(response)) => (
            IndexStateView::Uploading,
            IndexerActionView::Upload { url: response.link, path },
        ),
        (IndexStateView::Uploading, IndexInputView::Done) => (
            IndexStateView::Idle,
            IndexerActionView::Rest(IndexEndView::Indexed),
        ),
        (IndexStateView::Probing { .. }, IndexInputView::Failed(cause))
        | (IndexStateView::Opening { .. }, IndexInputView::Failed(cause))
        | (IndexStateView::Notifying { .. }, IndexInputView::Failed(cause))
        | (IndexStateView::Uploading, IndexInputView::Failed(cause)) => (
            IndexStateView::Idle,
            IndexerActionView::Rest(IndexEndView::Failed(cause)),
        ),
        _ => (resting(state), IndexerActionView::Rest(IndexEndView::OutOfTurn)),
    }
}

/// Announces created files to the remote service and has them uploaded.
#[derive(Debug, Clone, PartialEq, Eq)]
pub struct Indexer {
    state: IndexState,
}

impl View for Indexer {
    type V = IndexStateView;

    closed spec fn view(&self) -> IndexStateView {
        self.state@
    }
}

impl Indexer {
    /// An indexer for the service at `server_url`, and its first request:
    /// to connect.
    pub fn bootstrap(server_url: &str) -> (r: (Indexer, IndexerAction))
        ensures
            r.0@ == IndexStateView::Connecting,
            r.1@ == (IndexerActionView::Connect { address: server_url@ }),
    {
        (
            Indexer { state: IndexState::Connecting },
            IndexerAction::Connect { address: String::from_str(server_url) },
        )
    }

    /// Whether the indexer is ready for an event.
    pub fn is_idle(&self) -> (r: bool)
        ensures
            r == (self@ is Idle),
    {
        match self.state {
            IndexState::Idle => true,
            _ => false,
        }
    }

    /// The announcement of a change of kind `event` to the file at `path`.
    /// The file's name is the last name in its path, or `file` where the
    /// path ends in none.
    pub fn notify(path: &str, event: FileEventType) -> (r: ChangeNotificationRequest)
        ensures
            r@ == change_request(path@, event),
    {
        let base_name = match file_name(path) {
            Some(name) => name,
            None => String::from_str("file"),
        };
        ChangeNotificationRequest {
            client_name: None,
            event_type: event,
            file: RemoteFileDescriptor {
                path: String::from_str(path),
                base_name,
                created: None,
                updated: None,
                version: None,
            },
        }
    }

    /// Takes an event of the watcher. Only the creation of a file leads to
    /// work; a created directory and the other kinds of event are passed
    /// over.
    pub fn on_event(&mut self, event: &FileSystemEvent) -> (action: IndexerAction)
        ensures
            (final(self)@, action@) == event_step(old(self)@, event@),
    {
        let mut state = IndexState::Idle;
        std::mem::swap(&mut self.state, &mut state);
        match state {
            IndexState::Idle => match event {
                FileSystemEvent::Created(path) => {
                    self.state = IndexState::Probing { path: path.clone() };
                    IndexerAction::ProbeDirectory { path: path.clone() }
                },
                FileSystemEvent::Modified(_) => IndexerAction::Rest(IndexEnd::NotImplemented),
                FileSystemEvent::AttributesChanged(_) => IndexerAction::Rest(
                    IndexEnd::NotImplemented,
                ),
                FileSystemEvent::Removed(_) => IndexerAction::Rest(IndexEnd::NotImplemented),
                FileSystemEvent::Renamed(_, _) => IndexerAction::Rest(IndexEnd::NotImplemented),
                FileSystemEvent::RescanRequired => IndexerAction::Rest(IndexEnd::NotImplemented),
                FileSystemEvent::Error(_, _) => IndexerAction::Rest(IndexEnd::WatchFailed),
                FileSystemEvent::Other => IndexerAction::Rest(IndexEnd::Ignored),
            },
            IndexState::Connecting => {
                self.state = IndexState::Unavailable;
                IndexerAction::Rest(IndexEnd::OutOfTurn)
            },
            IndexState::Unavailable => {
                self.state = IndexState::Unavailable;
                IndexerAction::Rest(IndexEnd::OutOfTurn)
            },
            _ => IndexerAction::Rest(IndexEnd::OutOfTurn),
        }
    }

    /// Takes what came of the work last asked for on the way to indexing a
    /// file, and says what is asked next.
    pub fn index(&mut self, input: IndexInput) -> (action: IndexerAction)
        ensures
            (final(self)@, action@) == next(old(self)@, input@),
    {
        let mut state = IndexState::Idle;
        std::mem::swap(&mut self.state, &mut state);
        match (state, input) {
            (IndexState::Connecting, IndexInput::Done) => IndexerAction::Rest(IndexEnd::Connected),
            (IndexState::Connecting, IndexInput::Failed(cause)) => {
                self.state = IndexState::Unavailable;
                IndexerAction::Rest(IndexEnd::Failed(cause))
            },
            (IndexState::Probing { path }, IndexInput::IsDirectory(is)) => {
                if is {
                    IndexerAction::Rest(IndexEnd::DirectorySkipped)
                } else {
                    self.state = IndexState::Opening { path: path.clone() };
                    IndexerAction::Open { path }
                }
            },
            (IndexState::Opening { path }, IndexInput::Done) => {
                let request = Indexer::notify(path.as_str(), FileEventType::Create);
                self.state = IndexState::Notifying { path };
                IndexerAction::Notify(request)
            },
            (IndexState::Notifying { path }, IndexInput::Response(response)) => {
                self.state = IndexState::Uploading;
                IndexerAction::Upload { url: response.link, path }
            },
            (IndexState::Uploading, IndexInput::Done) => IndexerAction::Rest(IndexEnd::Indexed),
            (IndexState::Probing { .. }, IndexInput::Failed(cause)) => IndexerAction::Rest(
                IndexEnd::Failed(cause),
            ),
            (IndexState::Opening { .. }, IndexInput::Failed(cause)) => IndexerAction::Rest(
                IndexEnd::Failed(cause),
            ),
            (IndexState::Notifying { .. }, IndexInput::Failed(cause)) => IndexerAction::Rest(
                IndexEnd::Failed(cause),
            ),
            (IndexState::Uploading, IndexInput::Failed(cause)) => IndexerAction::Rest(
                IndexEnd::Failed(cause),
            ),
            (IndexState::Connecting, _) => {
                self.state = IndexState::Unavailable;
                IndexerAction::Rest(IndexEnd::OutOfTurn)
            },
            (IndexState::Unavailable, _) => {
                self.state = IndexState::Unavailable;
                IndexerAction::Rest(IndexEnd::OutOfTurn)
            },
            _ => IndexerAction::Rest(IndexEnd::OutOfTurn),
        }
    }
}

/// Whether the indexer has reached the service.
pub open spec fn in_service(state: IndexStateView) -> bool {
    !(state is Connecting) && !(state is Unavailable)
}

/// No failure stops the indexer. Whatever it is handed once it has reached
/// the service, it either asks for the next piece of work on the file at
/// hand, or rests, ready for the next event. And an event that reaches it
/// when it is ready is never refused.
pub proof fn lemma_never_stuck(state: IndexStateView, input: IndexInputView, event: FileSystemEventView)
    requires
        in_service(state),
    ensures
        in_service(next(state, input).0),
        next(state, input).1 is Rest ==> next(state, input).0 is Idle,
        input is Failed ==> next(state, input).0 is Idle && next(state, input).1 is Rest,
        in_service(event_step(state, event).0),
        event_step(state, event).1 is Rest ==> event_step(state, event).0 is Idle,
        state is Idle ==> event_step(state, event).1 != IndexerActionView::Rest(
            IndexEndView::OutOfTurn,
        ),
{
}

/// Only the creation of something that is no directory is announced: an
/// announcement is asked for only after a created path was found to be no
/// directory and could be opened, and it is for that path, as a creation.
pub proof fn lemma_only_created_files_are_announced(
    state: IndexStateView,
    input: IndexInputView,
    event: FileSystemEventView,
)
    ensures
        !(event_step(state, event).1 is Notify),
        next(state, input).1 matches IndexerActionView::Notify(request) ==> (state matches IndexStateView::Opening {
            path,
        } && input is Done && request == change_request(path, FileEventType::Create)),
        next(state, input).0 is Opening ==> state is Probing && input == IndexInputView::IsDirectory(
            false,
        ),
        event_step(state, event).0 is Probing ==> state is Idle && event is Created,
        state is Probing ==> next(state, IndexInputView::IsDirectory(true)) == (
            IndexStateView::Idle,
            IndexerActionView::Rest(IndexEndView::DirectorySkipped),
        ),
{
}

/// A file that was created, is no directory and can be opened is announced
/// and then uploaded to the URL that the service returned.
pub proof fn lemma_created_file_is_uploaded(path: Seq<char>, url: Seq<char>)
    ensures
        ({
            let (s1, a1) = event_step(IndexStateView::Idle, FileSystemEventView::Created(path));
            let (s2, a2) = next(s1, IndexInputView::IsDirectory(false));
            let (s3, a3) = next(s2, IndexInputView::Done);
            let (s4, a4) = next(s3, IndexInputView::Response(ChangeResponseView { link: url }));
            let (s5, a5) = next(s4, IndexInputView::Done);
            &&& a1 == (IndexerActionView::ProbeDirectory { path })
            &&& a2 == (IndexerActionView::Open { path })
            &&& a3 == IndexerActionView::Notify(change_request(path, FileEventType::Create))
            &&& a4 == (IndexerActionView::Upload { url, path })
            &&& a5 == IndexerActionView::Rest(IndexEndView::Indexed)
            &&& s5 == IndexStateView::Idle
        }),
{
}

} // verus!

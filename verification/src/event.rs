//! What the watcher reports of the local file system.

use vstd::prelude::*;

verus! {

/// A change under a watched path, after bursts of raw changes were
/// coalesced.
#[derive(Debug, Clone, PartialEq, Eq)]
pub enum FileSystemEvent {
    Created(String),
    Modified(String),
    AttributesChanged(String),
    Removed(String),
    /// The old path and the new one.
    Renamed(String, String),
    /// Changes were lost; the watched paths have to be read again.
    RescanRequired,
    /// The watch failed: the cause, and the path where one is known.
    Error(String, Option<String>),
    Other,
}

pub enum FileSystemEventView {
    Created(Seq<char>),
    Modified(Seq<char>),
    AttributesChanged(Seq<char>),
    Removed(Seq<char>),
    Renamed(Seq<char>, Seq<char>),
    RescanRequired,
    Error(Seq<char>, Option<Seq<char>>),
    Other,
}

impl View for FileSystemEvent {
    type V = FileSystemEventView;

    open spec fn view(&self) -> FileSystemEventView {
        match self {
            FileSystemEvent::Created(p) => FileSystemEventView::Created(p@),
            FileSystemEvent::Modified(p) => FileSystemEventView::Modified(p@),
            FileSystemEvent::AttributesChanged(p) => FileSystemEventView::AttributesChanged(p@),
            FileSystemEvent::Removed(p) => FileSystemEventView::Removed(p@),
            FileSystemEvent::Renamed(old, new) => FileSystemEventView::Renamed(old@, new@),
            FileSystemEvent::RescanRequired => FileSystemEventView::RescanRequired,
            FileSystemEvent::Error(cause, p) => FileSystemEventView::Error(cause@, p.deep_view()),
            FileSystemEvent::Other => FileSystemEventView::Other,
        }
    }
}

/// The kind of change that the remote service is told of.
#[derive(Debug, Clone, Copy, PartialEq, Eq, Structural)]
pub enum FileEventType {
    Create,
    Update,
    Delete,
    Unknown,
}

impl FileSystemEventView {
    /// The kind under which the remote service hears of this event.
    pub open spec fn kind(self) -> FileEventType {
        match self {
            FileSystemEventView::Created(_) => FileEventType::Create,
            FileSystemEventView::Modified(_) => FileEventType::Update,
            FileSystemEventView::Removed(_) => FileEventType::Delete,
            _ => FileEventType::Unknown,
        }
    }
}

impl FileSystemEvent {
    /// A copy of this event.
    pub fn duplicate(&self) -> (r: FileSystemEvent)
        ensures
            r@ == self@,
    {
        match self {
            FileSystemEvent::Created(p) => FileSystemEvent::Created(p.clone()),
            FileSystemEvent::Modified(p) => FileSystemEvent::Modified(p.clone()),
            FileSystemEvent::AttributesChanged(p) => FileSystemEvent::AttributesChanged(p.clone()),
            FileSystemEvent::Removed(p) => FileSystemEvent::Removed(p.clone()),
            FileSystemEvent::Renamed(old, new) => FileSystemEvent::Renamed(old.clone(), new.clone()),
            FileSystemEvent::RescanRequired => FileSystemEvent::RescanRequired,
            FileSystemEvent::Error(cause, p) => FileSystemEvent::Error(
                cause.clone(),
                match p {
                    Some(p) => Some(p.clone()),
                    None => None,
                },
            ),
            FileSystemEvent::Other => FileSystemEvent::Other,
        }
    }
}

impl FileEventType {
    /// The kind under which the remote service hears of `event`.
    pub fn from(event: &FileSystemEvent) -> (r: FileEventType)
        ensures
            r == event@.kind(),
    {
        match event {
            FileSystemEvent::Created(_) => FileEventType::Create,
            FileSystemEvent::Modified(_) => FileEventType::Update,
            FileSystemEvent::Removed(_) => FileEventType::Delete,
            _ => FileEventType::Unknown,
        }
    }
}

} // verus!

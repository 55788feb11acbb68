//! The messages exchanged with the remote service.

use crate::event::FileEventType;
use vstd::prelude::*;

verus! {

/// A file as the remote service knows it. The path identifies it; the
/// version is advisory.
#[derive(Debug, Clone, PartialEq, Eq)]
pub struct RemoteFileDescriptor {
    pub path: String,
    pub base_name: String,
    pub created: Option<u64>,
    pub updated: Option<u64>,
    pub version: Option<u64>,
}

pub struct RemoteFileDescriptorView {
    pub path: Seq<char>,
    pub base_name: Seq<char>,
    pub created: Option<u64>,
    pub updated: Option<u64>,
    pub version: Option<u64>,
}

impl View for RemoteFileDescriptor {
    type V = RemoteFileDescriptorView;

    open spec fn view(&self) -> RemoteFileDescriptorView {
        RemoteFileDescriptorView {
            path: self.path@,
            base_name: self.base_name@,
            created: self.created,
            updated: self.updated,
            version: self.version,
        }
    }
}

impl DeepView for RemoteFileDescriptor {
    type V = RemoteFileDescriptorView;

    open spec fn deep_view(&self) -> RemoteFileDescriptorView {
        self@
    }
}

/// Tells the remote service of a local change. It answers each request
/// with one `ChangeResponse`.
#[derive(Debug, Clone, PartialEq, Eq)]
pub struct ChangeNotificationRequest {
    pub client_name: Option<String>,
    pub event_type: FileEventType,
    pub file: RemoteFileDescriptor,
}

pub struct ChangeNotificationRequestView {
    pub client_name: Option<Seq<char>>,
    pub event_type: FileEventType,
    pub file: RemoteFileDescriptorView,
}

impl View for ChangeNotificationRequest {
    type V = ChangeNotificationRequestView;

    open spec fn view(&self) -> ChangeNotificationRequestView {
        ChangeNotificationRequestView {
            client_name: self.client_name.deep_view(),
            event_type: self.event_type,
            file: self.file@,
        }
    }
}

/// The answer of the remote service: the transfer URL for the file asked
/// about.
#[derive(Debug, Clone, PartialEq, Eq)]
pub struct ChangeResponse {
    pub link: String,
}

pub struct ChangeResponseView {
    pub link: Seq<char>,
}

impl View for ChangeResponse {
    type V = ChangeResponseView;

    open spec fn view(&self) -> ChangeResponseView {
        ChangeResponseView { link: self.link@ }
    }
}

/// Asks the remote service where a file can be fetched.
#[derive(Debug, Clone, PartialEq, Eq)]
pub struct DownloadRequest {
    pub client_name: Option<String>,
    pub path: String,
    pub version: Option<String>,
}

pub struct DownloadRequestView {
    pub client_name: Option<Seq<char>>,
    pub path: Seq<char>,
    pub version: Option<Seq<char>>,
}

impl View for DownloadRequest {
    type V = DownloadRequestView;

    open spec fn view(&self) -> DownloadRequestView {
        DownloadRequestView {
            client_name: self.client_name.deep_view(),
            path: self.path@,
            version: self.version.deep_view(),
        }
    }
}

/// What the remote service pushes to its subscribers. One without a file
/// is a heartbeat.
#[derive(Debug, Clone, PartialEq, Eq)]
pub struct RemoteNotification {
    pub file: Option<RemoteFileDescriptor>,
}

pub struct RemoteNotificationView {
    pub file: Option<RemoteFileDescriptorView>,
}

impl View for RemoteNotification {
    type V = RemoteNotificationView;

    open spec fn view(&self) -> RemoteNotificationView {
        RemoteNotificationView { file: self.file.deep_view() }
    }
}

/// How an upload ended.
#[derive(Debug, Clone, Copy, PartialEq, Eq, Structural)]
pub enum TransferStatus {
    Success,
    Failure,
}

/// The report of one upload attempt.
#[derive(Debug, Clone, PartialEq, Eq)]
pub struct TransferOutcome {
    pub path: String,
    pub status: TransferStatus,
    pub message: Option<String>,
}

pub struct TransferOutcomeView {
    pub path: Seq<char>,
    pub status: TransferStatus,
    pub message: Option<Seq<char>>,
}

impl View for TransferOutcome {
    type V = TransferOutcomeView;

    open spec fn view(&self) -> TransferOutcomeView {
        TransferOutcomeView {
            path: self.path@,
            status: self.status,
            message: self.message.deep_view(),
        }
    }
}

} // verus!

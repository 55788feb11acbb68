//! The synchronizer: applies what the remote service announces to the
//! local file system.
//!
//! It holds a subscription to the service's notifications. For each file
//! announced it asks whether a file is there already; only where none is,
//! it asks for a link and has the file downloaded. The waiting, the
//! look at the disk and the transfers are outside work.

use crate::remote::{
    ChangeResponse,
    ChangeResponseView,
    DownloadRequest,
    DownloadRequestView,
    RemoteNotification,
    RemoteNotificationView,
};
use vstd::prelude::*;
use vstd::string::StringExecFns;

verus! {

/// Why the synchronizer stopped.
#[derive(Debug, Clone, PartialEq, Eq)]
pub enum SyncEnd {
    /// The service closed the stream.
    Ended,
    /// The subscription could not be opened.
    SubscribeFailed(String),
    /// The stream broke.
    StreamFailed(String),
    /// The synchronizer was handed something that it had not asked for.
    OutOfTurn,
}

pub enum SyncEndView {
    Ended,
    SubscribeFailed(Seq<char>),
    StreamFailed(Seq<char>),
    OutOfTurn,
}

impl View for SyncEnd {
    type V = SyncEndView;

    open spec fn view(&self) -> SyncEndView {
        match self {
            SyncEnd::Ended => SyncEndView::Ended,
            SyncEnd::SubscribeFailed(c) => SyncEndView::SubscribeFailed(c@),
            SyncEnd::StreamFailed(c) => SyncEndView::StreamFailed(c@),
            SyncEnd::OutOfTurn => SyncEndView::OutOfTurn,
        }
    }
}

/// Where the synchronizer stands: what it waits for.
#[derive(Debug, Clone, PartialEq, Eq)]
pub enum SyncState {
    /// The subscription to be opened.
    Subscribing,
    /// The next notification.
    Listening,
    /// The answer whether a file is at `path`.
    Checking { path: String },
    /// The link for the file at `path`.
    Requesting { path: String },
    /// The download to end.
    Downloading,
    Stopped,
}

pub enum SyncStateView {
    Subscribing,
    Listening,
    Checking { path: Seq<char> },
    Requesting { path: Seq<char> },
    Downloading,
    Stopped,
}

impl View for SyncState {
    type V = SyncStateView;

    open spec fn view(&self) -> SyncStateView {
        match self {
            SyncState::Subscribing => SyncStateView::Subscribing,
            SyncState::Listening => SyncStateView::Listening,
            SyncState::Checking { path } => SyncStateView::Checking { path: path@ },
            SyncState::Requesting { path } => SyncStateView::Requesting { path: path@ },
            SyncState::Downloading => SyncStateView::Downloading,
            SyncState::Stopped => SyncStateView::Stopped,
        }
    }
}

/// What came of the work that the synchronizer last asked for.
#[derive(Debug, Clone, PartialEq, Eq)]
pub enum SyncInput {
    /// The work was done: the subscription opened, the download ended.
    Done,
    /// The work failed, for this cause.
    Failed(String),
    /// The service sent a notification.
    Notification(RemoteNotification),
    /// The service closed the stream.
    StreamEnded,
    /// Whether a file is at the path asked about.
    Presence(bool),
    /// The answer of the service: where the file can be fetched.
    Response(ChangeResponse),
}

pub enum SyncInputView {
    Done,
    Failed(Seq<char>),
    Notification(RemoteNotificationView),
    StreamEnded,
    Presence(bool),
    Response(ChangeResponseView),
}

impl View for SyncInput {
    type V = SyncInputView;

    open spec fn view(&self) -> SyncInputView {
        match self {
            SyncInput::Done => SyncInputView::Done,
            SyncInput::Failed(c) => SyncInputView::Failed(c@),
            SyncInput::Notification(n) => SyncInputView::Notification(n@),
            SyncInput::StreamEnded => SyncInputView::StreamEnded,
            SyncInput::Presence(there) => SyncInputView::Presence(*there),
            SyncInput::Response(response) => SyncInputView::Response(response@),
        }
    }
}

/// The work that the synchronizer asks of its caller.
#[derive(Debug, Clone, PartialEq, Eq)]
pub enum SyncAction {
    /// Open the subscription at the service at `address`.
    Subscribe { address: String },
    /// Wait for the next message of the stream.
    Receive,
    /// Say whether a file is at `path`.
    CheckPresence { path: String },
    /// Ask the service for a link.
    RequestLink(DownloadRequest),
    /// Download `url` to the file at `dest`.
    Download { url: String, dest: String },
    /// Stop listening.
    Stop(SyncEnd),
}

pub enum SyncActionView {
    Subscribe { address: Seq<char> },
    Receive,
    CheckPresence { path: Seq<char> },
    RequestLink(DownloadRequestView),
    Download { url: Seq<char>, dest: Seq<char> },
    Stop(SyncEndView),
}

impl View for SyncAction {
    type V = SyncActionView;

    open spec fn view(&self) -> SyncActionView {
        match self {
            SyncAction::Subscribe { address } => SyncActionView::Subscribe { address: address@ },
            SyncAction::Receive => SyncActionView::Receive,
            SyncAction::CheckPresence { path } => SyncActionView::CheckPresence { path: path@ },
            SyncAction::RequestLink(request) => SyncActionView::RequestLink(request@),
            SyncAction::Download { url, dest } => SyncActionView::Download { url: url@, dest: dest@ },
            SyncAction::Stop(end) => SyncActionView::Stop(end@),
        }
    }
}

/// The version asked for: versions are not kept yet.
pub open spec fn requested_version() -> Seq<char> {
    "1"@
}

/// The request for a link to the file at `path`.
pub open spec fn link_request(path: Seq<char>) -> DownloadRequestView {
    DownloadRequestView { client_name: None, path, version: Some(requested_version()) }
}

/// The step that the synchronizer takes on an input.
pub open spec fn next(state: SyncStateView, input: SyncInputView) -> (SyncStateView, SyncActionView) {
    match (state, input) {
        (SyncStateView::Subscribing, SyncInputView::Done) => (
            SyncStateView::Listening,
            SyncActionView::Receive,
        ),
        (SyncStateView::Subscribing, SyncInputView::Failed(cause)) => (
            SyncStateView::Stopped,
            SyncActionView::Stop(SyncEndView::SubscribeFailed(cause)),
        ),
        (SyncStateView::Listening, SyncInputView::Notification(notification)) => match notification.file {
            Some(file) => (
                SyncStateView::Checking { path: file.path },
                SyncActionView::CheckPresence { path: file.path },
            ),
            None => (SyncStateView::Listening, SyncActionView::Receive),
        },
        (SyncStateView::Listening, SyncInputView::StreamEnded) => (
            SyncStateView::Stopped,
            SyncActionView::Stop(SyncEndView::Ended),
        ),
        (SyncStateView::Listening, SyncInputView::Failed(cause)) => (
            SyncStateView::Stopped,
            SyncActionView::Stop(SyncEndView::StreamFailed(cause)),
        ),
        (SyncStateView::Checking { path }, SyncInputView::Presence(there)) => if there {
            (SyncStateView::Listening, SyncActionView::Receive)
        } else {
            (SyncStateView::Requesting { path }, SyncActionView::RequestLink(link_request(path)))
        },
        (SyncStateView::Requesting { path }, SyncInputView::Response(response)) => (
            SyncStateView::Downloading,
            SyncActionView::Download { url: response.link, dest: path },
        ),
        (SyncStateView::Requesting { .. }, SyncInputView::Failed(_)) => (
            SyncStateView::Listening,
            SyncActionView::Receive,
        ),
        (SyncStateView::Downloading, SyncInputView::Done) => (
            SyncStateView::Listening,
            SyncActionView::Receive,
        ),
        (SyncStateView::Downloading, SyncInputView::Failed(_)) => (
            SyncStateView::Listening,
            SyncActionView::Receive,
        ),
        _ => (SyncStateView::Stopped, SyncActionView::Stop(SyncEndView::OutOfTurn)),
    }
}

/// What the synchronizer asks for, step by step, as it is handed `inputs`
/// one after the other.
pub open spec fn run(state: SyncStateView, inputs: Seq<SyncInputView>) -> Seq<SyncActionView>
    decreases inputs.len(),
{
    if inputs.len() == 0 {
        Seq::empty()
    } else {
        let (after, action) = next(state, inputs[0]);
        seq![action] + run(after, inputs.drop_first())
    }
}

/// Where the synchronizer stands after `inputs`.
pub open spec fn after(state: SyncStateView, inputs: Seq<SyncInputView>) -> SyncStateView
    decreases inputs.len(),
{
    if inputs.len() == 0 {
        state
    } else {
        after(next(state, inputs[0]).0, inputs.drop_first())
    }
}

/// How many of `actions` are downloads.
pub open spec fn downloads(actions: Seq<SyncActionView>) -> nat
    decreases actions.len(),
{
    if actions.len() == 0 {
        0
    } else if actions[0] is Download {
        1 + downloads(actions.drop_first())
    } else {
        downloads(actions.drop_first())
    }
}

/// Follows the notifications of the remote service.
#[derive(Debug, Clone, PartialEq, Eq)]
pub struct Synchronizer {
    state: SyncState,
}

impl View for Synchronizer {
    type V = SyncStateView;

    closed spec fn view(&self) -> SyncStateView {
        self.state@
    }
}

impl Synchronizer {
    /// A synchronizer for the service at `server_address`, and its first
    /// request: to open the subscription.
    pub fn bootstrap(server_address: &str) -> (r: (Synchronizer, SyncAction))
        ensures
            r.0@ == SyncStateView::Subscribing,
            r.1@ == (SyncActionView::Subscribe { address: server_address@ }),
    {
        (
            Synchronizer { state: SyncState::Subscribing },
            SyncAction::Subscribe { address: String::from_str(server_address) },
        )
    }

    /// Whether the synchronizer has stopped.
    pub fn is_stopped(&self) -> (r: bool)
        ensures
            r == (self@ is Stopped),
    {
        match self.state {
            SyncState::Stopped => true,
            _ => false,
        }
    }

    /// Takes what came of the work last asked for, and says what is asked
    /// next. A file that is announced and is there already is left alone.
    /// A link that cannot be had or a download that fails ends the work on
    /// that file only. The end of the stream, or its failure, stops the
    /// synchronizer.
    pub fn listen(&mut self, input: SyncInput) -> (action: SyncAction)
        ensures
            (final(self)@, action@) == next(old(self)@, input@),
    {
        let mut state = SyncState::Stopped;
        std::mem::swap(&mut self.state, &mut state);
        match (state, input) {
            (SyncState::Subscribing, SyncInput::Done) => {
                self.state = SyncState::Listening;
                SyncAction::Receive
            },
            (SyncState::Subscribing, SyncInput::Failed(cause)) => SyncAction::Stop(
                SyncEnd::SubscribeFailed(cause),
            ),
            (SyncState::Listening, SyncInput::Notification(notification)) => {
                match notification.file {
                    Some(file) => {
                        let path = file.path;
                        self.state = SyncState::Checking { path: path.clone() };
                        SyncAction::CheckPresence { path }
                    },
                    None => {
                        self.state = SyncState::Listening;
                        SyncAction::Receive
                    },
                }
            },
            (SyncState::Listening, SyncInput::StreamEnded) => SyncAction::Stop(SyncEnd::Ended),
            (SyncState::Listening, SyncInput::Failed(cause)) => SyncAction::Stop(
                SyncEnd::StreamFailed(cause),
            ),
            (SyncState::Checking { path }, SyncInput::Presence(there)) => {
                if there {
                    self.state = SyncState::Listening;
                    SyncAction::Receive
                } else {
                    self.state = SyncState::Requesting { path: path.clone() };
                    SyncAction::RequestLink(
                        DownloadRequest {
                            client_name: None,
                            path,
                            version: Some(String::from_str("1")),
                        },
                    )
                }
            },
            (SyncState::Requesting { path }, SyncInput::Response(response)) => {
                self.state = SyncState::Downloading;
                SyncAction::Download { url: response.link, dest: path }
            },
            (SyncState::Requesting { .. }, SyncInput::Failed(_)) => {
                self.state = SyncState::Listening;
                SyncAction::Receive
            },
            (SyncState::Downloading, SyncInput::Done) => {
                self.state = SyncState::Listening;
                SyncAction::Receive
            },
            (SyncState::Downloading, SyncInput::Failed(_)) => {
                self.state = SyncState::Listening;
                SyncAction::Receive
            },
            _ => SyncAction::Stop(SyncEnd::OutOfTurn),
        }
    }
}

/// The downloads of a run are that of its first step and those of the rest.
pub proof fn lemma_downloads_step(state: SyncStateView, inputs: Seq<SyncInputView>)
    requires
        inputs.len() > 0,
    ensures
        downloads(run(state, inputs)) == (if next(state, inputs[0]).1 is Download {
            1nat
        } else {
            0nat
        }) + downloads(run(next(state, inputs[0]).0, inputs.drop_first())),
{
    let (then, action) = next(state, inputs[0]);
    let rest = run(then, inputs.drop_first());
    assert((seq![action] + rest).drop_first() =~= rest);
}

/// A file that is announced and is there already is not downloaded: the
/// synchronizer asks whether it is there, and on the answer that it is,
/// waits for the next notification.
pub proof fn lemma_present_file_is_left_alone(notification: RemoteNotificationView)
    requires
        notification.file is Some,
    ensures
        ({
            let path = notification.file->0.path;
            let inputs = seq![
                SyncInputView::Notification(notification),
                SyncInputView::Presence(true),
            ];
            &&& run(SyncStateView::Listening, inputs) == seq![
                SyncActionView::CheckPresence { path },
                SyncActionView::Receive,
            ]
            &&& downloads(run(SyncStateView::Listening, inputs)) == 0
            &&& after(SyncStateView::Listening, inputs) == SyncStateView::Listening
        }),
{
    let inputs = seq![SyncInputView::Notification(notification), SyncInputView::Presence(true)];
    let path = notification.file->0.path;
    let one = inputs.drop_first();
    let none = one.drop_first();
    assert(none =~= Seq::<SyncInputView>::empty());
    assert(one[0] == SyncInputView::Presence(true));
    lemma_downloads_step(SyncStateView::Listening, inputs);
    lemma_downloads_step(SyncStateView::Checking { path }, one);
    assert(after(SyncStateView::Listening, none) == SyncStateView::Listening);
    assert(after(SyncStateView::Checking { path }, one) == SyncStateView::Listening);
    assert(run(SyncStateView::Listening, none) =~= Seq::<SyncActionView>::empty());
    assert(run(SyncStateView::Checking { path }, one) =~= seq![SyncActionView::Receive]);
    assert(run(SyncStateView::Listening, inputs) =~= seq![
        SyncActionView::CheckPresence { path },
        SyncActionView::Receive,
    ]);
}

/// A file that is announced and is not there is downloaded exactly once,
/// from the link that the service returned, to the path announced. How
/// the download ends does not matter: the synchronizer waits for the next
/// notification.
pub proof fn lemma_absent_file_is_downloaded_once(
    notification: RemoteNotificationView,
    url: Seq<char>,
    end: SyncInputView,
)
    requires
        notification.file is Some,
        end is Done || end is Failed,
    ensures
        ({
            let path = notification.file->0.path;
            let inputs = seq![
                SyncInputView::Notification(notification),
                SyncInputView::Presence(false),
                SyncInputView::Response(ChangeResponseView { link: url }),
                end,
            ];
            &&& run(SyncStateView::Listening, inputs) == seq![
                SyncActionView::CheckPresence { path },
                SyncActionView::RequestLink(link_request(path)),
                SyncActionView::Download { url, dest: path },
                SyncActionView::Receive,
            ]
            &&& downloads(run(SyncStateView::Listening, inputs)) == 1
            &&& after(SyncStateView::Listening, inputs) == SyncStateView::Listening
        }),
{
    let path = notification.file->0.path;
    let inputs = seq![
        SyncInputView::Notification(notification),
        SyncInputView::Presence(false),
        SyncInputView::Response(ChangeResponseView { link: url }),
        end,
    ];
    let three = inputs.drop_first();
    let two = three.drop_first();
    let one = two.drop_first();
    let none = one.drop_first();
    assert(none =~= Seq::<SyncInputView>::empty());
    assert(three[0] == SyncInputView::Presence(false));
    assert(two[0] == SyncInputView::Response(ChangeResponseView { link: url }));
    assert(one[0] == end);
    lemma_downloads_step(SyncStateView::Listening, inputs);
    lemma_downloads_step(SyncStateView::Checking { path }, three);
    lemma_downloads_step(SyncStateView::Requesting { path }, two);
    lemma_downloads_step(SyncStateView::Downloading, one);
    assert(after(SyncStateView::Listening, none) == SyncStateView::Listening);
    assert(after(SyncStateView::Downloading, one) == SyncStateView::Listening);
    assert(after(SyncStateView::Requesting { path }, two) == SyncStateView::Listening);
    assert(after(SyncStateView::Checking { path }, three) == SyncStateView::Listening);
    assert(run(SyncStateView::Listening, none) =~= Seq::<SyncActionView>::empty());
    assert(run(SyncStateView::Downloading, one) =~= seq![SyncActionView::Receive]);
    assert(run(SyncStateView::Requesting { path }, two) =~= seq![
        SyncActionView::Download { url, dest: path },
        SyncActionView::Receive,
    ]);
    assert(run(SyncStateView::Checking { path }, three) =~= seq![
        SyncActionView::RequestLink(link_request(path)),
        SyncActionView::Download { url, dest: path },
        SyncActionView::Receive,
    ]);
    assert(run(SyncStateView::Listening, inputs) =~= seq![
        SyncActionView::CheckPresence { path },
        SyncActionView::RequestLink(link_request(path)),
        SyncActionView::Download { url, dest: path },
        SyncActionView::Receive,
    ]);
}

/// A download is asked for in one situation only: a link has arrived for
/// a file that was announced and found absent. It is for that link and to
/// that file's path.
pub proof fn lemma_download_needs_absence(state: SyncStateView, input: SyncInputView)
    ensures
        next(state, input).1 matches SyncActionView::Download { url, dest } ==> state
            == (SyncStateView::Requesting { path: dest }) && input == SyncInputView::Response(ChangeResponseView { link: url }),
        next(state, input).0 is Requesting ==> state is Checking && input
            == SyncInputView::Presence(false),
        next(state, input).0 is Checking ==> state is Listening && input is Notification,
{
}

/// A heartbeat, a notification without a file, asks for nothing.
pub proof fn lemma_heartbeat_is_no_op()
    ensures
        next(
            SyncStateView::Listening,
            SyncInputView::Notification(RemoteNotificationView { file: None }),
        ) == (SyncStateView::Listening, SyncActionView::Receive),
{
}

} // verus!

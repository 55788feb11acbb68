use polydrive_client::remote::{ChangeResponse, DownloadRequest, RemoteFileDescriptor, RemoteNotification};
use polydrive_client::synchronizer::{SyncAction, SyncEnd, SyncInput, Synchronizer};

const PATH: &str = "/data/remote.txt";

fn listening() -> Synchronizer {
    let (mut sync, first) = Synchronizer::bootstrap("http://localhost:8090");
    assert_eq!(first, SyncAction::Subscribe { address: "http://localhost:8090".to_string() });
    assert_eq!(sync.listen(SyncInput::Done), SyncAction::Receive);
    sync
}

fn announced(path: &str) -> SyncInput {
    SyncInput::Notification(RemoteNotification {
        file: Some(RemoteFileDescriptor {
            path: path.to_string(),
            base_name: "remote.txt".to_string(),
            created: Some(1),
            updated: None,
            version: Some(4),
        }),
    })
}

fn link(url: &str) -> SyncInput {
    SyncInput::Response(ChangeResponse { link: url.to_string() })
}

fn downloads(actions: &[SyncAction]) -> usize {
    actions.iter().filter(|a| matches!(a, SyncAction::Download { .. })).count()
}

#[test]
fn a_file_that_is_there_is_not_downloaded() {
    let mut sync = listening();
    let actions = vec![sync.listen(announced(PATH)), sync.listen(SyncInput::Presence(true))];
    assert_eq!(actions, vec![SyncAction::CheckPresence { path: PATH.to_string() }, SyncAction::Receive]);
    assert_eq!(downloads(&actions), 0);
}

#[test]
fn a_file_that_is_not_there_is_downloaded_once() {
    let mut sync = listening();
    let actions = vec![
        sync.listen(announced(PATH)),
        sync.listen(SyncInput::Presence(false)),
        sync.listen(link("http://store/x")),
        sync.listen(SyncInput::Done),
    ];
    assert_eq!(
        actions,
        vec![
            SyncAction::CheckPresence { path: PATH.to_string() },
            SyncAction::RequestLink(DownloadRequest {
                client_name: None,
                path: PATH.to_string(),
                version: Some("1".to_string()),
            }),
            SyncAction::Download { url: "http://store/x".to_string(), dest: PATH.to_string() },
            SyncAction::Receive,
        ]
    );
    assert_eq!(downloads(&actions), 1);
}

#[test]
fn a_heartbeat_asks_for_nothing() {
    let mut sync = listening();
    assert_eq!(sync.listen(SyncInput::Notification(RemoteNotification { file: None })), SyncAction::Receive);
    assert_eq!(sync.listen(announced(PATH)), SyncAction::CheckPresence { path: PATH.to_string() });
}

#[test]
fn a_link_that_cannot_be_had_ends_the_work_on_that_file_only() {
    let mut sync = listening();
    sync.listen(announced(PATH));
    sync.listen(SyncInput::Presence(false));
    assert_eq!(sync.listen(SyncInput::Failed("unavailable".to_string())), SyncAction::Receive);
    assert_eq!(sync.listen(announced("/b")), SyncAction::CheckPresence { path: "/b".to_string() });
    assert!(!sync.is_stopped());
}

#[test]
fn a_download_that_fails_ends_the_work_on_that_file_only() {
    let mut sync = listening();
    sync.listen(announced(PATH));
    sync.listen(SyncInput::Presence(false));
    sync.listen(link("u"));
    assert_eq!(sync.listen(SyncInput::Failed("404".to_string())), SyncAction::Receive);
    assert!(!sync.is_stopped());
}

#[test]
fn the_end_of_the_stream_stops_the_synchronizer() {
    let mut sync = listening();
    assert_eq!(sync.listen(SyncInput::StreamEnded), SyncAction::Stop(SyncEnd::Ended));
    assert!(sync.is_stopped());
    assert_eq!(sync.listen(announced(PATH)), SyncAction::Stop(SyncEnd::OutOfTurn));
}

#[test]
fn a_broken_stream_stops_the_synchronizer() {
    let mut sync = listening();
    assert_eq!(
        sync.listen(SyncInput::Failed("reset".to_string())),
        SyncAction::Stop(SyncEnd::StreamFailed("reset".to_string()))
    );
    assert!(sync.is_stopped());
}

#[test]
fn a_subscription_that_fails_stops_the_synchronizer() {
    let (mut sync, _) = Synchronizer::bootstrap("http://nowhere");
    assert_eq!(
        sync.listen(SyncInput::Failed("refused".to_string())),
        SyncAction::Stop(SyncEnd::SubscribeFailed("refused".to_string()))
    );
    assert!(sync.is_stopped());
}

#[test]
fn the_synchronizer_refuses_what_it_did_not_ask_for() {
    let mut sync = listening();
    assert_eq!(sync.listen(SyncInput::Presence(false)), SyncAction::Stop(SyncEnd::OutOfTurn));
    let mut sync = listening();
    assert_eq!(sync.listen(link("u")), SyncAction::Stop(SyncEnd::OutOfTurn));
}

use polydrive_client::event::{FileEventType, FileSystemEvent};
use polydrive_client::indexer::{IndexEnd, IndexInput, Indexer, IndexerAction};
use polydrive_client::remote::{ChangeNotificationRequest, ChangeResponse, RemoteFileDescriptor};

const PATH: &str = "/watched/new.txt";

fn idle() -> Indexer {
    let (mut indexer, first) = Indexer::bootstrap("http://localhost:8090");
    assert_eq!(first, IndexerAction::Connect { address: "http://localhost:8090".to_string() });
    assert_eq!(indexer.index(IndexInput::Done), IndexerAction::Rest(IndexEnd::Connected));
    assert!(indexer.is_idle());
    indexer
}

fn link(url: &str) -> IndexInput {
    IndexInput::Response(ChangeResponse { link: url.to_string() })
}

fn request(path: &str, base_name: &str, event_type: FileEventType) -> ChangeNotificationRequest {
    ChangeNotificationRequest {
        client_name: None,
        event_type,
        file: RemoteFileDescriptor {
            path: path.to_string(),
            base_name: base_name.to_string(),
            created: None,
            updated: None,
            version: None,
        },
    }
}

#[test]
fn a_created_file_is_announced_and_uploaded() {
    let mut indexer = idle();
    assert_eq!(
        indexer.on_event(&FileSystemEvent::Created(PATH.to_string())),
        IndexerAction::ProbeDirectory { path: PATH.to_string() }
    );
    assert_eq!(indexer.index(IndexInput::IsDirectory(false)), IndexerAction::Open { path: PATH.to_string() });
    assert_eq!(
        indexer.index(IndexInput::Done),
        IndexerAction::Notify(request(PATH, "new.txt", FileEventType::Create))
    );
    assert_eq!(
        indexer.index(link("http://store/put")),
        IndexerAction::Upload { url: "http://store/put".to_string(), path: PATH.to_string() }
    );
    assert_eq!(indexer.index(IndexInput::Done), IndexerAction::Rest(IndexEnd::Indexed));
    assert!(indexer.is_idle());
}

#[test]
fn a_created_directory_is_passed_over() {
    let mut indexer = idle();
    indexer.on_event(&FileSystemEvent::Created("/watched/dir".to_string()));
    assert_eq!(indexer.index(IndexInput::IsDirectory(true)), IndexerAction::Rest(IndexEnd::DirectorySkipped));
    assert!(indexer.is_idle());
}

#[test]
fn other_kinds_of_event_are_only_recognized() {
    let events = [
        FileSystemEvent::Modified(PATH.to_string()),
        FileSystemEvent::AttributesChanged(PATH.to_string()),
        FileSystemEvent::Removed(PATH.to_string()),
        FileSystemEvent::Renamed("/a".to_string(), "/b".to_string()),
        FileSystemEvent::RescanRequired,
    ];
    let mut indexer = idle();
    for event in events.iter() {
        assert_eq!(indexer.on_event(event), IndexerAction::Rest(IndexEnd::NotImplemented));
        assert!(indexer.is_idle());
    }
    assert_eq!(
        indexer.on_event(&FileSystemEvent::Error("overflow".to_string(), Some(PATH.to_string()))),
        IndexerAction::Rest(IndexEnd::WatchFailed)
    );
    assert_eq!(
        indexer.on_event(&FileSystemEvent::Error("overflow".to_string(), None)),
        IndexerAction::Rest(IndexEnd::WatchFailed)
    );
    assert_eq!(indexer.on_event(&FileSystemEvent::Other), IndexerAction::Rest(IndexEnd::Ignored));
    assert!(indexer.is_idle());
}

#[test]
fn no_failure_stops_the_indexer() {
    let steps: [&[IndexInput]; 4] = [
        &[],
        &[IndexInput::IsDirectory(false)],
        &[IndexInput::IsDirectory(false), IndexInput::Done],
        &[IndexInput::IsDirectory(false), IndexInput::Done, link("u")],
    ];
    for before in steps {
        let mut indexer = idle();
        indexer.on_event(&FileSystemEvent::Created(PATH.to_string()));
        for input in before {
            indexer.index(input.clone());
        }
        assert_eq!(
            indexer.index(IndexInput::Failed("boom".to_string())),
            IndexerAction::Rest(IndexEnd::Failed("boom".to_string()))
        );
        assert!(indexer.is_idle());
        assert_eq!(
            indexer.on_event(&FileSystemEvent::Created("/next".to_string())),
            IndexerAction::ProbeDirectory { path: "/next".to_string() }
        );
    }
}

#[test]
fn an_indexer_that_never_connected_does_no_work() {
    let (mut indexer, _) = Indexer::bootstrap("http://nowhere");
    assert_eq!(
        indexer.index(IndexInput::Failed("refused".to_string())),
        IndexerAction::Rest(IndexEnd::Failed("refused".to_string()))
    );
    assert!(!indexer.is_idle());
    assert_eq!(
        indexer.on_event(&FileSystemEvent::Created(PATH.to_string())),
        IndexerAction::Rest(IndexEnd::OutOfTurn)
    );
}

#[test]
fn the_indexer_refuses_what_it_did_not_ask_for() {
    let mut indexer = idle();
    assert_eq!(indexer.index(link("u")), IndexerAction::Rest(IndexEnd::OutOfTurn));
    assert!(indexer.is_idle());
    indexer.on_event(&FileSystemEvent::Created(PATH.to_string()));
    assert_eq!(
        indexer.on_event(&FileSystemEvent::Created("/other".to_string())),
        IndexerAction::Rest(IndexEnd::OutOfTurn)
    );
    assert!(indexer.is_idle());
}

#[test]
fn the_announcement_names_the_file() {
    assert_eq!(Indexer::notify("/a/b/c.png", FileEventType::Create), request("/a/b/c.png", "c.png", FileEventType::Create));
    assert_eq!(Indexer::notify("c.png", FileEventType::Update), request("c.png", "c.png", FileEventType::Update));
    assert_eq!(Indexer::notify("/", FileEventType::Delete), request("/", "file", FileEventType::Delete));
    assert_eq!(Indexer::notify("a/..", FileEventType::Unknown), request("a/..", "file", FileEventType::Unknown));
}

#[test]
fn the_kind_of_an_event() {
    assert_eq!(FileEventType::from(&FileSystemEvent::Created("a".to_string())), FileEventType::Create);
    assert_eq!(FileEventType::from(&FileSystemEvent::Modified("a".to_string())), FileEventType::Update);
    assert_eq!(FileEventType::from(&FileSystemEvent::Removed("a".to_string())), FileEventType::Delete);
    assert_eq!(FileEventType::from(&FileSystemEvent::AttributesChanged("a".to_string())), FileEventType::Unknown);
    assert_eq!(
        FileEventType::from(&FileSystemEvent::Renamed("a".to_string(), "b".to_string())),
        FileEventType::Unknown
    );
    assert_eq!(FileEventType::from(&FileSystemEvent::RescanRequired), FileEventType::Unknown);
    assert_eq!(FileEventType::from(&FileSystemEvent::Error("e".to_string(), None)), FileEventType::Unknown);
    assert_eq!(FileEventType::from(&FileSystemEvent::Other), FileEventType::Unknown);
}

#[test]
fn a_copy_of_an_event_is_the_same_event() {
    let events = [
        FileSystemEvent::Created("a".to_string()),
        FileSystemEvent::Renamed("a".to_string(), "b".to_string()),
        FileSystemEvent::Error("e".to_string(), Some("p".to_string())),
        FileSystemEvent::Other,
    ];
    for event in events.iter() {
        assert_eq!(&event.duplicate(), event);
    }
}

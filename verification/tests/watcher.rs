use polydrive_client::event::FileSystemEvent;
use polydrive_client::watcher::pool::{Matches, Pool};
use polydrive_client::watcher::{PoolWatcher, WatchAction, WatchError, WatchInput, DEFAULT_DEBOUNCE_SECS};

fn matched(paths: &[&str]) -> Matches {
    Some(paths.iter().map(|p| Some(p.to_string())).collect())
}

fn texts(paths: &[&str]) -> Vec<String> {
    paths.iter().map(|p| p.to_string()).collect()
}

fn waiting(paths: &[&str], listeners: &[&'static str]) -> PoolWatcher<&'static str> {
    let mut watcher = PoolWatcher::init(&vec![matched(paths)]);
    for listener in listeners {
        watcher.add_listener(*listener);
    }
    watcher.start();
    let mut action = watcher.advance(WatchInput::Done);
    while action != WatchAction::Receive {
        action = watcher.advance(WatchInput::Done);
    }
    watcher
}

#[test]
fn test_it_parse_pool_correctly() {
    let pool = Pool::from(&vec![matched(&["/tmp/x/test.log"]), matched(&["/tmp/x/test.yml"])]);

    assert_eq!(pool.paths().len(), 2);
}

#[test]
fn no_patterns_give_the_empty_pool() {
    let pool = Pool::from(&vec![]);
    assert!(pool.is_empty());
    assert_eq!(pool.len(), 0);
    assert_eq!(pool.paths(), &Vec::<String>::new());
    assert!(Pool::new().is_empty());
}

#[test]
fn the_pool_keeps_the_order_and_each_path_once() {
    let pool = Pool::from(&vec![
        matched(&["/b", "/a", "/b"]),
        matched(&[]),
        matched(&["/c", "/a", "/d"]),
    ]);
    assert_eq!(pool.paths(), &texts(&["/b", "/a", "/c", "/d"]));
    assert_eq!(pool.len(), 4);
    assert!(pool.contains("/c"));
    assert!(!pool.contains("/e"));
}

#[test]
fn bad_patterns_and_unreadable_entries_are_passed_over() {
    let pool = Pool::from(&vec![
        None,
        Some(vec![None, Some("/a".to_string()), None]),
        None,
        Some(vec![None]),
    ]);
    assert_eq!(pool.paths(), &texts(&["/a"]));
}

#[test]
fn insert_says_whether_the_path_is_new() {
    let mut pool = Pool::new();
    assert!(pool.insert("/a".to_string()));
    assert!(!pool.insert("/a".to_string()));
    assert!(pool.insert("/b".to_string()));
    pool.extend(&vec![Some("/b".to_string()), None, Some("/c".to_string())]);
    assert_eq!(pool.paths(), &texts(&["/a", "/b", "/c"]));
}

#[test]
fn the_watcher_registers_every_path_before_it_waits() {
    let mut watcher = PoolWatcher::<&str>::init(&vec![matched(&["/a", "/b", "/a", "/c"])]);
    assert_eq!(watcher.pool().paths(), &texts(&["/a", "/b", "/c"]));
    assert_eq!(watcher.start(), WatchAction::CreateWatch { debounce_secs: 2 });
    assert_eq!(DEFAULT_DEBOUNCE_SECS, 2);
    for path in ["/a", "/b", "/c"] {
        assert_eq!(
            watcher.advance(WatchInput::Done),
            WatchAction::Register { path: path.to_string(), recursive: true }
        );
    }
    assert_eq!(watcher.advance(WatchInput::Done), WatchAction::Receive);
}

#[test]
fn a_watcher_can_be_made_from_a_pool() {
    let mut pool = Pool::new();
    pool.insert("/x".to_string());
    let mut watcher = PoolWatcher::<&str>::from_pool(pool);
    assert_eq!(watcher.pool().paths(), &texts(&["/x"]));
    assert_eq!(watcher.start(), WatchAction::CreateWatch { debounce_secs: 2 });
    assert_eq!(
        watcher.advance(WatchInput::Done),
        WatchAction::Register { path: "/x".to_string(), recursive: true }
    );
}

#[test]
fn an_empty_pool_watches_nothing() {
    let mut watcher = PoolWatcher::<&str>::init(&vec![]);
    watcher.start();
    assert_eq!(watcher.advance(WatchInput::Done), WatchAction::Receive);
}

#[test]
fn the_quiet_period_can_be_set() {
    let mut watcher = PoolWatcher::<&str>::init(&vec![]);
    watcher.set_debounce_secs(5);
    assert_eq!(watcher.start(), WatchAction::CreateWatch { debounce_secs: 5 });
}

#[test]
fn a_watch_that_cannot_be_created_is_fatal() {
    let mut watcher = PoolWatcher::<&str>::init(&vec![matched(&["/a"])]);
    watcher.start();
    assert_eq!(
        watcher.advance(WatchInput::Failed("no inotify".to_string())),
        WatchAction::Abort(WatchError::CreateFailed("no inotify".to_string()))
    );
    assert_eq!(watcher.advance(WatchInput::Done), WatchAction::Abort(WatchError::OutOfTurn));
}

#[test]
fn a_path_that_cannot_be_registered_is_fatal() {
    let mut watcher = PoolWatcher::<&str>::init(&vec![matched(&["/a", "/b"])]);
    watcher.start();
    watcher.advance(WatchInput::Done);
    watcher.advance(WatchInput::Done);
    assert_eq!(
        watcher.advance(WatchInput::Failed("gone".to_string())),
        WatchAction::Abort(WatchError::RegisterFailed { path: "/b".to_string(), cause: "gone".to_string() })
    );
    assert_eq!(
        watcher.notify(FileSystemEvent::Other),
        WatchAction::Abort(WatchError::OutOfTurn)
    );
}

#[test]
fn the_errors_of_the_watcher_in_words() {
    assert_eq!(
        WatchError::CreateFailed("no inotify".to_string()).message(),
        "failed to create watcher with error=no inotify"
    );
    assert_eq!(
        WatchError::RegisterFailed { path: "/b".to_string(), cause: "gone".to_string() }.message(),
        "failed to watch path=/b, reason=gone"
    );
    assert_eq!(WatchError::OutOfTurn.message(), "the watcher was used out of turn");
}

#[test]
fn starting_twice_is_refused() {
    let mut watcher = PoolWatcher::<&str>::init(&vec![]);
    watcher.start();
    assert_eq!(watcher.start(), WatchAction::Abort(WatchError::OutOfTurn));
}

#[test]
fn an_event_goes_to_the_listeners_in_their_order() {
    let mut watcher = waiting(&["/a"], &["first", "second"]);
    let event = FileSystemEvent::Created("/a/new".to_string());
    assert_eq!(watcher.notify(event.clone()), WatchAction::Deliver { listener: 0, event: event.clone() });
    assert_eq!(watcher.listener(0), Some(&"first"));
    assert_eq!(watcher.advance(WatchInput::Done), WatchAction::Deliver { listener: 1, event: event.clone() });
    assert_eq!(watcher.listener(1), Some(&"second"));
    assert_eq!(watcher.advance(WatchInput::Done), WatchAction::Receive);
    assert_eq!(watcher.listener(2), None);
}

#[test]
fn a_listener_that_fails_does_not_keep_the_event_from_the_others() {
    let mut watcher = waiting(&[], &["first", "second", "third"]);
    let event = FileSystemEvent::Modified("/a".to_string());
    watcher.notify(event.clone());
    assert_eq!(
        watcher.advance(WatchInput::Failed("first failed".to_string())),
        WatchAction::Deliver { listener: 1, event: event.clone() }
    );
    assert_eq!(
        watcher.advance(WatchInput::Failed("second failed".to_string())),
        WatchAction::Deliver { listener: 2, event: event.clone() }
    );
    assert_eq!(watcher.advance(WatchInput::Done), WatchAction::Receive);
}

#[test]
fn every_event_is_fanned_out_in_the_same_order() {
    let mut watcher = waiting(&["/a"], &["first", "second"]);
    for n in 0..5 {
        let event = FileSystemEvent::Modified(format!("/a/{}", n));
        let mut order = Vec::new();
        let mut action = watcher.notify(event.clone());
        while let WatchAction::Deliver { listener, event: delivered } = action {
            assert_eq!(delivered, event);
            order.push(listener);
            action = watcher.advance(WatchInput::Done);
        }
        assert_eq!(order, vec![0, 1]);
        assert_eq!(action, WatchAction::Receive);
    }
}

#[test]
fn without_listeners_an_event_goes_nowhere() {
    let mut watcher = waiting(&["/a"], &[]);
    assert_eq!(watcher.notify(FileSystemEvent::Other), WatchAction::Receive);
}

#[test]
fn a_receive_that_fails_is_passed_over() {
    let mut watcher = waiting(&["/a"], &["first"]);
    assert_eq!(watcher.advance(WatchInput::Failed("disconnected".to_string())), WatchAction::Receive);
    let event = FileSystemEvent::Other;
    assert_eq!(watcher.notify(event.clone()), WatchAction::Deliver { listener: 0, event });
}

#[test]
fn an_event_during_a_fan_out_is_out_of_turn() {
    let mut watcher = waiting(&[], &["first"]);
    watcher.notify(FileSystemEvent::Other);
    assert_eq!(watcher.notify(FileSystemEvent::Other), WatchAction::Abort(WatchError::OutOfTurn));
}

use polydrive_client::remote::{TransferOutcome, TransferStatus};
use polydrive_client::storage_manager::{
    HttpReply, StorageManager, Transfer, TransferAction, TransferEnd, TransferInput,
};

const URL: &str = "http://store.example/bucket/a.txt?sig=1";
const PATH: &str = "/data/a.txt";

fn putting() -> Transfer {
    let (transfer, first) = StorageManager::init().upload(URL, PATH);
    assert_eq!(first, TransferAction::ReadFile { path: PATH.to_string() });
    let (transfer, put) = transfer.advance(TransferInput::Content(vec![1, 2, 3]));
    assert_eq!(put, TransferAction::Put { url: URL.to_string(), body: vec![1, 2, 3] });
    transfer
}

fn status(code: u16, body: &str) -> HttpReply {
    HttpReply::Status { code, body: body.to_string() }
}

fn outcome(status: TransferStatus, message: Option<&str>) -> TransferOutcome {
    TransferOutcome { path: PATH.to_string(), status, message: message.map(|m| m.to_string()) }
}

fn reports(actions: &[TransferAction]) -> usize {
    actions.iter().filter(|a| matches!(a, TransferAction::Report(_))).count()
}

#[test]
fn a_successful_upload_is_reported_as_success() {
    let (transfer, report) = putting().advance(TransferInput::Reply(status(200, "")));
    assert_eq!(report, TransferAction::Report(outcome(TransferStatus::Success, None)));
    let (transfer, end) = transfer.advance(TransferInput::Done);
    assert_eq!(end, TransferAction::Finish(TransferEnd::Completed));
    assert!(transfer.is_finished());
}

#[test]
fn every_status_from_200_to_299_is_a_success() {
    for code in [200u16, 201, 204, 299] {
        assert_eq!(
            StorageManager::init().notify(PATH.to_string(), status(code, "ignored")),
            outcome(TransferStatus::Success, None),
            "{}",
            code
        );
    }
}

#[test]
fn other_statuses_are_failures_with_the_text_of_the_answer() {
    for code in [0u16, 100, 199, 300, 404, 500, u16::MAX] {
        assert_eq!(
            StorageManager::init().notify(PATH.to_string(), status(code, "denied")),
            outcome(TransferStatus::Failure, Some("denied")),
            "{}",
            code
        );
    }
}

#[test]
fn a_failure_without_text_names_the_status() {
    assert_eq!(
        StorageManager::init().notify(PATH.to_string(), status(503, "")),
        outcome(TransferStatus::Failure, Some("server responded with status code 503"))
    );
    assert_eq!(
        StorageManager::init().notify(PATH.to_string(), status(65535, "")),
        outcome(TransferStatus::Failure, Some("server responded with status code 65535"))
    );
}

#[test]
fn a_request_without_an_answer_is_a_failure() {
    let reply = HttpReply::Unreachable { detail: "connection refused".to_string() };
    let (_, report) = putting().advance(TransferInput::Reply(reply));
    assert_eq!(report, TransferAction::Report(outcome(TransferStatus::Failure, Some("connection refused"))));
    let (_, report) = putting().advance(TransferInput::Failed("timed out".to_string()));
    assert_eq!(report, TransferAction::Report(outcome(TransferStatus::Failure, Some("timed out"))));
    let (_, report) = putting().advance(TransferInput::Failed(String::new()));
    assert_eq!(report, TransferAction::Report(outcome(TransferStatus::Failure, Some("failed to upload file"))));
}

#[test]
fn each_attempt_is_reported_once() {
    let replies = [
        TransferInput::Reply(status(200, "")),
        TransferInput::Reply(status(500, "")),
        TransferInput::Reply(HttpReply::Unreachable { detail: String::new() }),
        TransferInput::Failed("reset".to_string()),
    ];
    let later = [
        TransferInput::Done,
        TransferInput::Failed("x".to_string()),
        TransferInput::Reply(status(200, "")),
        TransferInput::Content(vec![]),
    ];
    for reply in replies.iter() {
        for a in later.iter() {
            for b in later.iter() {
                let mut actions = Vec::new();
                let (mut transfer, action) = putting().advance(reply.clone());
                actions.push(action);
                for input in [a.clone(), b.clone()] {
                    let (next, action) = transfer.advance(input);
                    transfer = next;
                    actions.push(action);
                }
                assert_eq!(reports(&actions), 1);
                assert!(matches!(actions[0], TransferAction::Report(_)));
            }
        }
    }
}

#[test]
fn a_file_that_cannot_be_read_is_not_sent() {
    let (transfer, _) = StorageManager::init().upload(URL, PATH);
    let (transfer, end) = transfer.advance(TransferInput::Failed("no such file".to_string()));
    assert_eq!(end, TransferAction::Finish(TransferEnd::ReadFailed("no such file".to_string())));
    assert!(transfer.is_finished());
}

#[test]
fn a_report_that_fails_is_not_retried() {
    let (transfer, _) = putting().advance(TransferInput::Reply(status(200, "")));
    let (transfer, end) = transfer.advance(TransferInput::Failed("unavailable".to_string()));
    assert_eq!(end, TransferAction::Finish(TransferEnd::Completed));
    assert!(transfer.is_finished());
    let (_, again) = transfer.advance(TransferInput::Done);
    assert_eq!(again, TransferAction::Finish(TransferEnd::OutOfTurn));
}

#[test]
fn the_report_does_not_decide_how_the_upload_ends() {
    let ends = [
        TransferInput::Reply(status(200, "")),
        TransferInput::Reply(status(500, "no")),
        TransferInput::Reply(HttpReply::Unreachable { detail: "refused".to_string() }),
        TransferInput::Failed("reset".to_string()),
    ];
    for ended in ends.iter() {
        let (delivered, _) = putting().advance(ended.clone());
        let (lost, _) = putting().advance(ended.clone());
        let delivered = delivered.advance(TransferInput::Done);
        let lost = lost.advance(TransferInput::Failed("unavailable".to_string()));
        assert_eq!(delivered, lost);
        assert_eq!(lost.1, TransferAction::Finish(TransferEnd::Completed));
    }
}

#[test]
fn a_download_is_written_aside_and_moved_into_place() {
    let (transfer, first) = StorageManager::init().download(URL, PATH);
    assert_eq!(first, TransferAction::Get { url: URL.to_string() });
    let (transfer, dirs) = transfer.advance(TransferInput::Content(vec![9, 8]));
    assert_eq!(dirs, TransferAction::CreateDirectories { path: "/data".to_string() });
    let (transfer, write) = transfer.advance(TransferInput::Done);
    assert_eq!(write, TransferAction::WriteFile { path: "/data/a.txt.part".to_string(), content: vec![9, 8] });
    let (transfer, rename) = transfer.advance(TransferInput::Done);
    assert_eq!(
        rename,
        TransferAction::Rename { from: "/data/a.txt.part".to_string(), to: PATH.to_string() }
    );
    let (transfer, end) = transfer.advance(TransferInput::Done);
    assert_eq!(end, TransferAction::Finish(TransferEnd::Completed));
    assert!(transfer.is_finished());
}

#[test]
fn a_download_beside_no_directory_is_written_at_once() {
    for dest in ["a.txt", "a.txt/", "."] {
        let (transfer, _) = StorageManager::init().download(URL, dest);
        let (transfer, write) = transfer.advance(TransferInput::Content(vec![7]));
        assert_eq!(
            write,
            TransferAction::WriteFile { path: format!("{}.part", dest), content: vec![7] },
            "{:?}",
            dest
        );
        let (_, rename) = transfer.advance(TransferInput::Done);
        assert_eq!(rename, TransferAction::Rename { from: format!("{}.part", dest), to: dest.to_string() });
    }
}

#[test]
fn the_directory_asked_for_holds_the_destination() {
    let cases = [
        ("/a.txt", "/"),
        ("dir/a.txt", "dir"),
        ("./a.txt", "."),
        ("/x/y//z.bin", "/x/y"),
        ("x/./y/", "x"),
        ("a/..", "a"),
    ];
    for (dest, dir) in cases {
        let (transfer, _) = StorageManager::init().download(URL, dest);
        let (_, action) = transfer.advance(TransferInput::Content(vec![]));
        assert_eq!(action, TransferAction::CreateDirectories { path: dir.to_string() }, "{:?}", dest);
    }
}

#[test]
fn a_download_reports_nothing() {
    let (mut transfer, first) = StorageManager::init().download(URL, PATH);
    let mut actions = vec![first];
    for input in [TransferInput::Content(vec![]), TransferInput::Done, TransferInput::Done, TransferInput::Done] {
        let (next, action) = transfer.advance(input);
        transfer = next;
        actions.push(action);
    }
    assert_eq!(reports(&actions), 0);
}

#[test]
fn a_download_that_fails_leaves_the_destination_alone() {
    let (transfer, _) = StorageManager::init().download(URL, PATH);
    let (_, end) = transfer.advance(TransferInput::Failed("404".to_string()));
    assert_eq!(end, TransferAction::Finish(TransferEnd::FetchFailed("404".to_string())));

    let (transfer, _) = StorageManager::init().download(URL, PATH);
    let (transfer, _) = transfer.advance(TransferInput::Content(vec![1]));
    let (_, end) = transfer.advance(TransferInput::Failed("read-only".to_string()));
    assert_eq!(end, TransferAction::Finish(TransferEnd::StoreFailed("read-only".to_string())));

    let (transfer, _) = StorageManager::init().download(URL, PATH);
    let (transfer, _) = transfer.advance(TransferInput::Content(vec![1]));
    let (transfer, _) = transfer.advance(TransferInput::Done);
    let (_, end) = transfer.advance(TransferInput::Failed("disk full".to_string()));
    assert_eq!(end, TransferAction::Finish(TransferEnd::StoreFailed("disk full".to_string())));

    let (transfer, _) = StorageManager::init().download(URL, PATH);
    let (transfer, _) = transfer.advance(TransferInput::Content(vec![1]));
    let (transfer, _) = transfer.advance(TransferInput::Done);
    let (transfer, _) = transfer.advance(TransferInput::Done);
    let (_, end) = transfer.advance(TransferInput::Failed("busy".to_string()));
    assert_eq!(end, TransferAction::Finish(TransferEnd::StoreFailed("busy".to_string())));
}

#[test]
fn a_transfer_refuses_what_it_did_not_ask_for() {
    let (transfer, _) = StorageManager::init().upload(URL, PATH);
    let (transfer, end) = transfer.advance(TransferInput::Done);
    assert_eq!(end, TransferAction::Finish(TransferEnd::OutOfTurn));
    assert!(transfer.is_finished());
    let (transfer, _) = StorageManager::init().download(URL, PATH);
    let (_, end) = transfer.advance(TransferInput::Reply(status(200, "")));
    assert_eq!(end, TransferAction::Finish(TransferEnd::OutOfTurn));
}

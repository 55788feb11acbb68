use polydrive_client::command::handler::CommandHandler;
use polydrive_client::command::pipe::{
    decode_response, BusError, CommandListener, CommandWriter, ListenerAction, ListenerInput, WriterAction,
    WriterInput,
};
use polydrive_client::command::Command;
use polydrive_client::remote::RemoteFileDescriptor;

const SOCKET: &str = "/tmp/polydrive.sock";

fn listener() -> CommandListener {
    let (listener, first) = CommandListener::new(SOCKET, CommandHandler::new());
    assert_eq!(first, ListenerAction::CheckSocket { path: SOCKET.to_string() });
    listener
}

fn accepting() -> CommandListener {
    let mut listener = listener();
    listener.listen(ListenerInput::Presence(false));
    assert_eq!(listener.listen(ListenerInput::Done), ListenerAction::Accept);
    listener
}

fn connected() -> CommandWriter {
    let (mut writer, first) = CommandWriter::new(SOCKET);
    assert_eq!(first, WriterAction::CheckSocket { path: SOCKET.to_string() });
    assert_eq!(
        writer.advance(WriterInput::Presence(true)),
        WriterAction::Connect { path: SOCKET.to_string() }
    );
    assert_eq!(writer.advance(WriterInput::Done), WriterAction::Ready);
    writer
}

#[test]
fn a_stale_socket_is_removed_before_binding() {
    let mut listener = listener();
    assert_eq!(
        listener.listen(ListenerInput::Presence(true)),
        ListenerAction::RemoveStale { path: SOCKET.to_string() }
    );
    assert_eq!(listener.listen(ListenerInput::Done), ListenerAction::Bind { path: SOCKET.to_string() });
    assert_eq!(listener.listen(ListenerInput::Done), ListenerAction::Accept);
    assert_eq!(listener.listen(ListenerInput::Done), ListenerAction::ReadLine);
}

#[test]
fn a_stale_socket_that_cannot_be_removed_does_not_keep_from_binding() {
    let mut listener = listener();
    listener.listen(ListenerInput::Presence(true));
    assert_eq!(
        listener.listen(ListenerInput::Failed("permission denied".to_string())),
        ListenerAction::Bind { path: SOCKET.to_string() }
    );
}

#[test]
fn a_fresh_socket_is_bound_at_once() {
    let mut listener = listener();
    assert_eq!(
        listener.listen(ListenerInput::Presence(false)),
        ListenerAction::Bind { path: SOCKET.to_string() }
    );
}

#[test]
fn a_socket_that_cannot_be_bound_stops_the_listener() {
    let mut listener = listener();
    listener.listen(ListenerInput::Presence(false));
    let stop = listener.listen(ListenerInput::Failed("address in use".to_string()));
    let error = BusError::BindFailed { path: SOCKET.to_string(), cause: "address in use".to_string() };
    assert_eq!(stop, ListenerAction::Stop(error.clone()));
    assert_eq!(
        error.message(),
        "failed to bind socket on path. path=/tmp/polydrive.sock, details=address in use"
    );
    assert_eq!(listener.listen(ListenerInput::Done), ListenerAction::Stop(BusError::OutOfTurn));
}

#[test]
fn list_files_is_answered_with_the_table() {
    let mut listener = accepting();
    assert_eq!(listener.listen(ListenerInput::Done), ListenerAction::ReadLine);
    assert_eq!(
        listener.listen(ListenerInput::Line("list_files\n".to_string())),
        ListenerAction::FetchFiles
    );
    let files = vec![RemoteFileDescriptor {
        path: "/tmp/a.txt".to_string(),
        base_name: "a.txt".to_string(),
        created: None,
        updated: None,
        version: Some(3),
    }];
    let reply = listener.listen(ListenerInput::Files(files.clone(), vec![false]));
    let expected = CommandHandler::new().list(&files, &vec![false]);
    assert!(!expected.is_empty());
    assert!(expected.contains("a.txt") && expected.contains("false") && expected.contains("3"));
    assert_eq!(reply, ListenerAction::Reply { text: expected });
    assert_eq!(listener.listen(ListenerInput::Done), ListenerAction::Accept);
}

#[test]
fn list_files_without_files_still_gets_text() {
    let mut listener = accepting();
    listener.listen(ListenerInput::Done);
    listener.listen(ListenerInput::Line("list_files\n".to_string()));
    match listener.listen(ListenerInput::Files(vec![], vec![])) {
        ListenerAction::Reply { text } => assert!(!text.is_empty()),
        other => panic!("unexpected {:?}", other),
    }
}

#[test]
fn an_unknown_command_is_answered_and_the_listener_goes_on() {
    let mut listener = accepting();
    listener.listen(ListenerInput::Done);
    assert_eq!(
        listener.listen(ListenerInput::Line("reboot\n".to_string())),
        ListenerAction::Reply { text: "command not found".to_string() }
    );
    assert_eq!(listener.listen(ListenerInput::Done), ListenerAction::Accept);
    assert_eq!(listener.listen(ListenerInput::Done), ListenerAction::ReadLine);
}

#[test]
fn a_service_that_fails_is_told_to_the_client() {
    let mut listener = accepting();
    listener.listen(ListenerInput::Done);
    listener.listen(ListenerInput::Line("list_files".to_string()));
    assert_eq!(
        listener.listen(ListenerInput::Failed("connection refused".to_string())),
        ListenerAction::Reply { text: "failed to list files: connection refused".to_string() }
    );
    assert_eq!(listener.listen(ListenerInput::Failed("broken pipe".to_string())), ListenerAction::Accept);
}

#[test]
fn a_connection_that_fails_is_passed_over() {
    let mut listener = accepting();
    assert_eq!(listener.listen(ListenerInput::Failed("reset".to_string())), ListenerAction::Accept);
    assert_eq!(listener.listen(ListenerInput::Done), ListenerAction::ReadLine);
    assert_eq!(listener.listen(ListenerInput::Failed("reset".to_string())), ListenerAction::Accept);
}

#[test]
fn the_listener_refuses_what_it_did_not_ask_for() {
    let mut listener = accepting();
    assert_eq!(
        listener.listen(ListenerInput::Line("list_files\n".to_string())),
        ListenerAction::Stop(BusError::OutOfTurn)
    );
}

#[test]
fn without_a_socket_no_daemon_runs() {
    let (mut writer, _) = CommandWriter::new(SOCKET);
    let end = writer.advance(WriterInput::Presence(false));
    assert_eq!(end, WriterAction::Finish(Err(BusError::NoDaemon)));
    assert_eq!(
        BusError::NoDaemon.message(),
        "cannot establish a connection with the daemon, please ensure a daemon is running on the host"
    );
    assert_eq!(writer.send(Command::ListFiles), WriterAction::Finish(Err(BusError::OutOfTurn)));
}

#[test]
fn a_socket_without_a_listener_is_an_error() {
    let (mut writer, _) = CommandWriter::new(SOCKET);
    writer.advance(WriterInput::Presence(true));
    let error = BusError::ConnectFailed { path: SOCKET.to_string(), cause: "connection refused".to_string() };
    assert_eq!(
        writer.advance(WriterInput::Failed("connection refused".to_string())),
        WriterAction::Finish(Err(error.clone()))
    );
    assert_eq!(
        error.message(),
        "failed to connect to socket on path. path=/tmp/polydrive.sock, details=connection refused"
    );
}

#[test]
fn a_command_is_sent_and_its_answer_returned() {
    let mut writer = connected();
    assert_eq!(
        writer.send(Command::ListFiles),
        WriterAction::Write { line: "list_files\n".to_string() }
    );
    assert_eq!(writer.advance(WriterInput::Done), WriterAction::ReadToEnd);
    assert_eq!(
        writer.advance(WriterInput::Answer("héllo\n".as_bytes().to_vec())),
        WriterAction::Finish(Ok("héllo\n".to_string()))
    );
}

#[test]
fn an_answer_that_is_no_text_is_an_error() {
    let mut writer = connected();
    writer.send(Command::ListFiles);
    writer.advance(WriterInput::Done);
    assert_eq!(
        writer.advance(WriterInput::Answer(vec![0x66, 0xff, 0x6f])),
        WriterAction::Finish(Err(BusError::InvalidText))
    );
}

#[test]
fn a_write_or_read_that_fails_ends_the_exchange() {
    let mut writer = connected();
    writer.send(Command::ListFiles);
    assert_eq!(
        writer.advance(WriterInput::Failed("broken pipe".to_string())),
        WriterAction::Finish(Err(BusError::Io("broken pipe".to_string())))
    );
    let mut writer = connected();
    writer.send(Command::ListFiles);
    writer.advance(WriterInput::Done);
    assert_eq!(
        writer.advance(WriterInput::Failed("reset".to_string())),
        WriterAction::Finish(Err(BusError::Io("reset".to_string())))
    );
    assert_eq!(BusError::Io("reset".to_string()).message(), "failed to talk to the daemon. details=reset");
}

#[test]
fn sending_needs_a_connection() {
    let (mut writer, _) = CommandWriter::new(SOCKET);
    assert_eq!(writer.send(Command::ListFiles), WriterAction::Finish(Err(BusError::OutOfTurn)));
}

#[test]
fn what_the_writer_sends_the_listener_understands() {
    let mut writer = connected();
    let line = match writer.send(Command::ListFiles) {
        WriterAction::Write { line } => line,
        other => panic!("unexpected {:?}", other),
    };
    let mut listener = accepting();
    listener.listen(ListenerInput::Done);
    assert_eq!(listener.listen(ListenerInput::Line(line)), ListenerAction::FetchFiles);
}

#[test]
fn decode_response_examples() {
    assert_eq!(decode_response(vec![]), Ok(String::new()));
    assert_eq!(decode_response(b"ok".to_vec()), Ok("ok".to_string()));
    assert_eq!(decode_response("ü".as_bytes().to_vec()), Ok("ü".to_string()));
    assert_eq!(decode_response(vec![0xc3]), Err(BusError::InvalidText));
    assert_eq!(decode_response(vec![0xed, 0xa0, 0x80]), Err(BusError::InvalidText));
    assert_eq!(BusError::InvalidText.message(), "the daemon's answer is no UTF-8 text");
    assert_eq!(BusError::OutOfTurn.message(), "the command bus was used out of turn");
}

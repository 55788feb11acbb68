use polydrive_client::command::Command;

#[test]
fn list_files_survives_the_wire() {
    let wire: &str = Command::ListFiles.into();
    assert_eq!(wire, "list_files");
    assert_eq!(Command::from(wire), Command::ListFiles);
}

#[test]
fn every_command_survives_the_wire() {
    for command in [Command::ListFiles, Command::Unknown] {
        assert_eq!(Command::parse(command.token()), command);
        assert_eq!(Command::decode(&command.encode()), command);
        let wire: &str = command.into();
        assert_eq!(Command::from(wire), command);
    }
}

#[test]
fn unrecognized_text_is_unknown() {
    for text in ["", "list", "LIST_FILES", "list_files2", "list files", "unknown", "\u{1b}", "héllo"] {
        assert_eq!(Command::from(text), Command::Unknown, "{:?}", text);
        assert_eq!(Command::parse(text), Command::Unknown, "{:?}", text);
        assert_eq!(Command::decode(text), Command::Unknown, "{:?}", text);
    }
}

#[test]
fn tokens() {
    assert_eq!(Command::ListFiles.token(), "list_files");
    assert_eq!(Command::Unknown.token(), "unknown");
}

#[test]
fn a_command_is_encoded_as_one_line() {
    assert_eq!(Command::ListFiles.encode(), "list_files\n");
    assert_eq!(Command::Unknown.encode(), "unknown\n");
}

#[test]
fn decoding_ignores_the_white_space_around_the_token() {
    assert_eq!(Command::decode("list_files\n"), Command::ListFiles);
    assert_eq!(Command::decode("  list_files\r\n"), Command::ListFiles);
    assert_eq!(Command::decode("list_files"), Command::ListFiles);
    assert_eq!(Command::decode("list_ files\n"), Command::Unknown);
    assert_eq!(Command::parse("list_files\n"), Command::Unknown);
}

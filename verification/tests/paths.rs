use polydrive_client::paths::{file_name, parent};

#[test]
fn file_name_is_the_last_name_of_the_path() {
    assert_eq!(file_name("/tmp/a.txt"), Some("a.txt".to_string()));
    assert_eq!(file_name("a.txt"), Some("a.txt".to_string()));
    assert_eq!(file_name("dir/sub/"), Some("sub".to_string()));
    assert_eq!(file_name("dir/sub/."), Some("sub".to_string()));
    assert_eq!(file_name("a//b"), Some("b".to_string()));
    assert_eq!(file_name("..a"), Some("..a".to_string()));
}

#[test]
fn some_paths_have_no_file_name() {
    assert_eq!(file_name(""), None);
    assert_eq!(file_name("/"), None);
    assert_eq!(file_name("."), None);
    assert_eq!(file_name(".."), None);
    assert_eq!(file_name("a/.."), None);
    assert_eq!(file_name("./"), None);
    assert_eq!(file_name("/."), None);
}

#[test]
fn file_name_agrees_with_the_standard_library() {
    let cases = [
        "", "/", "//", ".", "./", "./.", "..", "../", "a", "a/", "a/.", "a/..", "a/./", "a/b", "/a", "/a/b.txt",
        "a//b//", "./a", "../a", "a/../b", "a/b/./.", ".hidden", "a/.hidden", "...", "a/...", "/./a/.", "é/ü",
        "a b/c d", "/tmp/polydrive.sock",
    ];
    for case in cases {
        let expected = std::path::Path::new(case)
            .file_name()
            .map(|name| name.to_string_lossy().into_owned());
        assert_eq!(file_name(case), expected, "{:?}", case);
    }
}

const CASES: [&str; 58] = [
    "", "/", "//", "///", ".", "./", ".//", "./.", "././", "..", "../", "../..", "a", "a/", "a//", "a/.", "a/./",
    "a/..", "a/../", "a/b", "a//b", "a/./b", "a/b/", "a/b/.", "a/b/./.", "a/b//.//", "/a", "//a", "/a/", "/a/b",
    "/a//b", "/a/./b", "/./a", "/.", "/..", "/../a", "./a", "./a/b", ".//a", "././a", "../a", ".a", ".a/b", "a/.b",
    "..a", "...", ".../x", "a/...", "é/ü", "é", "/é", "a b/c d", "/tmp/polydrive.sock", "/data/remote.txt",
    "x/y/z/w.txt", ".hidden", "./.hidden", "/.hidden/x",
];

#[test]
fn parent_examples() {
    assert_eq!(parent("/data/a.txt"), Some("/data".to_string()));
    assert_eq!(parent("a.txt"), Some(String::new()));
    assert_eq!(parent("/a.txt"), Some("/".to_string()));
    assert_eq!(parent("dir/sub/"), Some("dir".to_string()));
    assert_eq!(parent("a//b/./c"), Some("a//b".to_string()));
    assert_eq!(parent("./a"), Some(".".to_string()));
    assert_eq!(parent("a/.."), Some("a".to_string()));
    assert_eq!(parent("."), Some(String::new()));
}

#[test]
fn some_paths_have_no_parent() {
    assert_eq!(parent(""), None);
    assert_eq!(parent("/"), None);
    assert_eq!(parent("//"), None);
    assert_eq!(parent("/."), None);
}

#[test]
fn parent_agrees_with_the_standard_library() {
    for case in CASES {
        let expected = std::path::Path::new(case)
            .parent()
            .map(|dir| dir.to_string_lossy().into_owned());
        assert_eq!(parent(case), expected, "{:?}", case);
    }
}

#[test]
fn file_name_agrees_with_the_standard_library_on_more_paths() {
    for case in CASES {
        let expected = std::path::Path::new(case)
            .file_name()
            .map(|name| name.to_string_lossy().into_owned());
        assert_eq!(file_name(case), expected, "{:?}", case);
    }
}

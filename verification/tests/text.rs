use polydrive_client::text::{has_prefix, is_white_space, replace, same, to_decimal, trim};

#[test]
fn white_space_is_what_the_standard_library_says() {
    for n in 0u32..=0x10ffff {
        if let Some(c) = char::from_u32(n) {
            assert_eq!(is_white_space(c), c.is_whitespace(), "U+{:04X}", n);
        }
    }
}

#[test]
fn trim_removes_white_space_at_both_ends() {
    assert_eq!(trim("  a b \n"), "a b");
    assert_eq!(trim("list_files\n"), "list_files");
    assert_eq!(trim("list_files\r\n"), "list_files");
    assert_eq!(trim(""), "");
    assert_eq!(trim(" \t\n"), "");
    assert_eq!(trim("x"), "x");
    assert_eq!(trim("\u{3000}é\u{a0}"), "é");
}

#[test]
fn trim_agrees_with_the_standard_library() {
    let cases = ["", " ", "a", " a", "a ", " a ", "\n\na\tb\r\n", "\u{2003}x\u{2003}", "a\u{85}", "\u{1680}"];
    for case in cases {
        assert_eq!(trim(case), case.trim(), "{:?}", case);
    }
}

#[test]
fn replace_takes_occurrences_from_the_left() {
    assert_eq!(replace("aaa", "aa", "b"), "ba");
    assert_eq!(replace("a_b_c", "_", "."), "a.b.c");
    assert_eq!(replace("abc", "x", "y"), "abc");
    assert_eq!(replace("abc", "abc", ""), "");
    assert_eq!(replace("", "a", "b"), "");
    assert_eq!(replace("ab", "abc", "x"), "ab");
}

#[test]
fn replace_of_the_empty_pattern_spreads_the_replacement() {
    assert_eq!(replace("ab", "", "-"), "-a-b-");
    assert_eq!(replace("", "", "-"), "-");
}

#[test]
fn replace_agrees_with_the_standard_library() {
    let texts = ["", "a", "aaaa", "abab", "POLYDRIVE_SERVER_HOST", "éé_é", "a.b..c"];
    let patterns = ["", "a", "aa", "ab", "_", "POLYDRIVE_", ".", "é"];
    let replacements = ["", ".", "xy", "a"];
    for text in texts {
        for pattern in patterns {
            for replacement in replacements {
                assert_eq!(
                    replace(text, pattern, replacement),
                    text.replace(pattern, replacement),
                    "{:?} {:?} {:?}",
                    text,
                    pattern,
                    replacement
                );
            }
        }
    }
}

#[test]
fn has_prefix_examples() {
    assert!(has_prefix("POLYDRIVE_X", "POLYDRIVE_"));
    assert!(has_prefix("abc", ""));
    assert!(has_prefix("abc", "abc"));
    assert!(!has_prefix("ab", "abc"));
    assert!(!has_prefix("xPOLYDRIVE_", "POLYDRIVE_"));
    assert!(has_prefix("éa", "é"));
}

#[test]
fn same_compares_the_characters() {
    assert!(same("", ""));
    assert!(same("abc", "abc"));
    assert!(!same("abc", "abd"));
    assert!(!same("abc", "ab"));
}

#[test]
fn to_decimal_examples() {
    assert_eq!(to_decimal(0), "0");
    assert_eq!(to_decimal(9), "9");
    assert_eq!(to_decimal(10), "10");
    assert_eq!(to_decimal(404), "404");
    assert_eq!(to_decimal(1234567890), "1234567890");
    assert_eq!(to_decimal(u64::MAX), "18446744073709551615");
}

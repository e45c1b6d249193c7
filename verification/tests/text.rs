use build_support::text::{same_text, split};

fn strings(parts: &[&str]) -> Vec<String> {
    parts.iter().map(|part| part.to_string()).collect()
}

#[test]
fn split_cuts_at_every_separator() {
    assert_eq!(split("a-b-c", '-'), strings(&["a", "b", "c"]));
    assert_eq!(split("x86_64-pc-windows-msvc", '-'), strings(&["x86_64", "pc", "windows", "msvc"]));
    assert_eq!(split("a,b", ','), strings(&["a", "b"]));
}

#[test]
fn split_without_separator_is_one_piece() {
    assert_eq!(split("abc", '-'), strings(&["abc"]));
    assert_eq!(split("", '-'), strings(&[""]));
}

#[test]
fn split_keeps_empty_pieces() {
    assert_eq!(split("-", '-'), strings(&["", ""]));
    assert_eq!(split("a-", '-'), strings(&["a", ""]));
    assert_eq!(split("-a", '-'), strings(&["", "a"]));
    assert_eq!(split("a--b", '-'), strings(&["a", "", "b"]));
    assert_eq!(split("---", '-'), strings(&["", "", "", ""]));
}

#[test]
fn split_counts_characters_not_bytes() {
    assert_eq!(split("é-日本-ß", '-'), strings(&["é", "日本", "ß"]));
    assert_eq!(split("a→b→c", '→'), strings(&["a", "b", "c"]));
}

#[test]
fn split_agrees_with_std() {
    for text in ["", "-", "a", "a-b", "-a-", "a--b-", "x86_64-pc-windows-msvc", "ä-ö-ü"] {
        let expected: Vec<String> = text.split('-').map(|part| part.to_string()).collect();
        assert_eq!(split(text, '-'), expected);
    }
}

#[test]
fn joining_the_pieces_gives_the_text_back() {
    for text in ["", "-", "a-b", "--a--", "aarch64-apple-darwin"] {
        assert_eq!(split(text, '-').join("-"), text);
    }
}

#[test]
fn same_text_compares_every_character() {
    assert!(same_text("", ""));
    assert!(same_text("windows", "windows"));
    assert!(!same_text("windows", "Windows"));
    assert!(!same_text("windows", "window"));
    assert!(!same_text("window", "windows"));
    assert!(!same_text("", "a"));
    assert!(!same_text("abc", "abd"));
    assert!(same_text("日本語", "日本語"));
    assert!(!same_text("日本語", "日本"));
}

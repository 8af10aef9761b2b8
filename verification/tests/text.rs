use llama_stream::text::{accept_line, is_blank_line, trim};

#[test]
fn trim_removes_surrounding_whitespace() {
    assert_eq!(trim("  hello world \n"), "hello world");
    assert_eq!(trim("hello"), "hello");
    assert_eq!(trim("\t\r\n x \u{a0}\u{3000}"), "x");
}

#[test]
fn trim_keeps_inner_whitespace() {
    assert_eq!(trim(" a  b\tc "), "a  b\tc");
}

#[test]
fn trim_of_whitespace_is_empty() {
    assert_eq!(trim(""), "");
    assert_eq!(trim(" \n\t "), "");
}

#[test]
fn trim_agrees_with_the_standard_library() {
    let samples = [
        "", " ", "a", " a", "a ", " a ", "\u{2003}wide\u{2003}", "\u{200b}zero width\u{200b}",
        "line\r\n", "  multi\nline  \n", "\u{85}next line\u{85}", "\u{1680}ogham\u{1680}",
        "caf\u{e9} ", " \u{4f60}\u{597d} ",
    ];
    for s in samples {
        assert_eq!(trim(s), s.trim());
    }
}

#[test]
fn trim_is_idempotent_on_samples() {
    for s in ["  x  ", "x", "", " a b "] {
        let once = trim(s);
        assert_eq!(trim(&once), once);
    }
}

#[test]
fn blank_lines_are_recognised() {
    assert!(is_blank_line(""));
    assert!(is_blank_line("\n"));
    assert!(is_blank_line("\r\n"));
}

#[test]
fn other_lines_are_not_blank() {
    assert!(!is_blank_line("hello"));
    assert!(!is_blank_line(" \n"));
    assert!(!is_blank_line("\r"));
    assert!(!is_blank_line("\n\n"));
    assert!(!is_blank_line("\n\r"));
    assert!(!is_blank_line("a\n"));
    assert!(!is_blank_line("\r\n\n"));
}

#[test]
fn blank_line_skip() {
    let lines = ["", "\n", "hello"];
    let turns: Vec<String> = lines.iter().filter_map(|l| accept_line(l)).collect();
    assert_eq!(turns, vec!["hello".to_string()]);
}

#[test]
fn accepted_lines_are_trimmed() {
    assert_eq!(accept_line("  What is Rust?  \r\n"), Some("What is Rust?".to_string()));
    assert_eq!(accept_line("hi\n"), Some("hi".to_string()));
}

#[test]
fn a_line_of_spaces_is_an_empty_turn() {
    assert_eq!(accept_line("   \n"), Some(String::new()));
    assert_eq!(accept_line("\r"), Some(String::new()));
}

use miow::text::{contains_str, join, lines, split_str, split_whitespace, trim, trim_non_alphanumeric};

fn owned(v: &[&str]) -> Vec<String> {
    v.iter().map(|s| s.to_string()).collect()
}

#[test]
fn lines_strip_crlf_and_final_newline() {
    assert_eq!(lines("a\r\nb\n"), owned(&["a", "b"]));
    assert_eq!(lines("\n"), owned(&[""]));
    assert!(lines("").is_empty());
    assert_eq!(lines("x\r"), owned(&["x\r"]));
}

#[test]
fn split_is_left_to_right() {
    assert_eq!(split_str("a = b = c", " = "), owned(&["a", "b", "c"]));
    assert_eq!(split_str(" = ", " = "), owned(&["", ""]));
    assert_eq!(split_str("abc", " = "), owned(&["abc"]));
}

#[test]
fn whitespace_helpers() {
    assert_eq!(split_whitespace("  a\tbb \n c  "), owned(&["a", "bb", "c"]));
    assert_eq!(trim("\u{3000} x y \n"), "x y");
    assert_eq!(trim_non_alphanumeric("--(Hi)!"), "Hi");
    assert!(contains_str("src/__tests__/a", "__tests__"));
    assert!(contains_str("abc", ""));
    assert_eq!(join(&owned(&["a", "b"]), ", "), "a, b");
}

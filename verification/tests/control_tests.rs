use mnemnk_agent::control::parse_line;

#[test]
fn empty_line_is_noop() {
    assert_eq!(parse_line(""), None);
}

#[test]
fn blank_line_is_noop() {
    assert_eq!(parse_line("   \t\r\n"), None);
}

#[test]
fn verb_without_args() {
    assert_eq!(parse_line(".QUIT\n"), Some((".QUIT", "")));
}

#[test]
fn verb_with_args() {
    assert_eq!(
        parse_line(".CONFIG {\"interval\":5}\n"),
        Some((".CONFIG", "{\"interval\":5}"))
    );
}

#[test]
fn split_is_at_first_space_only() {
    assert_eq!(parse_line("a b c"), Some(("a", "b c")));
}

#[test]
fn double_space_keeps_rest_verbatim() {
    assert_eq!(parse_line(".CONFIG  x"), Some((".CONFIG", " x")));
}

#[test]
fn surrounding_whitespace_is_trimmed() {
    assert_eq!(parse_line("  .QUIT  "), Some((".QUIT", "")));
}

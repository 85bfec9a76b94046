use sysfetch::extract::{extract_assignment, extract_basename};

#[test]
fn assignment_plain_value() {
    let r = extract_assignment("X=1\nKEY=val\n", "KEY=");
    assert_eq!(r.unwrap(), "val");
}

#[test]
fn assignment_quoted_value() {
    let r = extract_assignment("KEY=\"two words\"\n", "KEY=");
    assert_eq!(r.unwrap(), "two words");
}

#[test]
fn assignment_first_occurrence_wins() {
    let r = extract_assignment("KEY=first\nKEY=second\n", "KEY=");
    assert_eq!(r.unwrap(), "first");
}

#[test]
fn assignment_empty_quotes_do_not_match() {
    let r = extract_assignment("KEY=\"\"\n", "KEY=");
    assert!(r.is_none());
}

#[test]
fn assignment_requires_newline_terminator() {
    let r = extract_assignment("KEY=val", "KEY=");
    assert!(r.is_none());
}

#[test]
fn assignment_key_found_inside_longer_key() {
    let r = extract_assignment("PREFIXKEY=inner\n", "KEY=");
    assert_eq!(r.unwrap(), "inner");
}

#[test]
fn assignment_missing_key() {
    let r = extract_assignment("OTHER=x\n", "KEY=");
    assert!(r.is_none());
}

#[test]
fn assignment_open_quote_without_close() {
    let r = extract_assignment("KEY=\"abc\n", "KEY=");
    assert_eq!(r.unwrap(), "abc");
}

#[test]
fn assignment_close_quote_must_precede_newline() {
    let r = extract_assignment("KEY=\"abc\"x\n", "KEY=");
    assert!(r.is_none());
}

#[test]
fn basename_of_path() {
    assert_eq!(extract_basename("/usr/bin/zsh").unwrap(), "zsh");
}

#[test]
fn basename_without_slash_is_whole_text() {
    assert_eq!(extract_basename("zsh").unwrap(), "zsh");
}

#[test]
fn basename_of_trailing_slash_fails() {
    assert!(extract_basename("/usr/bin/").is_none());
}

#[test]
fn basename_of_empty_text_fails() {
    assert!(extract_basename("").is_none());
}

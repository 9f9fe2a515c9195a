use reef_tui::text::{
    align_right, clip_range, contains_text, decimal_text, digit_count, first_nonempty_trimmed_line, same_text,
    spaces, strip_start, truncate_line, MAX_LINE_CHARS,
};

#[test]
fn truncate_line_returns_input_when_short() {
    let s = "short line";
    assert_eq!(truncate_line(s), s);
}

#[test]
fn truncate_line_caps_at_max_chars() {
    let s: String = "a".repeat(MAX_LINE_CHARS + 100);
    let out = truncate_line(&s);
    assert_eq!(out.chars().count(), MAX_LINE_CHARS);
}

#[test]
fn truncate_line_respects_utf8_boundary() {
    let mut s = "a".repeat(200);
    for _ in 0..60 {
        s.push('你');
    }
    let out = truncate_line(&s);
    assert_eq!(out.chars().count(), MAX_LINE_CHARS);
}

#[test]
fn clip_range_in_bounds_is_identity() {
    assert_eq!(clip_range(3..8, 20), Some(3..8));
}

#[test]
fn clip_range_clips_end() {
    assert_eq!(clip_range(3..40, 20), Some(3..20));
}

#[test]
fn clip_range_fully_outside_returns_none() {
    assert_eq!(clip_range(50..60, 20), None);
}

#[test]
fn first_nonempty_trimmed_line_returns_none_for_blank_input() {
    assert_eq!(first_nonempty_trimmed_line(""), None);
    assert_eq!(first_nonempty_trimmed_line("   \n  \t\n"), None);
}

#[test]
fn first_nonempty_trimmed_line_skips_leading_blanks() {
    assert_eq!(first_nonempty_trimmed_line("\n\n   first\nsecond"), Some("first".to_string()));
}

#[test]
fn first_nonempty_trimmed_line_strips_indentation_and_trailing_ws() {
    assert_eq!(first_nonempty_trimmed_line("    fn foo()   "), Some("fn foo()".to_string()));
}

#[test]
fn wide_white_space_is_trimmed_too() {
    assert_eq!(
        first_nonempty_trimmed_line("\u{3000}\u{a0}\nx\u{2003}"),
        Some("x".to_string())
    );
}

#[test]
fn numbers_are_written_in_base_ten() {
    assert_eq!(decimal_text(0), "0");
    assert_eq!(decimal_text(4096), "4096");
    assert_eq!(digit_count(9), 1);
    assert_eq!(digit_count(10), 2);
    assert_eq!(align_right(42, 5), "   42");
    assert_eq!(align_right(123456, 5), "123456");
    assert_eq!(spaces(3), "   ");
}

#[test]
fn beginnings_are_taken_off() {
    assert_eq!(strip_start("file:///x", "file://"), Some("/x".to_string()));
    assert_eq!(strip_start("/x", "file://"), None);
    assert!(same_text("a", "a"));
    assert!(!same_text("a", "b"));
}

#[test]
fn texts_hold_their_parts() {
    assert!(contains_text("it is not supported here", "not supported"));
    assert!(contains_text("not supported", "not supported"));
    assert!(!contains_text("not support", "not supported"));
    assert!(contains_text("", ""));
    assert!(!contains_text("", "a"));
}

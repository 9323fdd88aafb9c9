use native_tools::text_selection::{cross_platform, macos, windows};

#[test]
fn cross_platform_test_count_editor_chars_normal_text() {
    assert_eq!(cross_platform::count_editor_chars("hello"), 5);
}

#[test]
fn cross_platform_test_count_editor_chars_with_unix_newline() {
    assert_eq!(cross_platform::count_editor_chars("line1\nline2"), 11);
}

#[test]
fn cross_platform_test_count_editor_chars_with_crlf() {
    // A CRLF line break is one cursor position.
    assert_eq!(cross_platform::count_editor_chars("line1\r\nline2"), 11);
}

#[test]
fn cross_platform_test_count_editor_chars_multiple_crlf() {
    assert_eq!(cross_platform::count_editor_chars("a\r\nb\r\nc"), 5);
}

#[test]
fn cross_platform_test_count_editor_chars_unicode() {
    assert_eq!(cross_platform::count_editor_chars("Hello 世界"), 8);
}

#[test]
fn cross_platform_test_count_editor_chars_emoji() {
    assert_eq!(cross_platform::count_editor_chars("Hi 👋"), 4);
}

#[test]
fn cross_platform_test_count_editor_chars_empty() {
    assert_eq!(cross_platform::count_editor_chars(""), 0);
}

#[test]
fn test_count_editor_chars() {
    assert_eq!(macos::count_editor_chars("hello"), 5);
    assert_eq!(macos::count_editor_chars("Hello 世界"), 8);
    assert_eq!(macos::count_editor_chars("Hi 👋"), 4);
    assert_eq!(macos::count_editor_chars(""), 0);
}

#[test]
fn windows_test_count_editor_chars_normal_text() {
    assert_eq!(windows::count_editor_chars("hello"), 5);
}

#[test]
fn windows_test_count_editor_chars_with_unix_newline() {
    assert_eq!(windows::count_editor_chars("line1\nline2"), 11);
}

#[test]
fn windows_test_count_editor_chars_with_crlf() {
    // A CRLF line break is one cursor position.
    assert_eq!(windows::count_editor_chars("line1\r\nline2"), 11);
}

#[test]
fn windows_test_count_editor_chars_multiple_crlf() {
    assert_eq!(windows::count_editor_chars("a\r\nb\r\nc"), 5);
}

#[test]
fn windows_test_count_editor_chars_unicode() {
    assert_eq!(windows::count_editor_chars("Hello 世界"), 8);
}

#[test]
fn windows_test_count_editor_chars_emoji() {
    assert_eq!(windows::count_editor_chars("Hi 👋"), 4);
}

#[test]
fn windows_test_count_editor_chars_empty() {
    assert_eq!(windows::count_editor_chars(""), 0);
}

#[test]
fn crlf_edge_cases() {
    // A lone CR, a lone LF and a CR before CRLF each keep their own positions.
    assert_eq!(cross_platform::count_editor_chars("\r"), 1);
    assert_eq!(cross_platform::count_editor_chars("\n\r"), 2);
    assert_eq!(cross_platform::count_editor_chars("\r\r\n"), 2);
    assert_eq!(cross_platform::count_editor_chars("\r\n\r\n"), 2);
    assert_eq!(macos::count_editor_chars("a\r\nb"), 4);
}

use snap_shell::{window_ready_line, window_ready_message};

#[test]
fn main_window_line() {
    assert_eq!(window_ready_message("main"), "✓ 窗口已初始化: \"main\"");
}

#[test]
fn label_is_quoted_and_escaped() {
    assert_eq!(window_ready_message("a\"b"), "✓ 窗口已初始化: \"a\\\"b\"");
    assert_eq!(window_ready_message(""), "✓ 窗口已初始化: \"\"");
}

#[test]
fn line_around_rendered_label() {
    assert_eq!(window_ready_line("\"main\""), "✓ 窗口已初始化: \"main\"");
    assert_eq!(window_ready_line(""), "✓ 窗口已初始化: ");
}

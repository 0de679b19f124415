use aeonium::protocol::{highlight_line, quit_line, renderer_args};

#[test]
fn highlight_lines_are_decimal() {
    assert_eq!(highlight_line(0), "HIGHLIGHT 0\n");
    assert_eq!(highlight_line(7), "HIGHLIGHT 7\n");
    assert_eq!(highlight_line(1203), "HIGHLIGHT 1203\n");
}

#[test]
fn quit_line_text() {
    assert_eq!(quit_line(), "QUIT\n");
}

#[test]
fn renderer_args_count_then_icons() {
    let icons = vec![None, Some("/usr/share/icons/a.png".to_string()), None];
    let args = renderer_args(3, &icons);
    assert_eq!(args, vec!["3", "default", "/usr/share/icons/a.png", "default"]);
}

#[test]
fn renderer_args_large_count() {
    let args = renderer_args(12, &vec![None; 12]);
    assert_eq!(args[0], "12");
    assert_eq!(args.len(), 13);
}

use aeonium::commands::{is_whitespace, parse_command, parse_trimmed, parse_usize, trim_str, RendererCommand};
use aeonium::protocol::{highlight_line, quit_line};
use aeonium::shortcut::split_exec;

#[test]
fn highlight_lines_read_back() {
    for idx in [0usize, 1, 9, 10, 4096, usize::MAX] {
        assert_eq!(parse_command(&highlight_line(idx)), RendererCommand::Highlight(idx));
    }
}

#[test]
fn quit_line_reads_back() {
    assert_eq!(parse_command(&quit_line()), RendererCommand::Quit);
    assert_eq!(parse_command("  qUiT \r\n"), RendererCommand::Quit);
}

#[test]
fn highlight_prefix_in_any_case() {
    assert_eq!(parse_command("highlight 3"), RendererCommand::Highlight(3));
    assert_eq!(parse_command("\tHighLight   +12  "), RendererCommand::Highlight(12));
}

#[test]
fn bad_indices_and_other_lines() {
    assert_eq!(parse_command("HIGHLIGHT x"), RendererCommand::InvalidIndex);
    assert_eq!(parse_command("HIGHLIGHT -1"), RendererCommand::InvalidIndex);
    assert_eq!(parse_command("HIGHLIGHT "), RendererCommand::Unexpected);
    assert_eq!(parse_command("HIGHLIGHT 99999999999999999999999"), RendererCommand::InvalidIndex);
    assert_eq!(parse_command("QUITS"), RendererCommand::Unexpected);
    assert_eq!(parse_command(""), RendererCommand::Unexpected);
}

#[test]
fn uppercase_form_decides_the_prefix() {
    assert_eq!(parse_trimmed("highlight 4", "HIGHLIGHT 4"), RendererCommand::Highlight(4));
    assert_eq!(parse_trimmed("highlight 4", "highlight 4"), RendererCommand::Unexpected);
    assert_eq!(parse_command("highlight ５"), RendererCommand::InvalidIndex);
}

#[test]
fn numbers_read_as_usize_does() {
    assert_eq!(parse_usize("0"), Some(0));
    assert_eq!(parse_usize("+7"), Some(7));
    assert_eq!(parse_usize("+"), None);
    assert_eq!(parse_usize(""), None);
    assert_eq!(parse_usize("18446744073709551615"), "18446744073709551615".parse::<usize>().ok());
    assert_eq!(parse_usize("18446744073709551616"), None);
    assert_eq!(parse_usize("12a"), None);
}

#[test]
fn trimming_matches_std() {
    for s in ["", "  ", " a b ", "\u{3000}x\u{85}", "\n\tHIGHLIGHT 1\n", "\u{200b}y"] {
        assert_eq!(trim_str(s), s.trim());
    }
    for c in ['\u{0}', ' ', '\u{b}', '\u{1680}', '\u{2007}', '\u{200b}', 'a', '\u{feff}', '\u{3000}'] {
        assert_eq!(is_whitespace(c), c.is_whitespace());
    }
}

#[test]
fn exec_field_splits_into_program_and_arguments() {
    let (program, args) = split_exec("  /usr/bin/foo --bar\tbaz  qux ").unwrap();
    assert_eq!(program, "/usr/bin/foo");
    assert_eq!(args, vec!["--bar", "baz", "qux"]);
    let (program, args) = split_exec("firefox").unwrap();
    assert_eq!(program, "firefox");
    assert!(args.is_empty());
    assert_eq!(split_exec(" \t\n"), None);
    assert_eq!(split_exec(""), None);
}

#[test]
fn exec_split_agrees_with_std() {
    let line = "a\u{3000}bé  c\u{a0}d";
    let (program, args) = split_exec(line).unwrap();
    let expected: Vec<&str> = line.split_whitespace().collect();
    assert_eq!(program, expected[0]);
    assert_eq!(args, expected[1..].to_vec());
}

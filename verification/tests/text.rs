use gitwatch::text::{char_is_whitespace, decimal_text, flag_text, trim_end};
use gitwatch::LogEntry;

#[test]
fn trim_end_cuts_the_line_end() {
    assert_eq!(trim_end("main\n"), "main");
    assert_eq!(trim_end("main\r\n"), "main");
    assert_eq!(trim_end("main"), "main");
}

#[test]
fn trim_end_keeps_leading_and_inner_space() {
    assert_eq!(trim_end("  a b \t "), "  a b");
}

#[test]
fn trim_end_of_blank_is_empty() {
    assert_eq!(trim_end(""), "");
    assert_eq!(trim_end(" \n\t"), "");
}

#[test]
fn trim_end_agrees_with_the_standard_library() {
    for text in ["x\u{2003}", "x\u{a0}\u{3000}", "é \u{85}", "\u{200b}", "a\u{1680}b\u{2028}\u{2029}"] {
        assert_eq!(trim_end(text), text.trim_end());
    }
}

#[test]
fn whitespace_agrees_with_the_standard_library() {
    let mut code: u32 = 0;
    while code <= 0x3100 {
        if let Some(c) = char::from_u32(code) {
            assert_eq!(char_is_whitespace(c), c.is_whitespace());
        }
        code += 1;
    }
}

#[test]
fn decimal_text_of_small_and_large_numbers() {
    assert_eq!(decimal_text(0), "0");
    assert_eq!(decimal_text(7), "7");
    assert_eq!(decimal_text(10), "10");
    assert_eq!(decimal_text(1234567890), "1234567890");
    assert_eq!(decimal_text(usize::MAX), usize::MAX.to_string());
}

#[test]
fn flag_text_is_the_word() {
    assert_eq!(flag_text(true), "true");
    assert_eq!(flag_text(false), "false");
}

#[test]
fn command_output_is_logged_quoted() {
    let entry = LogEntry::Committed {
        repo: "docs".to_owned(),
        file: "a.md".to_owned(),
        output: "[main 1a2b3c] a.md\n 1 file changed".to_owned(),
    };
    assert_eq!(entry.message(), "\"[main 1a2b3c] a.md\\n 1 file changed\"");
    let entry = LogEntry::Pushed { repo: "docs".to_owned(), output: String::new() };
    assert_eq!(entry.message(), "\"\"");
}

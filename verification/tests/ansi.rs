use jobsrv_protocol::log::JobLog;
use jobsrv_protocol::sanitize::strip_line;

#[test]
fn test_ansi_stripping() {
    let mut log = JobLog {
        start: 0,
        stop: 4,
        content: Vec::new(),
        is_complete: false,
    };

    let lines = vec![
        "\u{1b}[1;33m\u{bb} Importing origin key from standard log\u{1b}[0m",
        "\u{1b}[1;34m\u{2605} Imported secret origin key core-20160810182414.\u{1b}[0m",
        "\u{1b}[1;33m\u{bb} Installing core/hab-backline\u{1b}[0m",
        "\u{1b}[1;32m\u{2193} Downloading\u{1b}[0m core/hab-backline/0.23.0/20170511220008",
    ];

    let content: Vec<String> = lines.iter().map(|l| l.to_string()).collect();
    log.content = content;

    log.strip_ansi();

    let stripped_lines: Vec<String> = log.content.iter().map(|l| l.to_string()).collect();

    let expected = vec![
        "\u{bb} Importing origin key from standard log",
        "\u{2605} Imported secret origin key core-20160810182414.",
        "\u{bb} Installing core/hab-backline",
        "\u{2193} Downloading core/hab-backline/0.23.0/20170511220008",
    ];
    assert_eq!(stripped_lines, expected);
}

#[test]
fn strip_line_removes_color_codes() {
    assert_eq!(
        strip_line("\u{1b}[1;33m\u{bb} Importing origin key\u{1b}[0m"),
        "\u{bb} Importing origin key"
    );
}

#[test]
fn strip_line_leaves_plain_text_unchanged() {
    assert_eq!(strip_line("plain text, no escapes"), "plain text, no escapes");
    assert_eq!(strip_line(""), "");
    assert_eq!(strip_line("unicode \u{2605} stays"), "unicode \u{2605} stays");
}

#[test]
fn strip_line_handles_csi_and_bare_sequences() {
    // the 8-bit control-sequence introducer works like ESC
    assert_eq!(strip_line("\u{9b}1;33mred"), "red");
    // a sequence with no parameters ends at its first final byte
    assert_eq!(strip_line("\u{1b}[mplain"), "plain");
    // a truncated sequence ends at its last parameter digit
    assert_eq!(strip_line("tail\u{1b}[31"), "tail");
    // a lone introducer with nothing recognizable after it stays
    assert_eq!(strip_line("\u{1b}["), "\u{1b}[");
}

#[test]
fn strip_ansi_preserves_line_count_and_window() {
    let mut log = JobLog {
        start: 3,
        stop: 6,
        content: vec![
            "\u{1b}[1;31mred\u{1b}[0m".to_string(),
            "".to_string(),
            "plain".to_string(),
        ],
        is_complete: true,
    };
    log.strip_ansi();
    assert_eq!(log.start, 3);
    assert_eq!(log.stop, 6);
    assert!(log.is_complete);
    assert_eq!(log.content.len(), 3);
    assert_eq!(log.content, vec!["red".to_string(), "".to_string(), "plain".to_string()]);
}

#[test]
fn strip_ansi_on_empty_content_returns_empty() {
    let mut log = JobLog {
        start: 0,
        stop: 0,
        content: Vec::new(),
        is_complete: false,
    };
    log.strip_ansi();
    assert!(log.content.is_empty());
}

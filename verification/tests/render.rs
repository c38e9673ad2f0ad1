use watch::config::WatchOpts;
use watch::render::render_frame;
use watch::render::render_text_frame;
use watch::render::status_line;
use watch::render::status_prefix;
use watch::render::truncate_line;
use watch::text::decimal;
use watch::text::spaces;

fn opts(interval_ms: u64, tokens: &[&str], no_title: bool) -> WatchOpts {
    let toks: Vec<String> = tokens.iter().map(|t| t.to_string()).collect();
    WatchOpts::new(false, false, no_title, interval_ms, &toks)
}

#[test]
fn status_prefix_two_seconds() {
    assert_eq!(status_prefix(2000), "Every 2.00s: ");
}

#[test]
fn status_prefix_fractional() {
    assert_eq!(status_prefix(1500), "Every 1.50s: ");
    assert_eq!(status_prefix(500), "Every 0.50s: ");
    assert_eq!(status_prefix(60990), "Every 60.99s: ");
    assert_eq!(status_prefix(2005), "Every 2.00s: ");
}

#[test]
fn decimal_digits() {
    assert_eq!(decimal(0), "0");
    assert_eq!(decimal(7), "7");
    assert_eq!(decimal(120), "120");
    assert_eq!(decimal(u64::MAX), "18446744073709551615");
}

#[test]
fn spaces_run() {
    assert_eq!(spaces(0), "");
    assert_eq!(spaces(4), "    ");
}

#[test]
fn status_line_fills_width_exactly() {
    for width in 0..120usize {
        let line = status_line("Every 2.00s: true", "Mon Jan  1 00:00:00 2024", width);
        assert_eq!(line.chars().count(), width);
    }
}

#[test]
fn status_line_right_aligns_timestamp() {
    let line = status_line("Every 2.00s: echo hello", "12:34:56", 80);
    assert_eq!(line.len(), 80);
    assert!(line.starts_with("Every 2.00s: echo hello"));
    assert!(line.ends_with("12:34:56"));
}

#[test]
fn status_line_exact_fit_has_no_padding() {
    assert_eq!(status_line("abc", "de", 5), "abcde");
}

#[test]
fn status_line_narrow_clamps_and_truncates() {
    let line = status_line("Every 2.00s: echo hello", "12:34:56", 10);
    assert_eq!(line, "Every 2.00");
}

#[test]
fn truncate_line_no_wrap() {
    assert_eq!(truncate_line("hello", 80), "hello");
    assert_eq!(truncate_line("hello", 3), "hel");
    assert_eq!(truncate_line("", 3), "");
    assert_eq!(truncate_line("abc", 0), "");
}

#[test]
fn scenario_echo_hello_80x24() {
    let o = opts(2000, &["echo", "hello"], false);
    let ts = "Mon Jan  1 00:00:00 2024";
    let frame = render_frame(&o, ts, b"hello\n", 80, 24);
    assert!(frame[0].starts_with("Every 2.00s: echo hello"));
    assert!(frame[0].ends_with(ts));
    assert_eq!(frame[0].chars().count(), 80);
    assert_eq!(frame[1], "");
    assert_eq!(frame[2], "hello");
    assert_eq!(frame.len(), 3);
}

#[test]
fn scenario_long_line_truncated_to_80() {
    let long: String = "x".repeat(200);
    let o = opts(2000, &["cat"], false);
    let frame = render_frame(&o, "ts", format!("{}\n", long).as_bytes(), 80, 24);
    assert_eq!(frame[2], "x".repeat(80));
    assert_eq!(frame[2].chars().count(), 80);
}

#[test]
fn short_output_appears_unmodified() {
    let o = opts(2000, &["ls"], false);
    let frame = render_frame(&o, "ts", b"one\ntwo\nthree\n", 80, 24);
    assert_eq!(&frame[2..], &["one", "two", "three"]);
}

#[test]
fn tall_output_cut_to_visible_rows_in_order() {
    let mut content = String::new();
    for i in 0..100 {
        content.push_str(&format!("line {}\n", i));
    }
    let o = opts(2000, &["seq"], false);
    let frame = render_frame(&o, "ts", content.as_bytes(), 80, 24);
    // status + blank + (24 - 3) output rows
    assert_eq!(frame.len(), 2 + 21);
    for i in 0..21 {
        assert_eq!(frame[2 + i], format!("line {}", i));
    }
}

#[test]
fn tiny_terminal_never_faults() {
    let o = opts(2000, &["ls"], false);
    for width in 0..4u16 {
        for height in 0..4u16 {
            let frame = render_frame(&o, "a long timestamp", b"a\nb\nc\n", width, height);
            assert_eq!(frame[0].chars().count(), width as usize);
            assert_eq!(frame.len(), 2);
        }
    }
}

#[test]
fn no_title_suppresses_header() {
    let o = opts(2000, &["ls"], true);
    let frame = render_frame(&o, "ts", b"one\ntwo\n", 80, 24);
    assert_eq!(frame, vec!["one".to_string(), "two".to_string()]);
}

#[test]
fn invalid_utf8_becomes_replacement_characters() {
    let o = opts(2000, &["cat"], false);
    let frame = render_frame(&o, "ts", &[b'h', b'i', 0xff, b'!', b'\n'], 80, 24);
    assert_eq!(frame[2], "hi\u{fffd}!");
}

#[test]
fn crlf_line_endings_are_stripped() {
    let frame = render_text_frame(true, "", "ts", "one\r\ntwo\r\n", 80, 24);
    assert_eq!(frame, vec!["one".to_string(), "two".to_string()]);
}

#[test]
fn empty_output_renders_header_only() {
    let o = opts(2000, &["true"], false);
    let frame = render_frame(&o, "ts", b"", 80, 24);
    assert_eq!(frame.len(), 2);
    assert_eq!(frame[1], "");
}

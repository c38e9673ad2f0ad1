use watch::config::WatchOpts;
use watch::lines::split_lines;

fn toks(tokens: &[&str]) -> Vec<String> {
    tokens.iter().map(|t| t.to_string()).collect()
}

#[test]
fn command_tokens_are_joined_with_spaces() {
    let o = WatchOpts::new(false, false, false, 2000, &toks(&["echo", "hello"]));
    assert_eq!(o.command, "echo hello");
}

#[test]
fn single_token_command_is_kept_as_is() {
    let o = WatchOpts::new(true, true, false, 500, &toks(&["uptime"]));
    assert_eq!(o.command, "uptime");
    assert!(o.difference);
    assert!(o.cumulative);
    assert!(!o.no_title);
    assert_eq!(o.interval_ms, 500);
}

#[test]
fn empty_token_list_gives_empty_command() {
    let o = WatchOpts::new(false, false, false, 2000, &toks(&[]));
    assert_eq!(o.command, "");
}

#[test]
fn shell_metacharacters_pass_through_unescaped() {
    let o = WatchOpts::new(false, false, false, 2000, &toks(&["ls", "|", "wc", "-l"]));
    assert_eq!(o.command, "ls | wc -l");
}

#[test]
fn split_lines_matches_str_lines() {
    for case in [
        "",
        "a",
        "a\n",
        "\n",
        "a\nb",
        "a\nb\n",
        "a\r\nb\r\n",
        "\r\n",
        "a\r",
        "a\n\nb",
        "trailing space \n",
    ] {
        let got = split_lines(case);
        let want: Vec<String> = case.lines().map(|l| l.to_string()).collect();
        assert_eq!(got, want, "case {:?}", case);
    }
}

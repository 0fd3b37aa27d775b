use sentinel::cli::{help_hint, help_text, parse_command, unknown_option_message, Command};

fn args(list: &[&str]) -> Vec<String> {
    list.iter().map(|s| s.to_string()).collect()
}

#[test]
fn parse_known_commands() {
    assert_eq!(parse_command(&args(&["sentinel", "--install"])), Command::Install);
    assert_eq!(parse_command(&args(&["sentinel", "--uninstall"])), Command::Uninstall);
    assert_eq!(parse_command(&args(&["sentinel", "config"])), Command::Configure);
    assert_eq!(parse_command(&args(&["sentinel", "--help"])), Command::Help);
    assert_eq!(parse_command(&args(&["sentinel", "-h"])), Command::Help);
    assert_eq!(parse_command(&args(&["sentinel", "--status"])), Command::Status);
}

#[test]
fn parse_without_arguments_runs_without_url() {
    assert_eq!(parse_command(&args(&["sentinel"])), Command::Run(None));
    assert_eq!(parse_command(&args(&[])), Command::Run(None));
}

#[test]
fn parse_webhook_argument_runs_with_url() {
    let url = "https://discord.com/api/webhooks/1/abc";
    assert_eq!(
        parse_command(&args(&["sentinel", url, "ignored"])),
        Command::Run(Some(url.to_string()))
    );
}

#[test]
fn parse_unknown_flags_are_invalid() {
    assert_eq!(
        parse_command(&args(&["sentinel", "--bogus"])),
        Command::Invalid("--bogus".to_string())
    );
    assert_eq!(parse_command(&args(&["sentinel", "-x"])), Command::Invalid("-x".to_string()));
    assert_eq!(parse_command(&args(&["sentinel", "-"])), Command::Invalid("-".to_string()));
    assert_eq!(
        parse_command(&args(&["sentinel", "uninstall"])),
        Command::Invalid("uninstall".to_string())
    );
    assert_eq!(parse_command(&args(&["sentinel", "install"])), Command::Run(Some("install".to_string())));
}

#[test]
fn dashed_argument_is_never_a_webhook_example() {
    for arg in ["-", "--", "--install-now", "-https://x"] {
        assert!(!matches!(parse_command(&args(&["sentinel", arg])), Command::Run(_)));
    }
}

#[test]
fn unknown_option_message_names_argument() {
    assert_eq!(
        unknown_option_message("--bogus"),
        "[x] Error: Unknown option flag or command '--bogus'."
    );
    assert_eq!(help_hint(), "Run 'sentinel --help' to see valid operations.");
}

#[test]
fn help_text_lists_commands() {
    let text = help_text();
    let lines: Vec<&str> = text.lines().collect();
    assert_eq!(lines[0], "Sentinel Resource Monitor");
    assert_eq!(lines[1], "Usage:");
    assert_eq!(lines[4], "");
    assert_eq!(lines[5], "Commands:");
    assert!(text.contains("  --install                Auto-detect init framework and deploy background service (requires 'sudo')\n"));
    assert!(text.contains("  --status "));
    assert!(text.ends_with("  --help                   Display execution options and flags\n"));
}

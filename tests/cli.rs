use skyset::cli::{parse_cli, OutputMode};

fn args(list: &[&str]) -> Vec<String> {
    list.iter().map(|s| s.to_string()).collect()
}

#[test]
fn parse_empty() {
    let r = parse_cli(Vec::new());
    assert!(r.config_path.is_none());
    assert!(!r.show_help);
    assert_eq!(r.output_mode, OutputMode::Tui);
    assert!(r.overrides.message.is_none());
}

#[test]
fn parse_flags_and_values() {
    let r = parse_cli(args(&[
        "-h",
        "--message",
        "hello",
        "--accent=#abc123",
        "--source-will-update",
        "yes",
        "--json",
        "path.yml",
        "other.yml",
    ]));
    assert!(r.show_help);
    assert_eq!(r.overrides.message.as_deref(), Some("hello"));
    assert_eq!(r.overrides.accent.as_deref(), Some("#abc123"));
    assert_eq!(r.overrides.source_will_update.as_deref(), Some("yes"));
    assert_eq!(r.output_mode, OutputMode::Json);
    assert_eq!(r.config_path.as_deref(), Some("path.yml"));
}

#[test]
fn parse_config_file_ends_parse() {
    let r = parse_cli(args(&["first.yml", "--config-file", "cfg.yml", "--oneline"]));
    assert_eq!(r.config_path.as_deref(), Some("cfg.yml"));
    assert_eq!(r.output_mode, OutputMode::Tui);
    let r = parse_cli(args(&["--config-file=a.yml"]));
    assert_eq!(r.config_path.as_deref(), Some("a.yml"));
}

#[test]
fn parse_flag_without_value() {
    let r = parse_cli(args(&["--hero2"]));
    assert!(r.overrides.hero2.is_none());
    assert!(r.config_path.is_none());
    let r = parse_cli(args(&["--mode", "light", "--unknown", "--oneline"]));
    assert_eq!(r.overrides.theme_mode.as_deref(), Some("light"));
    assert_eq!(r.output_mode, OutputMode::Oneline);
}

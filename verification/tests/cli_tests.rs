use clap::builder::{PathBufValueParser, RangedU64ValueParser};
use clap::{Arg, ArgAction, Command};
use std::path::PathBuf;

#[derive(Debug)]
struct TestCli {
    projects_dir: Option<PathBuf>,
    port: u16,
    tui: bool,
}

fn command() -> Command {
    Command::new("cc-log-viewer")
        .about("Sample Code log viewer - Web interface for viewing conversation logs")
        .arg(
            Arg::new("projects_dir")
                .value_name("PROJECTS_DIR")
                .value_parser(PathBufValueParser::new())
                .help(
                    "Path to projects directory containing log files (defaults to ~/.sample/projects/)",
                ),
        )
        .arg(
            Arg::new("port")
                .short('p')
                .long("port")
                .value_name("PORT")
                .value_parser(RangedU64ValueParser::<u16>::new())
                .default_value("2006")
                .help("Port to serve on"),
        )
        .arg(
            Arg::new("tui")
                .long("tui")
                .action(ArgAction::SetTrue)
                .help("Use terminal UI instead of web interface"),
        )
}

fn try_parse_from(args: &[&str]) -> Result<TestCli, clap::Error> {
    let matches = command().try_get_matches_from(args)?;
    Ok(TestCli {
        projects_dir: matches.get_one::<PathBuf>("projects_dir").cloned(),
        port: *matches.get_one::<u16>("port").unwrap(),
        tui: matches.get_flag("tui"),
    })
}

#[test]
fn test_cli_tui_flag_parsing() {
    let cli = try_parse_from(&["cc-log-viewer", "--tui"]).unwrap();
    assert!(cli.tui);
    assert_eq!(cli.port, 2006);
    assert!(cli.projects_dir.is_none());

    let cli_no_tui = try_parse_from(&["cc-log-viewer"]).unwrap();
    assert!(!cli_no_tui.tui);
}

#[test]
fn test_cli_port_flag_parsing() {
    let cli_default = try_parse_from(&["cc-log-viewer"]).unwrap();
    assert_eq!(cli_default.port, 2006);

    let cli_short = try_parse_from(&["cc-log-viewer", "-p", "8080"]).unwrap();
    assert_eq!(cli_short.port, 8080);

    let cli_long = try_parse_from(&["cc-log-viewer", "--port", "3000"]).unwrap();
    assert_eq!(cli_long.port, 3000);
}

#[test]
fn test_cli_projects_dir_parsing() {
    let cli_default = try_parse_from(&["cc-log-viewer"]).unwrap();
    assert!(cli_default.projects_dir.is_none());

    let cli_with_dir = try_parse_from(&["cc-log-viewer", "/custom/path"]).unwrap();
    assert_eq!(
        cli_with_dir.projects_dir,
        Some(PathBuf::from("/custom/path"))
    );
}

#[test]
fn test_cli_combined_flags() {
    let cli = try_parse_from(&["cc-log-viewer", "--tui", "--port", "9000", "/my/projects"]).unwrap();

    assert!(cli.tui);
    assert_eq!(cli.port, 9000);
    assert_eq!(cli.projects_dir, Some(PathBuf::from("/my/projects")));
}

#[test]
fn test_cli_invalid_port_handling() {
    let result = try_parse_from(&["cc-log-viewer", "--port", "not-a-number"]);
    assert!(result.is_err());

    let cli_zero = try_parse_from(&["cc-log-viewer", "--port", "0"]).unwrap();
    assert_eq!(cli_zero.port, 0);
}

#[test]
fn test_cli_help_generation() {
    let mut app = command();
    let help_text = app.render_help().to_string();

    assert!(help_text.contains("--tui"));
    assert!(help_text.contains("Use terminal UI instead of web interface"));
    assert!(help_text.contains("--port"));
    assert!(help_text.contains("Port to serve on"));
    assert!(help_text.contains("[default: 2006]"));
    assert!(help_text.contains("PROJECTS_DIR"));
    assert!(help_text.contains("~/.sample/projects"));
}

#[test]
fn test_cli_flag_order_independence() {
    let cli1 = try_parse_from(&["cc-log-viewer", "--tui", "--port", "8080"]).unwrap();
    let cli2 = try_parse_from(&["cc-log-viewer", "--port", "8080", "--tui"]).unwrap();

    assert_eq!(cli1.tui, cli2.tui);
    assert_eq!(cli1.port, cli2.port);
}

#[test]
fn test_cli_short_vs_long_flags() {
    let cli_short = try_parse_from(&["cc-log-viewer", "-p", "5000"]).unwrap();
    let cli_long = try_parse_from(&["cc-log-viewer", "--port", "5000"]).unwrap();

    assert_eq!(cli_short.port, cli_long.port);
}

#[test]
fn test_cli_unknown_flag_handling() {
    let result = try_parse_from(&["cc-log-viewer", "--unknown-flag"]);
    assert!(result.is_err());

    let error_msg = format!("{}", result.unwrap_err());
    assert!(
        error_msg.contains("unexpected")
            || error_msg.contains("unrecognized")
            || error_msg.contains("error")
            || error_msg.contains("unknown")
    );
}

#[test]
fn test_cli_version_info_structure() {
    let app = command();

    assert_eq!(app.get_name(), "cc-log-viewer");

    let about = app.get_about().unwrap().to_string();
    assert!(about.contains("Sample Code log viewer"));
    assert!(about.contains("Web interface for viewing conversation logs"));
}

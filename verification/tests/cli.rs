use calendar_tui::cli::Cli;
use clap::{Arg, Command};

/// The command line of the calendar, written with clap's builder.
fn command() -> Command {
    Command::new("calendar-tui")
        .about("Interactive terminal calendar")
        .arg(Arg::new("config").long("config").value_name("FILE"))
        .arg(Arg::new("theme").long("theme").value_name("FILE"))
}

#[test]
fn cli_parses_config_and_theme_paths() {
    let matches = command()
        .try_get_matches_from(["calendar-tui", "--config", "/tmp/config.toml", "--theme", "/tmp/theme.toml"])
        .expect("cli should parse");
    let cli = Cli {
        config: matches.get_one::<String>("config").cloned(),
        theme: matches.get_one::<String>("theme").cloned(),
    };

    assert_eq!(cli.config.as_deref(), Some("/tmp/config.toml"));
    assert_eq!(cli.theme.as_deref(), Some("/tmp/theme.toml"));
}

use calendar_tui::calendar::MonthGrid;
use calendar_tui::cli::Cli;
use calendar_tui::config::{Calendar, Config, Display};
use calendar_tui::date::{Date, WeekStart};
use calendar_tui::settings::Settings;
use calendar_tui::error::Error;
use calendar_tui::theme::{Base, Theme};
use calendar_tui::view::ViewMode;

fn example_config() -> Config {
    Config {
        calendar: Some(Calendar {
            week_start: Some(WeekStart::Monday),
            show_week_numbers: Some(true),
            theme: Some("theme.toml".to_string()),
        }),
        display: Some(Display {
            date_format: Some("%a, %d %b %Y".to_string()),
            month_year_format: Some("%B %Y".to_string()),
            default_mode: Some(ViewMode::Year),
        }),
    }
}

#[test]
fn settings_from_examples() {
    let config = example_config();
    let theme = Theme::default();
    let settings = Settings::resolve(&config, &theme).unwrap();
    assert!(settings.show_week_numbers);
    let expected_grid = MonthGrid::build(settings.view.view_year, settings.view.view_month, settings.week_start);
    assert_eq!(settings.grid.week_count(), expected_grid.week_count());
    assert_eq!(settings.date_format, "%a, %d %b %Y");
    assert_eq!(settings.view.mode, ViewMode::Year);
}

#[test]
fn sunday_week_start_from_config_changes_grid_layout() {
    let config = Config {
        calendar: Some(Calendar { week_start: Some(WeekStart::Sunday), show_week_numbers: None, theme: None }),
        display: None,
    };
    let theme = Theme::default();
    let settings = Settings::resolve(&config, &theme).unwrap();
    assert_eq!(settings.week_start, WeekStart::Sunday);

    let monday_grid = MonthGrid::build(2026, 5, WeekStart::Monday);
    assert_ne!(settings.grid.weeks, monday_grid.weeks);
}

#[test]
fn resolve_at_opens_today_in_configured_mode() {
    let mut config = example_config();
    config.display = Some(Display { date_format: None, month_year_format: None, default_mode: Some(ViewMode::Month) });
    let today = Date { year: 2026, month: 5, day: 18 };
    let settings = Settings::resolve_at(&config, &Theme::default(), today).unwrap();
    assert_eq!(settings.view.mode, ViewMode::Month);
    assert_eq!((settings.view.view_year, settings.view.view_month), (2026, 5));
    assert_eq!(settings.view.selected_day, Some(18));
    assert_eq!(settings.grid, MonthGrid::build(2026, 5, WeekStart::Monday));
    assert_eq!(settings.year_grids.len(), 12);
    assert_eq!(settings.year_grids[1], Some(MonthGrid::build(2026, 2, WeekStart::Monday)));
    assert_eq!(settings.date_format, "%a, %d %b %Y");
    assert_eq!(settings.month_year_format, "%B %Y");
}

#[test]
fn sync_view_rebuilds_grids() {
    let today = Date { year: 2026, month: 5, day: 18 };
    let mut settings = Settings::resolve_at(&example_config(), &Theme::default(), today).unwrap();
    settings.view.next_year(WeekStart::Monday);
    settings.view.next_month(WeekStart::Monday);
    settings.sync_view();
    assert_eq!(settings.grid, MonthGrid::build(2027, 6, WeekStart::Monday));
    assert_eq!(settings.year_grids[0], Some(MonthGrid::build(2027, 1, WeekStart::Monday)));
}

#[test]
fn from_cli_resolves_the_loaded_files() {
    let cli = Cli { config: Some("/tmp/config.toml".to_string()), theme: None };
    let settings = Settings::from_cli(&cli, example_config(), Theme::default()).unwrap();
    assert!(settings.show_week_numbers);
    assert_eq!(settings.view.mode, ViewMode::Year);
}

#[test]
fn resolve_at_in_the_edge_years() {
    let config = example_config();
    let last = Settings::resolve_at(&config, &Theme::default(), Date { year: 262142, month: 6, day: 1 }).unwrap();
    assert_eq!((last.view.view_year, last.view.view_month), (262142, 6));
    assert_eq!(last.year_grids[10], Some(MonthGrid::build(262142, 11, WeekStart::Monday)));
    assert_eq!(last.year_grids[11], None);
    let december = Settings::resolve_at(&config, &Theme::default(), Date { year: 262142, month: 12, day: 5 });
    assert!(matches!(december, Err(Error::DateOutOfRange)));
    let mut bad = Theme::default();
    bad.base = Some(Base { background: Some("#zz0000".to_string()), foreground: None, border: None });
    let colour_first = Settings::resolve_at(&config, &bad, Date { year: 262142, month: 12, day: 5 });
    assert!(matches!(colour_first, Err(Error::InvalidColor { .. })));
    let first = Settings::resolve_at(&config, &Theme::default(), Date { year: -262143, month: 3, day: 1 }).unwrap();
    assert_eq!(first.year_grids[0], None);
    assert!(first.year_grids[1].is_some());
}

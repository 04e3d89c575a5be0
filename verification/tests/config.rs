use calendar_tui::config::{config_dir, default_config_path, Calendar, Config, Display};
use calendar_tui::date::WeekStart;
use calendar_tui::error::Error;
use calendar_tui::view::ViewMode;

/// The configuration of the example file.
fn example_config() -> Config {
    Config {
        calendar: Some(Calendar {
            week_start: Some(WeekStart::Monday),
            show_week_numbers: Some(true),
            theme: Some("theme.toml".to_string()),
        }),
        display: Some(Display {
            date_format: Some("%a, %d %b %Y".to_string()),
            month_year_format: Some("%B %Y".to_string()),
            default_mode: Some(ViewMode::Year),
        }),
    }
}

#[test]
fn example_config_toml_deserializes() {
    let cfg = example_config();
    assert_eq!(cfg.week_start(), WeekStart::Monday);
    assert!(cfg.show_week_numbers());
    assert_eq!(cfg.theme_name(), "theme.toml");
    assert_eq!(cfg.date_format(), "%a, %d %b %Y");
    assert_eq!(cfg.month_year_format(), "%B %Y");
    assert_eq!(cfg.default_mode(), ViewMode::Year);
}

#[test]
fn sunday_week_start_from_config() {
    let cfg = Config {
        calendar: Some(Calendar { week_start: Some(WeekStart::Sunday), show_week_numbers: None, theme: None }),
        display: None,
    };
    assert_eq!(cfg.week_start(), WeekStart::Sunday);
}

#[test]
fn config_without_display_defaults_to_year_mode() {
    let cfg = Config {
        calendar: Some(Calendar { week_start: Some(WeekStart::Monday), show_week_numbers: None, theme: None }),
        display: None,
    };
    assert_eq!(cfg.default_mode(), ViewMode::Year);
}

#[test]
fn missing_keys_take_builtin_values() {
    let cfg = Config { calendar: None, display: None };
    assert_eq!(cfg.week_start(), WeekStart::Monday);
    assert!(!cfg.show_week_numbers());
    assert_eq!(cfg.theme_name(), "theme.toml");
    assert_eq!(cfg.date_format(), "%a, %d %b %Y");
    assert_eq!(cfg.month_year_format(), "%B %Y");
    let cfg = Config {
        calendar: None,
        display: Some(Display { date_format: None, month_year_format: Some("%m/%Y".to_string()), default_mode: Some(ViewMode::Month) }),
    };
    assert_eq!(cfg.date_format(), "%a, %d %b %Y");
    assert_eq!(cfg.month_year_format(), "%m/%Y");
    assert_eq!(cfg.default_mode(), ViewMode::Month);
}

#[test]
fn default_config_matches_builtin_values() {
    let cfg = Config::default();
    assert_eq!(cfg.week_start(), WeekStart::Monday);
    assert!(!cfg.show_week_numbers());
    assert_eq!(cfg.theme_name(), "theme.toml");
    assert_eq!(cfg.default_mode(), ViewMode::Year);
    let fallback = Config::load_or_default(Err(Error::NotATty));
    assert_eq!(fallback.week_start(), WeekStart::Monday);
    let kept = Config::load_or_default(Ok(example_config()));
    assert!(kept.show_week_numbers());
}

#[test]
fn config_dir_prefers_xdg_then_home() {
    assert_eq!(config_dir(Some("/xdg"), Some("/home/u")), "/xdg/calendar-tui");
    assert_eq!(config_dir(Some(""), Some("/home/u")), "/home/u/.config/calendar-tui");
    assert_eq!(config_dir(None, Some("/home/u")), "/home/u/.config/calendar-tui");
    assert_eq!(config_dir(None, None), ".config/calendar-tui");
    assert_eq!(default_config_path("/xdg/calendar-tui"), "/xdg/calendar-tui/config.toml");
}

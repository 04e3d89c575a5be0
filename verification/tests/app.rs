use calendar_tui::app::{App, KeyCode, KeyEvent};
use calendar_tui::calendar::MonthGrid;
use calendar_tui::config::Config;
use calendar_tui::date::{Date, WeekStart};
use calendar_tui::settings::Settings;
use calendar_tui::theme::Theme;
use calendar_tui::view::ViewMode;

fn app_at(year: i32, month: u32, day: u32) -> App {
    let settings = Settings::resolve_at(&Config::default(), &Theme::default(), Date { year, month, day }).unwrap();
    App::new(settings)
}

fn key(code: KeyCode) -> KeyEvent {
    KeyEvent { code, ctrl: false }
}

fn assert_grids_match(app: &App) {
    let v = &app.settings.view;
    assert_eq!(app.settings.grid, MonthGrid::build(v.view_year, v.view_month, WeekStart::Monday));
    for (i, grid) in app.settings.year_grids.iter().enumerate() {
        assert_eq!(grid.as_ref(), Some(&MonthGrid::build(v.view_year, i as u32 + 1, WeekStart::Monday)));
    }
}

#[test]
fn quit_keys_stop_the_calendar() {
    let mut app = app_at(2026, 5, 18);
    app.handle_key(KeyEvent { code: KeyCode::Char('c'), ctrl: false });
    assert!(app.running);
    app.handle_key(KeyEvent { code: KeyCode::Char('c'), ctrl: true });
    assert!(!app.running);
    let mut app = app_at(2026, 5, 18);
    app.handle_key(key(KeyCode::Char('q')));
    assert!(!app.running);
}

#[test]
fn year_view_keys() {
    let mut app = app_at(2026, 5, 18);
    assert_eq!(app.settings.view.mode, ViewMode::Year);
    app.handle_key(key(KeyCode::Right));
    assert_eq!(app.settings.view.focused_month, 6);
    app.handle_key(key(KeyCode::PageDown));
    assert_eq!(app.settings.view.view_year, 2027);
    assert_grids_match(&app);
    app.handle_key(key(KeyCode::Enter));
    assert_eq!(app.settings.view.mode, ViewMode::Month);
    assert_eq!((app.settings.view.view_year, app.settings.view.view_month), (2027, 6));
    assert_grids_match(&app);
    app.handle_key(key(KeyCode::Esc));
    assert_eq!(app.settings.view.mode, ViewMode::Year);
    app.handle_key(key(KeyCode::Char('t')));
    assert_eq!((app.settings.view.view_year, app.settings.view.view_month), (2026, 5));
    assert_grids_match(&app);
}

#[test]
fn month_view_keys_and_selection_mode() {
    let mut app = app_at(2026, 5, 18);
    app.handle_key(key(KeyCode::Char('m')));
    assert_eq!(app.settings.view.mode, ViewMode::Month);
    app.handle_key(key(KeyCode::Char('l')));
    assert_eq!(app.settings.view.view_month, 6);
    assert_grids_match(&app);
    app.handle_key(key(KeyCode::Char('k')));
    assert_eq!(app.settings.view.view_year, 2025);
    assert_grids_match(&app);
    app.handle_key(key(KeyCode::Char(' ')));
    assert!(app.settings.view.selection_mode);
    app.handle_key(key(KeyCode::Down));
    assert_eq!(app.settings.view.selected_day, Some(25));
    app.handle_key(key(KeyCode::Left));
    assert_eq!(app.settings.view.selected_day, Some(24));
    assert_eq!(app.settings.view.view_month, 6);
    app.handle_key(key(KeyCode::Enter));
    assert!(!app.settings.view.selection_mode);
    app.handle_key(key(KeyCode::Char('y')));
    assert_eq!(app.settings.view.mode, ViewMode::Year);
    assert_eq!(app.settings.view.focused_month, 6);
    app.handle_key(key(KeyCode::Other));
    assert!(app.running);
}

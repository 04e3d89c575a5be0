use calendar_tui::calendar::{DayCell, MonthGrid};
use calendar_tui::config::{Calendar, Config, Display};
use calendar_tui::date::{naive_from_ymd, Date, WeekStart};
use calendar_tui::render::{
    block_style, column_lines, column_rects, day_line, help_text, mini_rows, split_week_column,
    week_column_label, week_number_labels, mini_day_style, mini_month_border, mini_month_cells, mini_month_view,
    month_cell_rows, month_header_text, month_name, status_text, style_for_cell, weekday_labels,
    year_header_text, year_status_text, Rect,
};
use calendar_tui::settings::Settings;
use calendar_tui::theme::{Base, Theme};
use calendar_tui::view::{ViewMode, ViewState};

fn example_settings_for_view(year: i32, month: u32, today: Date) -> Settings {
    let config = Config {
        calendar: Some(Calendar {
            week_start: Some(WeekStart::Monday),
            show_week_numbers: Some(true),
            theme: Some("theme.toml".to_string()),
        }),
        display: Some(Display {
            date_format: Some("%a, %d %b %Y".to_string()),
            month_year_format: Some("%B %Y".to_string()),
            default_mode: Some(ViewMode::Year),
        }),
    };
    let theme = Theme::default();
    let mut settings = Settings::resolve_at(&config, &theme, today).unwrap();
    settings.view.view_year = year;
    settings.view.view_month = month;
    settings.view.today = today;
    settings.view.selected_day = Some(today.day);
    settings.grid = MonthGrid::build(year, month, settings.week_start);
    settings
}

fn view(year: i32, month: u32, selected: Option<u32>, today: Date) -> ViewState {
    ViewState {
        mode: ViewMode::Month,
        view_year: year,
        view_month: month,
        focused_month: month,
        selected_day: selected,
        selection_mode: false,
        today,
    }
}

#[test]
fn weekday_labels_rotate_with_week_start() {
    assert_eq!(weekday_labels(WeekStart::Monday)[0], "Mo");
    assert_eq!(weekday_labels(WeekStart::Sunday)[0], "Su");
}

#[test]
fn style_for_cell_highlights_today_in_adjacent_month() {
    let colors = Theme::default().resolve().unwrap();
    let today = naive_from_ymd(2026, 5, 18).unwrap();
    let view = view(2026, 6, None, today);
    let cell = DayCell { date: today, day: 18, in_month: false };
    let style = style_for_cell(&cell, &view, &colors);
    assert!(style.bold);
    assert_eq!(style.fg, Some(colors.today.to_rgb()));
}

#[test]
fn style_for_cell_uses_other_month_when_not_today() {
    let colors = Theme::default().resolve().unwrap();
    let today = naive_from_ymd(2026, 5, 18).unwrap();
    let view = view(2026, 5, None, today);
    let cell = DayCell { date: naive_from_ymd(2026, 4, 30).unwrap(), day: 30, in_month: false };
    let style = style_for_cell(&cell, &view, &colors);
    assert_eq!(style.fg, Some(colors.other_month.to_rgb()));
}

#[test]
fn today_underline_only_on_day_digits() {
    let colors = Theme::default().resolve().unwrap();
    let today = naive_from_ymd(2026, 5, 18).unwrap();
    let view = view(2026, 5, Some(18), today);
    let cell = DayCell { date: today, day: 18, in_month: true };
    let line = day_line(&cell, &view, &colors, 5);
    let spans: Vec<_> = line.spans.iter().collect();
    assert_eq!(spans.len(), 2);
    assert!(!spans[0].style.underlined);
    assert!(spans[1].style.underlined);
    assert_eq!(spans[1].content, "18");
}

#[test]
fn today_style_requires_matching_date_not_day_number() {
    let today = naive_from_ymd(2026, 5, 18).unwrap();
    let settings = example_settings_for_view(2026, 6, today);
    let june_18 = DayCell { date: naive_from_ymd(2026, 6, 18).unwrap(), day: 18, in_month: true };
    let style = style_for_cell(&june_18, &settings.view, &settings.colors);
    assert_ne!(style.fg, Some(settings.colors.today.to_rgb()));

    let may_18 = DayCell { date: today, day: 18, in_month: true };
    let style = style_for_cell(&may_18, &settings.view, &settings.colors);
    assert_eq!(style.fg, Some(settings.colors.today.to_rgb()));
}

#[test]
fn style_priorities_selected_then_weekend_then_plain() {
    let colors = Theme::default().resolve().unwrap();
    let today = naive_from_ymd(2026, 5, 18).unwrap();
    let v = view(2026, 5, Some(23), today);
    // 2026-05-23 is a Saturday, selected
    let saturday = DayCell { date: naive_from_ymd(2026, 5, 23).unwrap(), day: 23, in_month: true };
    let style = style_for_cell(&saturday, &v, &colors);
    assert_eq!(style.fg, Some(colors.selected.to_rgb()));
    assert!(style.reversed);
    let sunday = DayCell { date: naive_from_ymd(2026, 5, 24).unwrap(), day: 24, in_month: true };
    assert_eq!(style_for_cell(&sunday, &v, &colors).fg, Some(colors.weekend.to_rgb()));
    let tuesday = DayCell { date: naive_from_ymd(2026, 5, 19).unwrap(), day: 19, in_month: true };
    let plain = style_for_cell(&tuesday, &v, &colors);
    assert_eq!(plain, colors.cell_base());
    assert_eq!(plain.bg, Some(colors.background.to_rgb()));
}

#[test]
fn day_line_right_aligns_other_days() {
    let colors = Theme::default().resolve().unwrap();
    let today = naive_from_ymd(2026, 5, 18).unwrap();
    let v = view(2026, 5, None, today);
    let cell = DayCell { date: naive_from_ymd(2026, 5, 5).unwrap(), day: 5, in_month: true };
    let line = day_line(&cell, &v, &colors, 3);
    assert_eq!(line.spans.len(), 1);
    assert_eq!(line.spans[0].content, "  5");
    let narrow = day_line(&cell, &v, &colors, 0);
    assert_eq!(narrow.spans[0].content, "5");
}

#[test]
fn weekday_labels_follow_each_start() {
    assert_eq!(
        weekday_labels(WeekStart::Saturday),
        ["Sa", "Su", "Mo", "Tu", "We", "Th", "Fr"].map(|s| s.to_string())
    );
}

#[test]
fn column_rects_split_evenly_with_remainder_last() {
    let area = Rect { x: 2, y: 3, width: 23, height: 4 };
    let cols = column_rects(area, 7);
    assert_eq!(cols.len(), 7);
    assert_eq!(cols[0], Rect { x: 2, y: 3, width: 3, height: 4 });
    assert_eq!(cols[1].x, 5);
    assert_eq!(cols[6], Rect { x: 20, y: 3, width: 5, height: 4 });
    assert_eq!(column_rects(area, 0), vec![area]);
}

#[test]
fn month_cell_rows_stop_at_the_bottom() {
    let inner = Rect { x: 1, y: 10, width: 14, height: 3 };
    let rows = month_cell_rows(inner, 5);
    assert_eq!(rows.len(), 3);
    assert_eq!(rows[2][1], Rect { x: 3, y: 12, width: 2, height: 1 });
    assert!(month_cell_rows(Rect { x: 0, y: 0, width: 0, height: 5 }, 5).is_empty());
}

#[test]
fn mini_month_cells_use_sixth_height_rows() {
    let inner = Rect { x: 0, y: 0, width: 21, height: 13 };
    let cells = mini_month_cells(inner, 5);
    assert_eq!(cells.len(), 5);
    assert_eq!(cells[4][6], Rect { x: 18, y: 8, width: 3, height: 2 });
    assert!(mini_month_cells(Rect { x: 0, y: 0, width: 6, height: 13 }, 5).is_empty());
    assert!(mini_month_cells(Rect { x: 0, y: 0, width: 21, height: 5 }, 5).is_empty());
}

#[test]
fn year_view_texts_and_styles() {
    let colors = Theme::default().resolve().unwrap();
    let today = naive_from_ymd(2026, 5, 18).unwrap();
    let mut v = view(2026, 5, Some(3), today);
    v.focused_month = 9;
    assert_eq!(year_header_text(&v), "2026 — Sep");
    assert_eq!(year_status_text(&v, "%a, %d %b %Y").unwrap(), "Mon, 18 May 2026    Year: 2026");
    assert_eq!(status_text(&v, "%Y-%m-%d", 6).unwrap(), "2026-05-18    Weeks: 6");
    assert_eq!(month_header_text(&v, "%B %Y").unwrap(), "May 2026");
    let mut odd = v;
    odd.view_month = 13;
    assert_eq!(month_header_text(&odd, "%B %Y").unwrap(), "13 / 2026");
    assert!(status_text(&v, "%Q", 6).is_none());
    assert_eq!(month_name(12), "Dec");
    assert_eq!(help_text(&v), "h/l month  j/k year  esc year-view  q quit");
    let mut selecting = v;
    selecting.selection_mode = true;
    assert_eq!(help_text(&selecting), "h/l day  j/k week  space done  esc year-view  q quit");
    let mut year = v;
    year.mode = ViewMode::Year;
    assert_eq!(help_text(&year), "h/l focus  j/k year  t today  enter open  q quit");
    let mini = mini_month_view(&v, 2);
    assert_eq!(mini.selected_day, None);
    assert_eq!(mini.view_month, 2);
    let cell = DayCell { date: today, day: 18, in_month: true };
    let style = mini_day_style(&cell, &mini, &colors);
    assert!(style.bold && !style.underlined);
    assert_eq!(style.fg, Some(colors.today.to_rgb()));
    assert!(mini_month_border(true, &colors).bold);
    assert_eq!(mini_month_border(false, &colors).fg, Some(colors.border.to_rgb()));
}

#[test]
fn transparent_background_leaves_the_terminal_color() {
    let theme = Theme {
        base: Some(Base { background: Some("#1e1e2e00".to_string()), foreground: None, border: None }),
        calendar: None,
    };
    let colors = theme.resolve().unwrap();
    assert!(colors.background.is_transparent());
    assert_eq!(block_style(&colors).bg, None);
    assert_eq!(colors.cell_base().bg, None);
    assert_eq!(colors.cell_base().fg, Some(colors.foreground.to_rgb()));
    let opaque = Theme::default().resolve().unwrap();
    assert!(!opaque.background.is_transparent());
    assert_eq!(block_style(&opaque).bg, Some(opaque.background.to_rgb()));
}

#[test]
fn week_number_column_left_of_the_grid() {
    let area = Rect { x: 1, y: 2, width: 30, height: 6 };
    assert_eq!(split_week_column(area, false), (None, area));
    let (col, rest) = split_week_column(area, true);
    assert_eq!(col, Some(Rect { x: 1, y: 2, width: 4, height: 6 }));
    assert_eq!(rest, Rect { x: 5, y: 2, width: 26, height: 6 });
    let narrow = Rect { x: 0, y: 0, width: 3, height: 1 };
    assert_eq!(split_week_column(narrow, true), (Some(narrow), Rect { x: 3, y: 0, width: 0, height: 1 }));
    assert_eq!(week_column_label(), "Wk");
    // May 2026, Monday start: rows of ISO weeks 18 to 22
    let grid = MonthGrid::build(2026, 5, WeekStart::Monday);
    assert_eq!(week_number_labels(&grid), ["18", "19", "20", "21", "22"].map(|s| s.to_string()).to_vec());
    let lines = column_lines(col.unwrap(), 5);
    assert_eq!(lines.len(), 5);
    assert_eq!(lines[4], Rect { x: 1, y: 6, width: 4, height: 1 });
    let rows = mini_rows(Rect { x: 0, y: 0, width: 4, height: 13 }, 5);
    assert_eq!(rows[4], Rect { x: 0, y: 8, width: 4, height: 2 });
}

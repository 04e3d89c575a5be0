use calendar_tui::date::{Date, WeekStart, MAX_YEAR, MIN_YEAR};

const WS: WeekStart = WeekStart::Monday;
use calendar_tui::view::{ViewMode, ViewState};

fn view_at(year: i32, month: u32, selected: Option<u32>) -> ViewState {
    ViewState {
        mode: ViewMode::Month,
        view_year: year,
        view_month: month,
        focused_month: month,
        selected_day: selected,
        selection_mode: false,
        today: Date { year: 2026, month: 5, day: 18 },
    }
}

#[test]
fn new_at_today_has_selection() {
    let view = ViewState::new_at_today(WS).expect("the grid of the current month can be laid out");
    assert_eq!(view.view_year, view.today.year);
    assert_eq!(view.view_month, view.today.month);
    assert_eq!(view.selected_day, Some(view.today.day));
}

#[test]
fn clamp_selected_day_on_short_month() {
    let mut view = ViewState {
        mode: ViewMode::Year,
        view_year: 2026,
        view_month: 2,
        focused_month: 2,
        selected_day: Some(31),
        selection_mode: false,
        today: ViewState::new_at_today(WS).unwrap().today,
    };
    view.clamp_selected_day();
    assert_eq!(view.selected_day, Some(28));
}

#[test]
fn clamp_selected_day_moves_zero_to_first_and_keeps_none() {
    let mut view = view_at(2026, 4, Some(0));
    view.clamp_selected_day();
    assert_eq!(view.selected_day, Some(1));
    let mut view = view_at(2026, 4, None);
    view.clamp_selected_day();
    assert_eq!(view.selected_day, None);
    let mut view = view_at(2026, 4, Some(30));
    view.clamp_selected_day();
    assert_eq!(view.selected_day, Some(30));
}

#[test]
fn new_at_opens_year_view_on_today() {
    let today = Date { year: 2024, month: 2, day: 29 };
    let view = ViewState::new_at(today, WS);
    assert_eq!(view.mode, ViewMode::Year);
    assert_eq!((view.view_year, view.view_month, view.focused_month), (2024, 2, 2));
    assert_eq!(view.selected_day, Some(29));
    assert!(!view.selection_mode);
}

#[test]
fn month_navigation_wraps_years_and_clamps_selection() {
    let mut view = view_at(2024, 1, Some(31));
    view.prev_month(WS);
    assert_eq!((view.view_year, view.view_month, view.focused_month), (2023, 12, 12));
    view.next_month(WS);
    view.next_month(WS);
    assert_eq!((view.view_year, view.view_month), (2024, 2));
    assert_eq!(view.selected_day, Some(29));
    view.next_year(WS);
    assert_eq!((view.view_year, view.view_month), (2025, 2));
    assert_eq!(view.selected_day, Some(28));
    view.prev_year(WS);
    assert_eq!(view.view_year, 2024);
}

#[test]
fn navigation_reaches_every_month_whose_grid_fits() {
    // into the last supported year, up to its last month that can be laid out
    let mut view = view_at(262141, 12, None);
    view.next_month(WS);
    assert_eq!((view.view_year, view.view_month), (262142, 1));
    let mut view = view_at(262141, 6, None);
    view.next_year(WS);
    assert_eq!((view.view_year, view.view_month), (262142, 6));
    let mut view = view_at(262142, 11, None);
    view.next_month(WS);
    assert_eq!((view.view_year, view.view_month), (262142, 11));
    let mut view = view_at(262141, 12, None);
    view.next_year(WS);
    assert_eq!((view.view_year, view.view_month), (262141, 12));
    // into the first supported year; its January fits only when the grid starts
    // on the weekday of its first day, a Thursday
    let mut view = view_at(-262142, 1, None);
    view.prev_month(WS);
    assert_eq!((view.view_year, view.view_month), (-262143, 12));
    let mut view = view_at(-262143, 2, None);
    view.prev_month(WS);
    assert_eq!((view.view_year, view.view_month), (-262143, 2));
    view.prev_month(WeekStart::Thursday);
    assert_eq!((view.view_year, view.view_month), (-262143, 1));
    let mut view = view_at(-262142, 1, None);
    view.prev_year(WS);
    assert_eq!(view.view_year, -262142);
    view.prev_year(WeekStart::Thursday);
    assert_eq!(view.view_year, -262143);
}

#[test]
fn jump_to_today_selects_today() {
    let mut view = view_at(1999, 7, None);
    view.jump_to_today(WS);
    assert_eq!((view.view_year, view.view_month, view.focused_month), (2026, 5, 5));
    assert_eq!(view.selected_day, Some(18));
}

#[test]
fn selection_moves_within_the_month() {
    let mut view = view_at(2026, 5, None);
    view.toggle_selection_mode();
    assert!(view.selection_mode);
    assert_eq!(view.selected_day, Some(18));
    view.select_next_week(WS);
    assert_eq!(view.selected_day, Some(25));
    view.select_next_week(WS);
    assert_eq!(view.selected_day, Some(31));
    view.select_next_day(WS);
    assert_eq!(view.selected_day, Some(31));
    view.select_prev_week(WS);
    assert_eq!(view.selected_day, Some(24));
    for _ in 0..30 {
        view.select_prev_day(WS);
    }
    assert_eq!(view.selected_day, Some(1));
    view.toggle_selection_mode();
    assert!(!view.selection_mode);
    assert_eq!(view.selected_day, Some(1));
    let mut other = view_at(2026, 6, None);
    other.toggle_selection_mode();
    assert_eq!(other.selected_day, Some(1));
}

#[test]
fn focus_wraps_within_the_year_and_opens_in_month_view() {
    let mut view = view_at(2026, 1, Some(31));
    view.set_mode(ViewMode::Year);
    assert_eq!(view.focused_month, 1);
    view.focus_prev_month();
    assert_eq!(view.focused_month, 12);
    view.focus_next_month();
    view.focus_next_month();
    assert_eq!(view.focused_month, 2);
    view.enter_month_mode(WS);
    assert_eq!(view.mode, ViewMode::Month);
    assert_eq!((view.view_year, view.view_month), (2026, 2));
    assert_eq!(view.selected_day, Some(28));
}

#[test]
fn open_at_opens_every_month_whose_grid_fits() {
    let d = Date { year: 2026, month: 5, day: 18 };
    let v = ViewState::open_at(d, WS).expect("May 2026 can be laid out");
    assert_eq!(v, ViewState::new_at(d, WS));
    let edge = Date { year: MAX_YEAR, month: 6, day: 1 };
    let v = ViewState::open_at(edge, WS).expect("June of the last year can be laid out");
    assert_eq!((v.view_year, v.view_month, v.selected_day), (MAX_YEAR, 6, Some(1)));
    assert!(ViewState::open_at(Date { year: MAX_YEAR, month: 12, day: 5 }, WS).is_none());
    let first = Date { year: MIN_YEAR, month: 1, day: 1 };
    assert!(ViewState::open_at(first, WS).is_none());
    assert!(ViewState::open_at(first, WeekStart::Thursday).is_some());
    assert!(ViewState::open_at(Date { year: MIN_YEAR, month: 12, day: 31 }, WS).is_some());
}

//! Key handling: which key does what in each screen.

use vstd::prelude::*;
use crate::settings::Settings;
use crate::date::WeekStart;
use crate::calendar::grid_in_range;
use crate::date::spec_days_in_month;
use crate::view::{ViewMode, ViewState};

verus! {

/// A pressed key.
#[derive(Clone, Copy, Debug, PartialEq, Eq, Structural)]
pub enum KeyCode {
    Char(char),
    Left,
    Right,
    Up,
    Down,
    Home,
    Enter,
    Esc,
    PageUp,
    PageDown,
    /// Any key without a binding.
    Other,
}

/// A key press with the state of the Control modifier.
#[derive(Clone, Copy, Debug, PartialEq, Eq, Structural)]
pub struct KeyEvent {
    pub code: KeyCode,
    pub ctrl: bool,
}

/// What a key press asks for.
#[derive(Clone, Copy, Debug, PartialEq, Eq, Structural)]
pub enum Action {
    Quit,
    MonthMode,
    YearMode,
    BackToYear,
    PrevMonth,
    NextMonth,
    PrevYear,
    NextYear,
    Today,
    ToggleSelection,
    SelectPrevDay,
    SelectNextDay,
    SelectPrevWeek,
    SelectNextWeek,
    FocusPrevMonth,
    FocusNextMonth,
    OpenFocused,
    Nothing,
}

/// Key bindings of the month view while moving between months.
pub open spec fn month_navigate_action(code: KeyCode) -> Action {
    match code {
        KeyCode::Left | KeyCode::Char('h') | KeyCode::PageUp => Action::PrevMonth,
        KeyCode::Right | KeyCode::Char('l') | KeyCode::PageDown => Action::NextMonth,
        KeyCode::Up | KeyCode::Char('k') => Action::PrevYear,
        KeyCode::Down | KeyCode::Char('j') => Action::NextYear,
        KeyCode::Home | KeyCode::Char('t') => Action::Today,
        KeyCode::Enter | KeyCode::Char(' ') => Action::ToggleSelection,
        _ => Action::Nothing,
    }
}

/// Key bindings of the month view while moving the selected day.
pub open spec fn month_selection_action(code: KeyCode) -> Action {
    match code {
        KeyCode::Enter | KeyCode::Char(' ') => Action::ToggleSelection,
        KeyCode::Left | KeyCode::Char('h') => Action::SelectPrevDay,
        KeyCode::Right | KeyCode::Char('l') => Action::SelectNextDay,
        KeyCode::Up | KeyCode::Char('k') | KeyCode::PageUp => Action::SelectPrevWeek,
        KeyCode::Down | KeyCode::Char('j') | KeyCode::PageDown => Action::SelectNextWeek,
        KeyCode::Home | KeyCode::Char('t') => Action::Today,
        _ => Action::Nothing,
    }
}

/// Key bindings of the year view.
pub open spec fn year_navigate_action(code: KeyCode) -> Action {
    match code {
        KeyCode::Left | KeyCode::Char('h') => Action::FocusPrevMonth,
        KeyCode::Right | KeyCode::Char('l') => Action::FocusNextMonth,
        KeyCode::Up | KeyCode::Char('k') | KeyCode::PageUp => Action::PrevYear,
        KeyCode::Down | KeyCode::Char('j') | KeyCode::PageDown => Action::NextYear,
        KeyCode::Home | KeyCode::Char('t') => Action::Today,
        KeyCode::Enter => Action::OpenFocused,
        _ => Action::Nothing,
    }
}

/// The action of a key press in the given view: global keys first (`q`,
/// Ctrl+`c`, `Esc`, `m`, `y`), then the bindings of the current screen.
pub open spec fn key_action(view: ViewState, key: KeyEvent) -> Action {
    match key.code {
        KeyCode::Char('q') => Action::Quit,
        KeyCode::Char('c') if key.ctrl => Action::Quit,
        KeyCode::Esc => Action::BackToYear,
        KeyCode::Char('m') => Action::MonthMode,
        KeyCode::Char('y') => Action::YearMode,
        code => match view.mode {
            ViewMode::Month => if view.selection_mode {
                month_selection_action(code)
            } else {
                month_navigate_action(code)
            },
            ViewMode::Year => year_navigate_action(code),
        },
    }
}

/// The view after an action.
pub open spec fn apply_action(view: ViewState, action: Action, ws: WeekStart) -> ViewState {
    match action {
        Action::Quit => view,
        Action::MonthMode => if view.mode == ViewMode::Month {
            view
        } else {
            view.spec_enter_month_mode(ws)
        },
        Action::YearMode => if view.mode == ViewMode::Year {
            view
        } else {
            view.spec_set_mode(ViewMode::Year)
        },
        Action::BackToYear => if view.mode == ViewMode::Month {
            view.spec_set_mode(ViewMode::Year)
        } else {
            view
        },
        Action::PrevMonth => view.spec_prev_month(ws),
        Action::NextMonth => view.spec_next_month(ws),
        Action::PrevYear => view.spec_prev_year(ws),
        Action::NextYear => view.spec_next_year(ws),
        Action::Today => view.spec_jump_to_today(ws),
        Action::ToggleSelection => view.spec_toggle_selection_mode(),
        Action::SelectPrevDay => view.spec_move_selection(-1),
        Action::SelectNextDay => view.spec_move_selection(1),
        Action::SelectPrevWeek => view.spec_move_selection(-7),
        Action::SelectNextWeek => view.spec_move_selection(7),
        Action::FocusPrevMonth => view.spec_focus_prev_month(),
        Action::FocusNextMonth => view.spec_focus_next_month(),
        Action::OpenFocused => view.spec_enter_month_mode(ws),
        Action::Nothing => view,
    }
}

/// The running calendar: settings, current view and whether to keep running.
pub struct App {
    pub running: bool,
    pub settings: Settings,
}

impl App {
    /// Settings other than the view and the grids are the same in both.
    pub open spec fn same_config(a: Settings, b: Settings) -> bool {
        &&& a.week_start == b.week_start
        &&& a.show_week_numbers == b.show_week_numbers
        &&& a.date_format == b.date_format
        &&& a.month_year_format == b.month_year_format
        &&& a.colors == b.colors
    }

    /// One key press: the view moves as `key_action` and `apply_action` say,
    /// the grids keep showing the view, and only `Quit` stops the calendar.
    pub open spec fn step(old_app: App, new_app: App, key: KeyEvent) -> bool {
        let action = key_action(old_app.settings.view, key);
        &&& new_app.running == (old_app.running && action != Action::Quit)
        &&& new_app.settings.view == apply_action(old_app.settings.view, action, old_app.settings.week_start)
        &&& new_app.settings.consistent()
        &&& App::same_config(old_app.settings, new_app.settings)
    }

    pub fn new(settings: Settings) -> (res: Self)
        ensures
            res.running,
            res.settings == settings,
    {
        App { running: true, settings }
    }

    pub fn quit(&mut self)
        ensures
            !final(self).running,
            final(self).settings == old(self).settings,
    {
        self.running = false;
    }

    /// Handles one key press.
    pub fn handle_key(&mut self, key: KeyEvent)
        requires
            old(self).settings.consistent(),
        ensures
            App::step(*old(self), *final(self), key),
    {
        match key.code {
            KeyCode::Char('q') => self.quit(),
            KeyCode::Char('c') if key.ctrl => self.quit(),
            KeyCode::Esc => self.back_to_year_view(),
            KeyCode::Char('m') => self.set_month_mode(),
            KeyCode::Char('y') => self.set_year_mode(),
            _ => match self.settings.view.mode {
                ViewMode::Month => if self.settings.view.selection_mode {
                    self.handle_month_selection_key(key);
                } else {
                    self.handle_month_navigate_key(key);
                },
                ViewMode::Year => self.handle_year_navigate_key(key),
            },
        }
    }

    fn set_month_mode(&mut self)
        requires
            old(self).settings.consistent(),
        ensures
            final(self).running == old(self).running,
            final(self).settings.view == apply_action(old(self).settings.view, Action::MonthMode, old(self).settings.week_start),
            final(self).settings.consistent(),
            App::same_config(old(self).settings, final(self).settings),
    {
        if self.settings.view.mode == ViewMode::Month {
            return;
        }
        self.settings.view.enter_month_mode(self.settings.week_start);
        self.settings.sync_view();
    }

    fn set_year_mode(&mut self)
        requires
            old(self).settings.consistent(),
        ensures
            final(self).running == old(self).running,
            final(self).settings.view == apply_action(old(self).settings.view, Action::YearMode, old(self).settings.week_start),
            final(self).settings.consistent(),
            App::same_config(old(self).settings, final(self).settings),
    {
        if self.settings.view.mode == ViewMode::Year {
            return;
        }
        self.settings.view.set_mode(ViewMode::Year);
        self.settings.sync_view();
    }

    fn back_to_year_view(&mut self)
        requires
            old(self).settings.consistent(),
        ensures
            final(self).running == old(self).running,
            final(self).settings.view == apply_action(old(self).settings.view, Action::BackToYear, old(self).settings.week_start),
            final(self).settings.consistent(),
            App::same_config(old(self).settings, final(self).settings),
    {
        if self.settings.view.mode == ViewMode::Month {
            self.set_year_mode();
        }
    }

    #[verifier::rlimit(40)]
    fn handle_month_navigate_key(&mut self, key: KeyEvent)
        requires
            old(self).settings.consistent(),
        ensures
            final(self).running == old(self).running,
            final(self).settings.view == apply_action(
                old(self).settings.view,
                month_navigate_action(key.code),
                old(self).settings.week_start,
            ),
            final(self).settings.consistent(),
            App::same_config(old(self).settings, final(self).settings),
    {
        match key.code {
            KeyCode::Left | KeyCode::Char('h') => {
                self.settings.view.prev_month(self.settings.week_start);
                self.settings.sync_view();
            },
            KeyCode::Right | KeyCode::Char('l') => {
                self.settings.view.next_month(self.settings.week_start);
                self.settings.sync_view();
            },
            KeyCode::Up | KeyCode::Char('k') => {
                self.settings.view.prev_year(self.settings.week_start);
                self.settings.sync_view();
            },
            KeyCode::Down | KeyCode::Char('j') => {
                self.settings.view.next_year(self.settings.week_start);
                self.settings.sync_view();
            },
            KeyCode::Home | KeyCode::Char('t') => {
                self.settings.view.jump_to_today(self.settings.week_start);
                self.settings.sync_view();
            },
            KeyCode::Enter | KeyCode::Char(' ') => {
                self.settings.view.toggle_selection_mode();
            },
            KeyCode::PageUp => {
                self.settings.view.prev_month(self.settings.week_start);
                self.settings.sync_view();
            },
            KeyCode::PageDown => {
                self.settings.view.next_month(self.settings.week_start);
                self.settings.sync_view();
            },
            _ => {},
        }
    }

    fn handle_month_selection_key(&mut self, key: KeyEvent)
        requires
            old(self).settings.consistent(),
        ensures
            final(self).running == old(self).running,
            final(self).settings.view == apply_action(
                old(self).settings.view,
                month_selection_action(key.code),
                old(self).settings.week_start,
            ),
            final(self).settings.consistent(),
            App::same_config(old(self).settings, final(self).settings),
    {
        match key.code {
            KeyCode::Enter | KeyCode::Char(' ') => {
                self.settings.view.toggle_selection_mode();
            },
            KeyCode::Left | KeyCode::Char('h') => {
                self.settings.view.select_prev_day(self.settings.week_start);
            },
            KeyCode::Right | KeyCode::Char('l') => {
                self.settings.view.select_next_day(self.settings.week_start);
            },
            KeyCode::Up | KeyCode::Char('k') => {
                self.settings.view.select_prev_week(self.settings.week_start);
            },
            KeyCode::Down | KeyCode::Char('j') => {
                self.settings.view.select_next_week(self.settings.week_start);
            },
            KeyCode::PageUp => {
                self.settings.view.select_prev_week(self.settings.week_start);
            },
            KeyCode::PageDown => {
                self.settings.view.select_next_week(self.settings.week_start);
            },
            KeyCode::Home | KeyCode::Char('t') => {
                self.settings.view.jump_to_today(self.settings.week_start);
                self.settings.sync_view();
            },
            _ => {},
        }
    }

    fn handle_year_navigate_key(&mut self, key: KeyEvent)
        requires
            old(self).settings.consistent(),
        ensures
            final(self).running == old(self).running,
            final(self).settings.view == apply_action(
                old(self).settings.view,
                year_navigate_action(key.code),
                old(self).settings.week_start,
            ),
            final(self).settings.consistent(),
            App::same_config(old(self).settings, final(self).settings),
    {
        match key.code {
            KeyCode::Left | KeyCode::Char('h') => {
                self.settings.view.focus_prev_month();
            },
            KeyCode::Right | KeyCode::Char('l') => {
                self.settings.view.focus_next_month();
            },
            KeyCode::Up | KeyCode::Char('k') => {
                self.settings.view.prev_year(self.settings.week_start);
                self.settings.sync_view();
            },
            KeyCode::Down | KeyCode::Char('j') => {
                self.settings.view.next_year(self.settings.week_start);
                self.settings.sync_view();
            },
            KeyCode::Home | KeyCode::Char('t') => {
                self.settings.view.jump_to_today(self.settings.week_start);
                self.settings.sync_view();
            },
            KeyCode::Enter => {
                self.settings.view.enter_month_mode(self.settings.week_start);
                self.settings.sync_view();
            },
            KeyCode::PageUp => {
                self.settings.view.prev_year(self.settings.week_start);
                self.settings.sync_view();
            },
            KeyCode::PageDown => {
                self.settings.view.next_year(self.settings.week_start);
                self.settings.sync_view();
            },
            _ => {},
        }
    }
}


/// The view after pressing `code` (with or without Control) in `v`.
pub open spec fn after_key(v: ViewState, code: KeyCode, ctrl: bool, ws: WeekStart) -> ViewState {
    apply_action(v, key_action(v, KeyEvent { code, ctrl }), ws)
}

/// `r` shows month `m` of year `y` of the same screen and today, when that
/// month's grid can be laid out; otherwise `r` is `v` unchanged.
pub open spec fn shows_month(r: ViewState, v: ViewState, y: int, m: int, ws: WeekStart) -> bool {
    if grid_in_range(y, m, ws) {
        r.view_year == y && r.view_month == m && r.mode == v.mode && r.selection_mode == v.selection_mode
            && r.today == v.today
    } else {
        r == v
    }
}

/// Keys of the month view while moving between months: Left, `h` and PageUp
/// show the previous month, Right, `l` and PageDown the next one (across the
/// turn of the year), Up and `k` the same month a year earlier, Down and `j` a
/// year later.
pub proof fn lemma_month_view_keys(v: ViewState, ws: WeekStart, ctrl: bool)
    requires
        v.wf(ws),
        v.mode == ViewMode::Month,
        !v.selection_mode,
    ensures
        ({
            let y = v.view_year as int;
            let m = v.view_month as int;
            let (py, pm) = if m == 1 { (y - 1, 12int) } else { (y, m - 1) };
            let (ny, nm) = if m == 12 { (y + 1, 1int) } else { (y, m + 1) };
            &&& shows_month(after_key(v, KeyCode::Left, ctrl, ws), v, py, pm, ws)
            &&& shows_month(after_key(v, KeyCode::Char('h'), ctrl, ws), v, py, pm, ws)
            &&& shows_month(after_key(v, KeyCode::PageUp, ctrl, ws), v, py, pm, ws)
            &&& shows_month(after_key(v, KeyCode::Right, ctrl, ws), v, ny, nm, ws)
            &&& shows_month(after_key(v, KeyCode::Char('l'), ctrl, ws), v, ny, nm, ws)
            &&& shows_month(after_key(v, KeyCode::PageDown, ctrl, ws), v, ny, nm, ws)
            &&& shows_month(after_key(v, KeyCode::Up, ctrl, ws), v, y - 1, m, ws)
            &&& shows_month(after_key(v, KeyCode::Char('k'), ctrl, ws), v, y - 1, m, ws)
            &&& shows_month(after_key(v, KeyCode::Down, ctrl, ws), v, y + 1, m, ws)
            &&& shows_month(after_key(v, KeyCode::Char('j'), ctrl, ws), v, y + 1, m, ws)
        }),
{
}

/// In the month view, `h` undoes `l`: pressing `l` and then `h` shows the
/// starting month again (whenever the next month can be shown at all).
pub proof fn lemma_h_undoes_l(v: ViewState, ws: WeekStart)
    requires
        v.wf(ws),
        v.mode == ViewMode::Month,
        !v.selection_mode,
        grid_in_range(v.next_target().0, v.next_target().1, ws),
    ensures
        after_key(after_key(v, KeyCode::Char('l'), false, ws), KeyCode::Char('h'), false, ws).view_year
            == v.view_year,
        after_key(after_key(v, KeyCode::Char('l'), false, ws), KeyCode::Char('h'), false, ws).view_month
            == v.view_month,
{
}

/// Year-view keys that move the focus: Left and `h` focus the previous month
/// (December after January), Right and `l` the next one (January after
/// December); nothing else changes.
pub proof fn lemma_year_view_focus_keys(v: ViewState, ws: WeekStart, ctrl: bool)
    requires
        v.wf(ws),
        v.mode == ViewMode::Year,
    ensures
        ({
            let f = v.focused_month as int;
            let back = if f == 1 { 12 } else { f - 1 };
            let on = if f == 12 { 1 } else { f + 1 };
            &&& after_key(v, KeyCode::Left, ctrl, ws) == (ViewState { focused_month: back as u32, ..v })
            &&& after_key(v, KeyCode::Char('h'), ctrl, ws) == (ViewState { focused_month: back as u32, ..v })
            &&& after_key(v, KeyCode::Right, ctrl, ws) == (ViewState { focused_month: on as u32, ..v })
            &&& after_key(v, KeyCode::Char('l'), ctrl, ws) == (ViewState { focused_month: on as u32, ..v })
        }),
{
}

/// Year-view keys that change the year: Up, `k` and PageUp show the previous
/// year, Down, `j` and PageDown the next one.
pub proof fn lemma_year_view_year_keys(v: ViewState, ws: WeekStart, ctrl: bool)
    requires
        v.wf(ws),
        v.mode == ViewMode::Year,
    ensures
        ({
            let y = v.view_year as int;
            let m = v.view_month as int;
            &&& shows_month(after_key(v, KeyCode::Up, ctrl, ws), v, y - 1, m, ws)
            &&& shows_month(after_key(v, KeyCode::Char('k'), ctrl, ws), v, y - 1, m, ws)
            &&& shows_month(after_key(v, KeyCode::PageUp, ctrl, ws), v, y - 1, m, ws)
            &&& shows_month(after_key(v, KeyCode::Down, ctrl, ws), v, y + 1, m, ws)
            &&& shows_month(after_key(v, KeyCode::Char('j'), ctrl, ws), v, y + 1, m, ws)
            &&& shows_month(after_key(v, KeyCode::PageDown, ctrl, ws), v, y + 1, m, ws)
        }),
{
}

/// In the year view, `m` opens the focused month in the month view, as Enter
/// does: the month view of the focused month of the shown year, not selecting.
pub proof fn lemma_year_view_open_keys(v: ViewState, ws: WeekStart, ctrl: bool)
    requires
        v.wf(ws),
        v.mode == ViewMode::Year,
    ensures
        grid_in_range(v.view_year as int, v.focused_month as int, ws) ==> {
            let r = after_key(v, KeyCode::Char('m'), ctrl, ws);
            &&& r.mode == ViewMode::Month
            &&& r.view_year == v.view_year
            &&& r.view_month == v.focused_month
            &&& r.focused_month == v.focused_month
            &&& !r.selection_mode
        },
        grid_in_range(v.view_year as int, v.focused_month as int, ws) ==> {
            let r = after_key(v, KeyCode::Enter, ctrl, ws);
            &&& r.mode == ViewMode::Month
            &&& r.view_year == v.view_year
            &&& r.view_month == v.focused_month
            &&& r.focused_month == v.focused_month
            &&& !r.selection_mode
        },
        !grid_in_range(v.view_year as int, v.focused_month as int, ws) ==> after_key(
            v,
            KeyCode::Char('m'),
            ctrl,
            ws,
        ) == v && after_key(v, KeyCode::Enter, ctrl, ws) == v,
{
}

/// Keys of the month view while selecting a day: Left and `h` select the day
/// before (stopping at the 1st), Right and `l` the day after (stopping at the
/// last day), Up, `k` and PageUp the day a week earlier (or the 1st), Down, `j`
/// and PageDown the day a week later (or the last day); the month stays.
pub proof fn lemma_selection_keys(v: ViewState, ws: WeekStart, ctrl: bool, d: u32)
    requires
        v.wf(ws),
        v.mode == ViewMode::Month,
        v.selection_mode,
        v.selected_day == Some(d),
    ensures
        ({
            let len = spec_days_in_month(v.view_year as int, v.view_month as int);
            let before = if d > 1 { d - 1 } else { 1 };
            let after = if d < len { d + 1 } else { len };
            let week_before = if d > 7 { d - 7 } else { 1 };
            let week_after = if d + 7 <= len { d + 7 } else { len };
            &&& after_key(v, KeyCode::Left, ctrl, ws) == (ViewState { selected_day: Some(before as u32), ..v })
            &&& after_key(v, KeyCode::Char('h'), ctrl, ws) == (ViewState { selected_day: Some(before as u32), ..v })
            &&& after_key(v, KeyCode::Right, ctrl, ws) == (ViewState { selected_day: Some(after as u32), ..v })
            &&& after_key(v, KeyCode::Char('l'), ctrl, ws) == (ViewState { selected_day: Some(after as u32), ..v })
            &&& after_key(v, KeyCode::Up, ctrl, ws) == (ViewState { selected_day: Some(week_before as u32), ..v })
            &&& after_key(v, KeyCode::Char('k'), ctrl, ws) == (ViewState { selected_day: Some(week_before as u32), ..v })
            &&& after_key(v, KeyCode::PageUp, ctrl, ws) == (ViewState { selected_day: Some(week_before as u32), ..v })
            &&& after_key(v, KeyCode::Down, ctrl, ws) == (ViewState { selected_day: Some(week_after as u32), ..v })
            &&& after_key(v, KeyCode::Char('j'), ctrl, ws) == (ViewState { selected_day: Some(week_after as u32), ..v })
            &&& after_key(v, KeyCode::PageDown, ctrl, ws) == (ViewState { selected_day: Some(week_after as u32), ..v })
        }),
{
}

} // verus!

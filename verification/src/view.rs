//! The focused month or year, the selected day, and navigation between them.

use vstd::prelude::*;
use crate::calendar::{grid_in_range, grid_fits, lemma_last_month_does_not_fit};
use crate::date::{Date, WeekStart, MIN_YEAR, MAX_YEAR, spec_days_in_month, days_in_month, today_local};

verus! {

/// Which screen is shown.
#[derive(Clone, Copy, Debug, PartialEq, Eq, Hash, Structural)]
pub enum ViewMode {
    Month,
    Year,
}

/// Navigation state of the calendar.
#[derive(Clone, Copy, Debug, PartialEq, Eq, Structural)]
pub struct ViewState {
    pub mode: ViewMode,
    pub view_year: i32,
    pub view_month: u32,
    /// Month highlighted in the year view.
    pub focused_month: u32,
    pub selected_day: Option<u32>,
    /// Arrow keys move the selected day instead of the month.
    pub selection_mode: bool,
    pub today: Date,
}

/// A selected day moved into `1..=max`.
pub open spec fn clamp_day(selected: Option<u32>, max: int) -> Option<u32> {
    match selected {
        Some(day) => if day > max {
            Some(max as u32)
        } else if day == 0 {
            Some(1u32)
        } else {
            Some(day)
        },
        None => None,
    }
}

/// Length of the view month as `days_in_month` computes it (month 0 is the
/// previous December).
pub open spec fn view_month_len(year: int, month: int) -> int {
    if month == 0 { 31 } else { spec_days_in_month(year, month) }
}

/// `days_in_month` can compute the length of this month.
pub open spec fn month_len_computable(year: int, month: int) -> bool {
    &&& month <= 12
    &&& month == 0 ==> MIN_YEAR < year <= MAX_YEAR
    &&& month >= 1 ==> MIN_YEAR <= year <= MAX_YEAR && (year < MAX_YEAR || month < 12)
}

/// The larger of two values.
pub open spec fn max_int(a: int, b: int) -> int {
    if a >= b { a } else { b }
}

/// The smaller of two values.
pub open spec fn min_int(a: int, b: int) -> int {
    if a <= b { a } else { b }
}

impl ViewState {
    /// The state shows a month whose grid can be laid out under `ws`, a day of
    /// it, a focused month, and a valid today.
    pub open spec fn wf(self, ws: WeekStart) -> bool {
        &&& grid_in_range(self.view_year as int, self.view_month as int, ws)
        &&& 1 <= self.focused_month <= 12
        &&& self.selected_day matches Some(d) ==> 1 <= d <= spec_days_in_month(
            self.view_year as int,
            self.view_month as int,
        )
        &&& self.today.valid()
    }

    /// Length of the view month.
    pub open spec fn month_len(self) -> int {
        spec_days_in_month(self.view_year as int, self.view_month as int)
    }

    /// The state opened at `today`: its month, today selected, year view.
    pub open spec fn spec_at(today: Date) -> ViewState {
        ViewState {
            mode: ViewMode::Year,
            view_year: today.year,
            view_month: today.month,
            focused_month: today.month,
            selected_day: Some(today.day),
            selection_mode: false,
            today,
        }
    }

    /// Shows `month` of `year` (also focused), keeping the selected day inside it.
    pub open spec fn spec_show(self, year: int, month: int) -> ViewState {
        ViewState {
            view_year: year as i32,
            view_month: month as u32,
            focused_month: month as u32,
            selected_day: clamp_day(self.selected_day, spec_days_in_month(year, month)),
            ..self
        }
    }

    /// The month before the view month.
    pub open spec fn prev_target(self) -> (int, int) {
        if self.view_month == 1 {
            (self.view_year - 1, 12)
        } else {
            (self.view_year as int, self.view_month - 1)
        }
    }

    /// The month after the view month.
    pub open spec fn next_target(self) -> (int, int) {
        if self.view_month == 12 {
            (self.view_year + 1, 1)
        } else {
            (self.view_year as int, self.view_month + 1)
        }
    }

    /// Shows the previous month when its grid can be laid out; else stays.
    pub open spec fn spec_prev_month(self, ws: WeekStart) -> ViewState {
        let (y, m) = self.prev_target();
        if grid_in_range(y, m, ws) {
            self.spec_show(y, m)
        } else {
            self
        }
    }

    /// Shows the next month when its grid can be laid out; else stays.
    pub open spec fn spec_next_month(self, ws: WeekStart) -> ViewState {
        let (y, m) = self.next_target();
        if grid_in_range(y, m, ws) {
            self.spec_show(y, m)
        } else {
            self
        }
    }

    /// Shows `year`, keeping the month and the selected day inside it.
    pub open spec fn spec_show_year(self, year: int) -> ViewState {
        ViewState {
            view_year: year as i32,
            selected_day: clamp_day(self.selected_day, spec_days_in_month(year, self.view_month as int)),
            ..self
        }
    }

    /// Shows the same month of the previous year when its grid can be laid out; else stays.
    pub open spec fn spec_prev_year(self, ws: WeekStart) -> ViewState {
        if grid_in_range(self.view_year - 1, self.view_month as int, ws) {
            self.spec_show_year(self.view_year - 1)
        } else {
            self
        }
    }

    /// Shows the same month of the next year when its grid can be laid out; else stays.
    pub open spec fn spec_next_year(self, ws: WeekStart) -> ViewState {
        if grid_in_range(self.view_year + 1, self.view_month as int, ws) {
            self.spec_show_year(self.view_year + 1)
        } else {
            self
        }
    }

    /// Shows and selects today, when the grid of today's month can be laid out; else stays.
    pub open spec fn spec_jump_to_today(self, ws: WeekStart) -> ViewState {
        if grid_in_range(self.today.year as int, self.today.month as int, ws) {
            ViewState {
                view_year: self.today.year,
                view_month: self.today.month,
                focused_month: self.today.month,
                selected_day: Some(self.today.day),
                ..self
            }
        } else {
            self
        }
    }

    /// Day selected when selection starts without one: today in today's month, else the 1st.
    pub open spec fn spec_default_selection(self) -> u32 {
        if self.today.year == self.view_year && self.today.month == self.view_month {
            self.today.day
        } else {
            1
        }
    }

    pub open spec fn spec_toggle_selection_mode(self) -> ViewState {
        ViewState {
            selection_mode: !self.selection_mode,
            selected_day: if !self.selection_mode && self.selected_day is None {
                Some(self.spec_default_selection())
            } else {
                self.selected_day
            },
            ..self
        }
    }

    /// Moves the selected day by `delta` days within the view month.
    pub open spec fn spec_move_selection(self, delta: int) -> ViewState {
        ViewState {
            selected_day: Some(
                match self.selected_day {
                    Some(d) => max_int(1, min_int(self.month_len(), d + delta)) as u32,
                    None => self.spec_default_selection(),
                },
            ),
            ..self
        }
    }

    pub open spec fn spec_focus_prev_month(self) -> ViewState {
        ViewState {
            focused_month: if self.focused_month <= 1 { 12 } else { (self.focused_month - 1) as u32 },
            ..self
        }
    }

    pub open spec fn spec_focus_next_month(self) -> ViewState {
        ViewState {
            focused_month: if self.focused_month >= 12 { 1 } else { (self.focused_month + 1) as u32 },
            ..self
        }
    }

    /// Opens the focused month in the month view, when its grid can be laid out; else stays.
    pub open spec fn spec_enter_month_mode(self, ws: WeekStart) -> ViewState {
        if grid_in_range(self.view_year as int, self.focused_month as int, ws) {
            ViewState {
                mode: ViewMode::Month,
                selection_mode: false,
                ..self.spec_show(self.view_year as int, self.focused_month as int)
            }
        } else {
            self
        }
    }

    pub open spec fn spec_set_mode(self, mode: ViewMode) -> ViewState {
        ViewState {
            mode,
            focused_month: if mode == ViewMode::Year { self.view_month } else { self.focused_month },
            selection_mode: if mode == ViewMode::Year { false } else { self.selection_mode },
            ..self
        }
    }
}

impl ViewState {
    /// The view opened at `today`, whose month can be laid out under `ws`.
    pub fn new_at(today: Date, ws: WeekStart) -> (res: Self)
        requires
            today.valid(),
            grid_in_range(today.year as int, today.month as int, ws),
        ensures
            res == ViewState::spec_at(today),
            res.wf(ws),
    {
        proof {
            lemma_last_month_does_not_fit(ws);
        }
        let mut view = ViewState {
            mode: ViewMode::Year,
            view_year: today.year,
            view_month: today.month,
            focused_month: today.month,
            selected_day: Some(today.day),
            selection_mode: false,
            today,
        };
        view.clamp_selected_day();
        view
    }

    /// The view opened at the local date; `None` when the grid of the local
    /// date's month cannot be laid out under `ws`.
    pub fn new_at_today(ws: WeekStart) -> (res: Option<Self>)
        ensures
            res matches Some(v) ==> v == ViewState::spec_at(v.today) && v.wf(ws),
    {
        let today = today_local();
        Self::open_at(today, ws)
    }

    /// The view opened at `today`; `None` when the grid of its month cannot be
    /// laid out under `ws`.
    pub fn open_at(today: Date, ws: WeekStart) -> (res: Option<Self>)
        requires
            today.valid(),
        ensures
            res == (if grid_in_range(today.year as int, today.month as int, ws) {
                Some(ViewState::spec_at(today))
            } else {
                None
            }),
            res matches Some(v) ==> v.wf(ws),
    {
        if grid_fits(today.year, today.month, ws) {
            Some(Self::new_at(today, ws))
        } else {
            None
        }
    }

    /// Moves the selected day into the view month: past the end to the last day,
    /// day 0 to the first.
    pub fn clamp_selected_day(&mut self)
        requires
            month_len_computable(old(self).view_year as int, old(self).view_month as int),
        ensures
            *final(self) == (ViewState {
                selected_day: clamp_day(
                    old(self).selected_day,
                    view_month_len(old(self).view_year as int, old(self).view_month as int),
                ),
                ..*old(self)
            }),
    {
        let max = days_in_month(self.view_year, self.view_month);
        if let Some(day) = self.selected_day {
            if day > max {
                self.selected_day = Some(max);
            } else if day == 0 {
                self.selected_day = Some(1);
            }
        }
    }

    fn show(&mut self, year: i32, month: u32, Ghost(ws): Ghost<WeekStart>)
        requires
            grid_in_range(year as int, month as int, ws),
        ensures
            *final(self) == old(self).spec_show(year as int, month as int),
    {
        proof {
            lemma_last_month_does_not_fit(ws);
        }
        self.view_year = year;
        self.view_month = month;
        self.focused_month = month;
        self.clamp_selected_day();
    }

    /// Shows the previous month (December of the previous year after January),
    /// when its grid can be laid out under `ws`.
    pub fn prev_month(&mut self, ws: WeekStart)
        requires
            old(self).wf(ws),
        ensures
            *final(self) == old(self).spec_prev_month(ws),
    {
        let (year, month) = if self.view_month == 1 {
            (self.view_year - 1, 12)
        } else {
            (self.view_year, self.view_month - 1)
        };
        if grid_fits(year, month, ws) {
            self.show(year, month, Ghost(ws));
        }
    }

    /// Shows the next month (January of the next year after December), when
    /// its grid can be laid out under `ws`.
    pub fn next_month(&mut self, ws: WeekStart)
        requires
            old(self).wf(ws),
        ensures
            *final(self) == old(self).spec_next_month(ws),
    {
        let (year, month) = if self.view_month == 12 {
            (self.view_year + 1, 1)
        } else {
            (self.view_year, self.view_month + 1)
        };
        if grid_fits(year, month, ws) {
            self.show(year, month, Ghost(ws));
        }
    }

    /// Shows the same month of the previous year, when its grid can be laid out.
    pub fn prev_year(&mut self, ws: WeekStart)
        requires
            old(self).wf(ws),
        ensures
            *final(self) == old(self).spec_prev_year(ws),
    {
        if grid_fits(self.view_year - 1, self.view_month, ws) {
            proof {
                lemma_last_month_does_not_fit(ws);
            }
            self.view_year = self.view_year - 1;
            self.clamp_selected_day();
        }
    }

    /// Shows the same month of the next year, when its grid can be laid out.
    pub fn next_year(&mut self, ws: WeekStart)
        requires
            old(self).wf(ws),
        ensures
            *final(self) == old(self).spec_next_year(ws),
    {
        if grid_fits(self.view_year + 1, self.view_month, ws) {
            proof {
                lemma_last_month_does_not_fit(ws);
            }
            self.view_year = self.view_year + 1;
            self.clamp_selected_day();
        }
    }

    /// Shows and selects today, when the grid of today's month can be laid out.
    pub fn jump_to_today(&mut self, ws: WeekStart)
        requires
            old(self).wf(ws),
        ensures
            *final(self) == old(self).spec_jump_to_today(ws),
    {
        if grid_fits(self.today.year, self.today.month, ws) {
            self.view_year = self.today.year;
            self.view_month = self.today.month;
            self.focused_month = self.today.month;
            self.selected_day = Some(self.today.day);
        }
    }

    fn default_selection(&self) -> (res: u32)
        ensures
            res == self.spec_default_selection(),
    {
        if self.today.year == self.view_year && self.today.month == self.view_month {
            self.today.day
        } else {
            1
        }
    }

    /// Switches between moving the month and moving the selected day.
    pub fn toggle_selection_mode(&mut self)
        ensures
            *final(self) == old(self).spec_toggle_selection_mode(),
    {
        if !self.selection_mode && self.selected_day.is_none() {
            self.selected_day = Some(self.default_selection());
        }
        self.selection_mode = !self.selection_mode;
    }

    fn move_selection(&mut self, back: u32, forward: u32, Ghost(ws): Ghost<WeekStart>)
        requires
            old(self).wf(ws),
            back == 0 || forward == 0,
            back <= 7,
            forward <= 7,
        ensures
            *final(self) == old(self).spec_move_selection(forward - back),
    {
        proof {
            lemma_last_month_does_not_fit(ws);
        }
        let len = days_in_month(self.view_year, self.view_month);
        let day = match self.selected_day {
            Some(d) => if d + forward > len {
                len
            } else if d <= back {
                1
            } else {
                d + forward - back
            },
            None => self.default_selection(),
        };
        self.selected_day = Some(day);
    }

    /// Selects the previous day of the view month (stays on the 1st).
    pub fn select_prev_day(&mut self, ws: WeekStart)
        requires
            old(self).wf(ws),
        ensures
            *final(self) == old(self).spec_move_selection(-1),
    {
        self.move_selection(1, 0, Ghost(ws));
    }

    /// Selects the next day of the view month (stays on the last day).
    pub fn select_next_day(&mut self, ws: WeekStart)
        requires
            old(self).wf(ws),
        ensures
            *final(self) == old(self).spec_move_selection(1),
    {
        self.move_selection(0, 1, Ghost(ws));
    }

    /// Selects the day a week earlier, or the 1st.
    pub fn select_prev_week(&mut self, ws: WeekStart)
        requires
            old(self).wf(ws),
        ensures
            *final(self) == old(self).spec_move_selection(-7),
    {
        self.move_selection(7, 0, Ghost(ws));
    }

    /// Selects the day a week later, or the last day.
    pub fn select_next_week(&mut self, ws: WeekStart)
        requires
            old(self).wf(ws),
        ensures
            *final(self) == old(self).spec_move_selection(7),
    {
        self.move_selection(0, 7, Ghost(ws));
    }

    /// Focuses the previous month of the shown year (December after January).
    pub fn focus_prev_month(&mut self)
        ensures
            *final(self) == old(self).spec_focus_prev_month(),
    {
        self.focused_month = if self.focused_month <= 1 { 12 } else { self.focused_month - 1 };
    }

    /// Focuses the next month of the shown year (January after December).
    pub fn focus_next_month(&mut self)
        ensures
            *final(self) == old(self).spec_focus_next_month(),
    {
        self.focused_month = if self.focused_month >= 12 { 1 } else { self.focused_month + 1 };
    }

    /// Opens the focused month in the month view, when its grid can be laid out.
    pub fn enter_month_mode(&mut self, ws: WeekStart)
        requires
            old(self).wf(ws),
        ensures
            *final(self) == old(self).spec_enter_month_mode(ws),
    {
        let (year, month) = (self.view_year, self.focused_month);
        if grid_fits(year, month, ws) {
            self.show(year, month, Ghost(ws));
            self.mode = ViewMode::Month;
            self.selection_mode = false;
        }
    }

    /// Switches the screen; the year view focuses the shown month and ends day selection.
    pub fn set_mode(&mut self, mode: ViewMode)
        ensures
            *final(self) == old(self).spec_set_mode(mode),
    {
        match mode {
            ViewMode::Year => {
                self.focused_month = self.view_month;
                self.selection_mode = false;
            },
            ViewMode::Month => {},
        }
        self.mode = mode;
    }
}

/// Every navigation step keeps the view well formed: a month whose grid can be
/// laid out, a selected day inside it, focused month in 1..=12.
pub proof fn lemma_navigation_keeps_wf(v: ViewState, ws: WeekStart, mode: ViewMode, delta: int)
    requires
        v.wf(ws),
    ensures
        v.spec_prev_month(ws).wf(ws),
        v.spec_next_month(ws).wf(ws),
        v.spec_prev_year(ws).wf(ws),
        v.spec_next_year(ws).wf(ws),
        v.spec_jump_to_today(ws).wf(ws),
        v.spec_toggle_selection_mode().wf(ws),
        v.spec_move_selection(delta).wf(ws),
        v.spec_focus_prev_month().wf(ws),
        v.spec_focus_next_month().wf(ws),
        v.spec_enter_month_mode(ws).wf(ws),
        v.spec_set_mode(mode).wf(ws),
{
}

/// The view opened at a date whose month can be laid out is well formed and
/// shows that date selected.
pub proof fn lemma_open_at_today(today: Date, ws: WeekStart)
    requires
        today.valid(),
        grid_in_range(today.year as int, today.month as int, ws),
    ensures
        ViewState::spec_at(today).wf(ws),
        ViewState::spec_at(today).selected_day == Some(today.day),
        ViewState::spec_at(today).spec_jump_to_today(ws) == ViewState::spec_at(today),
{
}

/// Going to the next month and back shows the same month again, whenever the
/// next month can be laid out.
pub proof fn lemma_next_then_prev_month(v: ViewState, ws: WeekStart)
    requires
        v.wf(ws),
        grid_in_range(v.next_target().0, v.next_target().1, ws),
    ensures
        v.spec_next_month(ws).spec_prev_month(ws).view_year == v.view_year,
        v.spec_next_month(ws).spec_prev_month(ws).view_month == v.view_month,
{
}

/// Going to the previous month and forward again shows the same month, whenever
/// the previous month can be laid out.
pub proof fn lemma_prev_then_next_month(v: ViewState, ws: WeekStart)
    requires
        v.wf(ws),
        grid_in_range(v.prev_target().0, v.prev_target().1, ws),
    ensures
        v.spec_prev_month(ws).spec_next_month(ws).view_year == v.view_year,
        v.spec_prev_month(ws).spec_next_month(ws).view_month == v.view_month,
{
}

/// Going a year forward and back restores the year and the month, whenever the
/// same month of the next year can be laid out.
pub proof fn lemma_next_then_prev_year(v: ViewState, ws: WeekStart)
    requires
        v.wf(ws),
        grid_in_range(v.view_year + 1, v.view_month as int, ws),
    ensures
        v.spec_next_year(ws).spec_prev_year(ws).view_year == v.view_year,
        v.spec_next_year(ws).spec_prev_year(ws).view_month == v.view_month,
{
}

/// Focusing the next and then the previous month (in either order) restores the focus.
pub proof fn lemma_focus_round_trip(v: ViewState, ws: WeekStart)
    requires
        v.wf(ws),
    ensures
        v.spec_focus_next_month().spec_focus_prev_month() == v,
        v.spec_focus_prev_month().spec_focus_next_month() == v,
{
}

/// Toggling day selection twice restores the selection mode and keeps the selected day.
pub proof fn lemma_toggle_twice(v: ViewState, ws: WeekStart)
    requires
        v.wf(ws),
    ensures
        v.spec_toggle_selection_mode().spec_toggle_selection_mode().selection_mode == v.selection_mode,
        v.selected_day is Some ==> v.spec_toggle_selection_mode().spec_toggle_selection_mode() == v,
{
}

/// Clamping keeps a selected day that already lies in the month, and clamping twice
/// is clamping once.
pub proof fn lemma_clamp_day(selected: Option<u32>, max: int)
    requires
        1 <= max <= 31,
    ensures
        clamp_day(clamp_day(selected, max), max) == clamp_day(selected, max),
        selected matches Some(d) ==> (1 <= d <= max ==> clamp_day(selected, max) == selected),
        clamp_day(selected, max) matches Some(d) ==> 1 <= d <= max,
{
}

} // verus!

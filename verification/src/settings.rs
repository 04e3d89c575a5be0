//! Everything the calendar screen needs, resolved from the configuration and the theme.

use vstd::prelude::*;
use crate::calendar::{MonthGrid, grid_in_range, year_grids};
use crate::cli::Cli;
use crate::config::Config;
use crate::date::{Date, WeekStart, today_local};
use crate::error::Error;
use crate::theme::{Theme, ThemeColors, resolve_result, colors_of, all_colors_parse};
use crate::view::ViewState;

verus! {

/// Resolved settings and the current view.
#[derive(Debug)]
pub struct Settings {
    pub week_start: WeekStart,
    pub show_week_numbers: bool,
    pub date_format: String,
    pub month_year_format: String,
    pub colors: ThemeColors,
    pub view: ViewState,
    /// Grid of the view month.
    pub grid: MonthGrid,
    /// Grids of the twelve months of the view year; `None` for a month whose
    /// grid cannot be laid out (only at the ends of the supported range).
    pub year_grids: Vec<Option<MonthGrid>>,
}

impl Settings {
    /// The grids show the view: the month grid is the view month's layout and the
    /// year grids are the layouts of the months of the view year that can be laid out.
    pub open spec fn consistent(self) -> bool {
        &&& self.view.wf(self.week_start)
        &&& self.grid.year == self.view.view_year
        &&& self.grid.month == self.view.view_month
        &&& self.grid.is_layout(self.week_start)
        &&& self.year_grids@.len() == 12
        &&& forall|i: int| 0 <= i < 12 ==> ((#[trigger] self.year_grids@[i]) is Some <==> grid_in_range(
            self.view.view_year as int,
            i + 1,
            self.week_start,
        ))
        &&& forall|i: int| 0 <= i < 12 ==> (#[trigger] self.year_grids@[i] matches Some(g) ==> g.year
            == self.view.view_year && g.month == i + 1 && g.is_layout(self.week_start))
    }

    /// The fields taken from the configuration and the colors.
    pub open spec fn takes(self, config: Config, colors: ThemeColors) -> bool {
        &&& self.week_start == config.spec_week_start()
        &&& self.show_week_numbers == config.spec_show_week_numbers()
        &&& self.date_format@ == config.spec_date_format()
        &&& self.month_year_format@ == config.spec_month_year_format()
        &&& self.colors == colors
    }

    /// Settings at `today`: the view opens on today's month in the configured
    /// mode, with today selected. A malformed theme color is the error (the
    /// first one); else `DateOutOfRange` when the grid of today's month cannot
    /// be laid out (only at the ends of the supported range); else the settings.
    pub fn resolve_at(config: &Config, theme: &Theme, today: Date) -> (res: Result<Self, Error>)
        requires
            theme.resolvable(),
            today.valid(),
        ensures
            !all_colors_parse(theme.color_strs()) || grid_in_range(
                today.year as int,
                today.month as int,
                config.spec_week_start(),
            ) ==> resolve_result(
                match res {
                    Ok(s) => Ok(s.colors),
                    Err(e) => Err(e),
                },
                theme.color_strs(),
            ),
            all_colors_parse(theme.color_strs()) && !grid_in_range(
                today.year as int,
                today.month as int,
                config.spec_week_start(),
            ) ==> res matches Err(Error::DateOutOfRange),
            res matches Ok(s) ==> s.consistent() && s.takes(*config, colors_of(theme.color_strs()))
                && s.view == (ViewState { mode: config.spec_default_mode(), ..ViewState::spec_at(today) }),
    {
        let colors = match theme.resolve() {
            Ok(c) => c,
            Err(e) => return Err(e),
        };
        let week_start = config.week_start();
        let mut view = match ViewState::open_at(today, week_start) {
            Some(v) => v,
            None => return Err(Error::DateOutOfRange),
        };
        view.set_mode(config.default_mode());
        Ok(Self::with_view(config, colors, view))
    }

    /// Settings showing `view`.
    fn with_view(config: &Config, colors: ThemeColors, view: ViewState) -> (res: Self)
        requires
            view.wf(config.spec_week_start()),
        ensures
            res.consistent(),
            res.takes(*config, colors),
            res.view == view,
    {
        let week_start = config.week_start();
        let grid = MonthGrid::build(view.view_year, view.view_month, week_start);
        let year_grids = year_grids(view.view_year, week_start);
        Settings {
            week_start,
            show_week_numbers: config.show_week_numbers(),
            date_format: config.date_format().to_owned(),
            month_year_format: config.month_year_format().to_owned(),
            colors,
            view,
            grid,
            year_grids,
        }
    }

    /// Settings at the local date: what `resolve_at` gives for that date.
    pub fn resolve(config: &Config, theme: &Theme) -> (res: Result<Self, Error>)
        requires
            theme.resolvable(),
        ensures
            res matches Err(Error::DateOutOfRange) || resolve_result(
                match res {
                    Ok(s) => Ok(s.colors),
                    Err(e) => Err(e),
                },
                theme.color_strs(),
            ),
            res matches Err(Error::DateOutOfRange) ==> all_colors_parse(theme.color_strs()),
            res matches Ok(s) ==> s.view.today.valid() && s.consistent() && s.takes(
                *config,
                colors_of(theme.color_strs()),
            ) && s.view == (ViewState { mode: config.spec_default_mode(), ..ViewState::spec_at(s.view.today) }),
    {
        Self::resolve_at(config, theme, today_local())
    }

    /// Settings for the command line, the loaded configuration and theme.
    pub fn from_cli(cli: &Cli, config: Config, theme: Theme) -> (res: Result<Self, Error>)
        requires
            theme.resolvable(),
        ensures
            res matches Err(Error::DateOutOfRange) || resolve_result(
                match res {
                    Ok(s) => Ok(s.colors),
                    Err(e) => Err(e),
                },
                theme.color_strs(),
            ),
            res matches Err(Error::DateOutOfRange) ==> all_colors_parse(theme.color_strs()),
            res matches Ok(s) ==> s.view.today.valid() && s.consistent() && s.takes(
                config,
                colors_of(theme.color_strs()),
            ) && s.view == (ViewState { mode: config.spec_default_mode(), ..ViewState::spec_at(s.view.today) }),
    {
        let _ = cli;
        Self::resolve(&config, &theme)
    }

    /// Rebuilds the grids for the view.
    pub fn sync_view(&mut self)
        requires
            old(self).view.wf(old(self).week_start),
        ensures
            final(self).consistent(),
            final(self).view == old(self).view,
            final(self).week_start == old(self).week_start,
            final(self).show_week_numbers == old(self).show_week_numbers,
            final(self).date_format == old(self).date_format,
            final(self).month_year_format == old(self).month_year_format,
            final(self).colors == old(self).colors,
    {
        self.grid = MonthGrid::build(self.view.view_year, self.view.view_month, self.week_start);
        self.year_grids = year_grids(self.view.view_year, self.week_start);
    }
}

} // verus!

//! The configuration file and where it lives.

use vstd::prelude::*;
use crate::date::WeekStart;
use crate::error::Error;
use crate::paths::{join, path_join};
use crate::view::ViewMode;

verus! {

/// `[calendar]` section.
#[derive(Clone, Debug)]
pub struct Calendar {
    pub week_start: Option<WeekStart>,
    pub show_week_numbers: Option<bool>,
    pub theme: Option<String>,
}

/// `[display]` section.
#[derive(Clone, Debug)]
pub struct Display {
    pub date_format: Option<String>,
    pub month_year_format: Option<String>,
    pub default_mode: Option<ViewMode>,
}

/// A configuration file.
#[derive(Clone, Debug)]
pub struct Config {
    pub calendar: Option<Calendar>,
    pub display: Option<Display>,
}

impl Default for Calendar {
    fn default() -> (res: Self)
        ensures
            res.week_start == Some(WeekStart::Monday),
            res.show_week_numbers == Some(false),
            res.theme matches Some(t) && t@ == "theme.toml"@,
    {
        Calendar {
            week_start: Some(WeekStart::Monday),
            show_week_numbers: Some(false),
            theme: Some("theme.toml".to_owned()),
        }
    }
}

impl Default for Display {
    fn default() -> (res: Self)
        ensures
            res.date_format matches Some(f) && f@ == "%a, %d %b %Y"@,
            res.month_year_format matches Some(f) && f@ == "%B %Y"@,
            res.default_mode == Some(ViewMode::Year),
    {
        Display {
            date_format: Some("%a, %d %b %Y".to_owned()),
            month_year_format: Some("%B %Y".to_owned()),
            default_mode: Some(ViewMode::Year),
        }
    }
}

impl Default for Config {
    fn default() -> (res: Self)
        ensures
            res.is_builtin(),
            res.spec_week_start() == WeekStart::Monday,
            res.spec_show_week_numbers() == false,
            res.spec_theme_name() == "theme.toml"@,
            res.spec_date_format() == "%a, %d %b %Y"@,
            res.spec_month_year_format() == "%B %Y"@,
            res.spec_default_mode() == ViewMode::Year,
    {
        Config { calendar: Some(Calendar::default()), display: Some(Display::default()) }
    }
}

/// A string field holding `text`.
pub open spec fn holds(field: Option<String>, text: Seq<char>) -> bool {
    match field {
        Some(s) => s@ == text,
        None => false,
    }
}

impl Config {
    /// The built-in configuration: both sections present, every key set to its
    /// built-in value.
    pub open spec fn is_builtin(self) -> bool {
        &&& match self.calendar {
            Some(c) => c.week_start == Some(WeekStart::Monday) && c.show_week_numbers == Some(false)
                && holds(c.theme, "theme.toml"@),
            None => false,
        }
        &&& match self.display {
            Some(d) => holds(d.date_format, "%a, %d %b %Y"@) && holds(d.month_year_format, "%B %Y"@)
                && d.default_mode == Some(ViewMode::Year),
            None => false,
        }
    }

    pub open spec fn spec_week_start(self) -> WeekStart {
        match self.calendar {
            Some(c) => match c.week_start {
                Some(w) => w,
                None => WeekStart::Monday,
            },
            None => WeekStart::Monday,
        }
    }

    pub open spec fn spec_show_week_numbers(self) -> bool {
        match self.calendar {
            Some(c) => match c.show_week_numbers {
                Some(b) => b,
                None => false,
            },
            None => false,
        }
    }

    pub open spec fn spec_theme_name(self) -> Seq<char> {
        match self.calendar {
            Some(c) => match c.theme {
                Some(t) => t@,
                None => "theme.toml"@,
            },
            None => "theme.toml"@,
        }
    }

    pub open spec fn spec_date_format(self) -> Seq<char> {
        match self.display {
            Some(d) => match d.date_format {
                Some(f) => f@,
                None => "%a, %d %b %Y"@,
            },
            None => "%a, %d %b %Y"@,
        }
    }

    pub open spec fn spec_month_year_format(self) -> Seq<char> {
        match self.display {
            Some(d) => match d.month_year_format {
                Some(f) => f@,
                None => "%B %Y"@,
            },
            None => "%B %Y"@,
        }
    }

    pub open spec fn spec_default_mode(self) -> ViewMode {
        match self.display {
            Some(d) => match d.default_mode {
                Some(m) => m,
                None => ViewMode::Year,
            },
            None => ViewMode::Year,
        }
    }

    /// The configuration that was loaded, or the built-in one when loading failed.
    pub fn load_or_default(loaded: Result<Config, Error>) -> (res: Config)
        ensures
            match loaded {
                Ok(c) => res == c,
                Err(_) => res.is_builtin(),
            },
    {
        match loaded {
            Ok(config) => config,
            Err(_) => Config::default(),
        }
    }

    /// First column of the grid; Monday when not configured.
    pub fn week_start(&self) -> (res: WeekStart)
        ensures
            res == self.spec_week_start(),
    {
        match &self.calendar {
            Some(c) => match c.week_start {
                Some(w) => w,
                None => WeekStart::Monday,
            },
            None => WeekStart::Monday,
        }
    }

    /// Whether the ISO week-number column is shown; off when not configured.
    pub fn show_week_numbers(&self) -> (res: bool)
        ensures
            res == self.spec_show_week_numbers(),
    {
        match &self.calendar {
            Some(c) => match c.show_week_numbers {
                Some(b) => b,
                None => false,
            },
            None => false,
        }
    }

    /// Theme file name or path; `theme.toml` when not configured.
    pub fn theme_name(&self) -> (res: &str)
        ensures
            res@ == self.spec_theme_name(),
    {
        match &self.calendar {
            Some(c) => match &c.theme {
                Some(t) => t.as_str(),
                None => "theme.toml",
            },
            None => "theme.toml",
        }
    }

    /// strftime format of today on the status line.
    pub fn date_format(&self) -> (res: &str)
        ensures
            res@ == self.spec_date_format(),
    {
        match &self.display {
            Some(d) => match &d.date_format {
                Some(f) => f.as_str(),
                None => "%a, %d %b %Y",
            },
            None => "%a, %d %b %Y",
        }
    }

    /// strftime format of the month/year header.
    pub fn month_year_format(&self) -> (res: &str)
        ensures
            res@ == self.spec_month_year_format(),
    {
        match &self.display {
            Some(d) => match &d.month_year_format {
                Some(f) => f.as_str(),
                None => "%B %Y",
            },
            None => "%B %Y",
        }
    }

    /// Starting view; the year view when not configured.
    pub fn default_mode(&self) -> (res: ViewMode)
        ensures
            res == self.spec_default_mode(),
    {
        match &self.display {
            Some(d) => match d.default_mode {
                Some(m) => m,
                None => ViewMode::Year,
            },
            None => ViewMode::Year,
        }
    }
}

/// The configuration directory `calendar-tui` inside the base directory:
/// `$XDG_CONFIG_HOME` when set and non-empty, else `$HOME/.config`, else `.config`.
pub open spec fn spec_config_dir(xdg_config_home: Option<Seq<char>>, home: Option<Seq<char>>) -> Seq<char> {
    let base = match xdg_config_home {
        Some(x) => if x.len() > 0 {
            x
        } else {
            match home {
                Some(h) => path_join(h, ".config"@),
                None => ".config"@,
            }
        },
        None => match home {
            Some(h) => path_join(h, ".config"@),
            None => ".config"@,
        },
    };
    path_join(base, "calendar-tui"@)
}

/// The configuration directory for the values of `XDG_CONFIG_HOME` and `HOME`.
pub fn config_dir(xdg_config_home: Option<&str>, home: Option<&str>) -> (res: String)
    ensures
        res@ == spec_config_dir(
            match xdg_config_home {
                Some(x) => Some(x@),
                None => None,
            },
            match home {
                Some(h) => Some(h@),
                None => None,
            },
        ),
{
    let from_home = match home {
        Some(h) => join(h, ".config"),
        None => ".config".to_owned(),
    };
    let base = match xdg_config_home {
        Some(x) => if x.unicode_len() > 0 {
            x.to_owned()
        } else {
            from_home
        },
        None => from_home,
    };
    join(base.as_str(), "calendar-tui")
}

/// `config.toml` in the configuration directory.
pub fn default_config_path(config_dir: &str) -> (res: String)
    ensures
        res@ == path_join(config_dir@, "config.toml"@),
{
    join(config_dir, "config.toml")
}


/// The `[calendar]` section's key, absent when the section is.
pub open spec fn calendar_key<T>(c: Config, key: spec_fn(Calendar) -> Option<T>) -> Option<T> {
    match c.calendar {
        Some(k) => key(k),
        None => None,
    }
}

/// The `[display]` section's key, absent when the section is.
pub open spec fn display_key<T>(c: Config, key: spec_fn(Display) -> Option<T>) -> Option<T> {
    match c.display {
        Some(d) => key(d),
        None => None,
    }
}

/// A key that is set gives its value; a missing key (with or without its
/// section) gives the built-in value: Monday, no week numbers, `theme.toml`,
/// `%a, %d %b %Y`, `%B %Y` and the year view.
pub proof fn lemma_missing_keys_take_builtin_values(c: Config)
    ensures
        c.spec_week_start() == match calendar_key(c, |k: Calendar| k.week_start) {
            Some(w) => w,
            None => WeekStart::Monday,
        },
        c.spec_show_week_numbers() == match calendar_key(c, |k: Calendar| k.show_week_numbers) {
            Some(b) => b,
            None => false,
        },
        c.spec_theme_name() == match calendar_key(c, |k: Calendar| k.theme) {
            Some(t) => t@,
            None => "theme.toml"@,
        },
        c.spec_date_format() == match display_key(c, |d: Display| d.date_format) {
            Some(f) => f@,
            None => "%a, %d %b %Y"@,
        },
        c.spec_month_year_format() == match display_key(c, |d: Display| d.month_year_format) {
            Some(f) => f@,
            None => "%B %Y"@,
        },
        c.spec_default_mode() == match display_key(c, |d: Display| d.default_mode) {
            Some(m) => m,
            None => ViewMode::Year,
        },
{
}

} // verus!

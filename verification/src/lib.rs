//! Calendar logic of a terminal month/year calendar: date arithmetic on the
//! proleptic Gregorian calendar, month grids laid out from a configurable first
//! day of the week, view navigation, configuration and theme resolution.

pub mod date;
pub mod calendar;
pub mod view;
pub mod error;
pub mod theme;
pub mod paths;
pub mod config;
pub mod cli;
pub mod settings;
pub mod app;
pub mod text;

pub mod render;

# calendar_tui

A terminal month/year calendar. The library under `src/` holds its logic with
Verus contracts and proofs:

- `date` – proleptic Gregorian dates, day numbers, weekdays, the week-start
  setting, month lengths; chrono does the date arithmetic behind small trusted
  wrappers.
- `calendar` – month grids in week rows and the ISO week number of each row.
- `view` – the shown month or year, the selected day and navigation.
- `app` – which key does what in each screen.
- `config`, `theme`, `paths`, `cli`, `settings` – configuration, theme colors,
  file locations and the resolved settings.
- `render`, `text` – labels, styles, texts and cell placement for drawing.

`app/` is the terminal program around it: command line (clap), TOML files
(serde, toml), the terminal (ratatui/crossterm) and logging (tracing).

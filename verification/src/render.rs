//! What the screen shows, as plain values: labels, cell styles, texts and the
//! placement of grid cells. Drawing them is left to the terminal front end.

use vstd::prelude::*;
use vstd::string::StringExecFns;
use std::fmt::Write;
use chrono::NaiveDate;
use crate::calendar::{DayCell, MonthGrid, row_iso_week};
use crate::date::{Date, WeekStart, Weekday, weekday_of, lemma_columns_rotate, naive_from_ymd};
use crate::text::{decimal, signed_decimal, spaces, u64_to_decimal, i64_to_decimal, spaces_string};
use crate::theme::{Color, ThemeColor, ThemeColors};
use crate::view::{ViewMode, ViewState};

verus! {

// ---------------------------------------------------------------------------
// Labels.
// ---------------------------------------------------------------------------

/// Two-letter name of the weekday `i` days after Monday.
pub open spec fn weekday_label(i: int) -> Seq<char> {
    if i == 0 {
        "Mo"@
    } else if i == 1 {
        "Tu"@
    } else if i == 2 {
        "We"@
    } else if i == 3 {
        "Th"@
    } else if i == 4 {
        "Fr"@
    } else if i == 5 {
        "Sa"@
    } else {
        "Su"@
    }
}

fn weekday_label_str(i: usize) -> (res: &'static str)
    requires
        i < 7,
    ensures
        res@ == weekday_label(i as int),
{
    match i {
        0 => "Mo",
        1 => "Tu",
        2 => "We",
        3 => "Th",
        4 => "Fr",
        5 => "Sa",
        _ => "Su",
    }
}

/// Column headers, starting with the configured first day of the week.
pub fn weekday_labels(week_start: WeekStart) -> (res: [String; 7])
    ensures
        forall|i: int| 0 <= i < 7 ==> (#[trigger] res@[i])@ == weekday_label((i + week_start.index()) % 7),
{
    let offset = week_start.days_from_monday() as usize;
    [
        weekday_label_str(offset % 7).to_owned(),
        weekday_label_str((1 + offset) % 7).to_owned(),
        weekday_label_str((2 + offset) % 7).to_owned(),
        weekday_label_str((3 + offset) % 7).to_owned(),
        weekday_label_str((4 + offset) % 7).to_owned(),
        weekday_label_str((5 + offset) % 7).to_owned(),
        weekday_label_str((6 + offset) % 7).to_owned(),
    ]
}

/// The header of every column names the weekday that the grid puts in that column.
pub proof fn lemma_labels_name_columns(start: WeekStart, w: Weekday)
    ensures
        weekday_label((start.spec_column(w.index()) + start.index()) % 7) == weekday_label(w.index()),
{
    lemma_columns_rotate(start, w);
}

/// Three-letter name of `month` (1–12).
pub open spec fn month_abbrev(month: int) -> Seq<char> {
    if month == 1 {
        "Jan"@
    } else if month == 2 {
        "Feb"@
    } else if month == 3 {
        "Mar"@
    } else if month == 4 {
        "Apr"@
    } else if month == 5 {
        "May"@
    } else if month == 6 {
        "Jun"@
    } else if month == 7 {
        "Jul"@
    } else if month == 8 {
        "Aug"@
    } else if month == 9 {
        "Sep"@
    } else if month == 10 {
        "Oct"@
    } else if month == 11 {
        "Nov"@
    } else {
        "Dec"@
    }
}

/// Three-letter name of `month` (1–12), the title of a month in the year view.
pub fn month_name(month: u32) -> (res: &'static str)
    requires
        1 <= month <= 12,
    ensures
        res@ == month_abbrev(month as int),
{
    match month {
        1 => "Jan",
        2 => "Feb",
        3 => "Mar",
        4 => "Apr",
        5 => "May",
        6 => "Jun",
        7 => "Jul",
        8 => "Aug",
        9 => "Sep",
        10 => "Oct",
        11 => "Nov",
        _ => "Dec",
    }
}

/// Help line of a screen: the main bindings of the view mode, and of day
/// selection in the month view.
pub open spec fn help_line(mode: ViewMode, selection_mode: bool) -> Seq<char> {
    match mode {
        ViewMode::Year => "h/l focus  j/k year  t today  enter open  q quit"@,
        ViewMode::Month => if selection_mode {
            "h/l day  j/k week  space done  esc year-view  q quit"@
        } else {
            "h/l month  j/k year  esc year-view  q quit"@
        },
    }
}

/// Help line at the bottom of the screen, for the current mode.
pub fn help_text(view: &ViewState) -> (res: &'static str)
    ensures
        res@ == help_line(view.mode, view.selection_mode),
{
    match view.mode {
        ViewMode::Year => "h/l focus  j/k year  t today  enter open  q quit",
        ViewMode::Month => if view.selection_mode {
            "h/l day  j/k week  space done  esc year-view  q quit"
        } else {
            "h/l month  j/k year  esc year-view  q quit"
        },
    }
}

/// What chrono's `strftime`-style formatting writes for a date and a format
/// string; `None` when chrono reports a formatting error.
pub uninterp spec fn chrono_format(year: int, month: int, day: int, format: Seq<char>) -> Option<Seq<char>>;

/// Calls `chrono::NaiveDate::format` and writes the result into a string; the
/// text is named by `chrono_format`, `None` standing for the error chrono
/// reports on a format it cannot apply.
#[verifier::external_body]
fn format_date(d: Date, format: &str) -> (res: Option<String>)
    requires
        d.valid(),
    ensures
        match res {
            Some(s) => chrono_format(d.year as int, d.month as int, d.day as int, format@) == Some(s@),
            None => chrono_format(d.year as int, d.month as int, d.day as int, format@) is None,
        },
{
    let mut out = String::new();
    match write!(out, "{}", NaiveDate::from_ymd_opt(d.year, d.month, d.day).unwrap().format(format)) {
        Ok(()) => Some(out),
        Err(_) => None,
    }
}

/// `date` written with `format`, when chrono can apply the format.
pub open spec fn formatted(date: Date, format: Seq<char>) -> Option<Seq<char>> {
    chrono_format(date.year as int, date.month as int, date.day as int, format)
}

/// Status line of the month view: today, then the number of week rows;
/// `None` when `date_format` cannot be applied.
pub fn status_text(view: &ViewState, date_format: &str, weeks: usize) -> (res: Option<String>)
    requires
        view.today.valid(),
    ensures
        match formatted(view.today, date_format@) {
            Some(t) => res matches Some(s) && s@ == t + "    Weeks: "@ + decimal(weeks as nat),
            None => res is None,
        },
{
    let mut res = match format_date(view.today, date_format) {
        Some(t) => t,
        None => return None,
    };
    res.append("    Weeks: ");
    let n = u64_to_decimal(weeks as u64);
    res.append(n.as_str());
    Some(res)
}

/// Status line of the year view: today, then the view year; `None` when
/// `date_format` cannot be applied.
pub fn year_status_text(view: &ViewState, date_format: &str) -> (res: Option<String>)
    requires
        view.today.valid(),
    ensures
        match formatted(view.today, date_format@) {
            Some(t) => res matches Some(s) && s@ == t + "    Year: "@ + signed_decimal(view.view_year as int),
            None => res is None,
        },
{
    let mut res = match format_date(view.today, date_format) {
        Some(t) => t,
        None => return None,
    };
    res.append("    Year: ");
    let n = i64_to_decimal(view.view_year as i64);
    res.append(n.as_str());
    Some(res)
}

/// Header of the year view: the year and the focused month.
pub fn year_header_text(view: &ViewState) -> (res: String)
    requires
        1 <= view.focused_month <= 12,
    ensures
        res@ == signed_decimal(view.view_year as int) + " — "@ + month_abbrev(view.focused_month as int),
{
    let mut res = i64_to_decimal(view.view_year as i64);
    res.append(" — ");
    res.append(month_name(view.focused_month));
    res
}

/// Header of the month view: the first day of the view month written with
/// `month_year_format`, or `month / year` when that day does not exist; `None`
/// when the format cannot be applied.
pub fn month_header_text(view: &ViewState, month_year_format: &str) -> (res: Option<String>)
    ensures
        crate::date::valid_ymd(view.view_year as int, view.view_month as int, 1) ==> match formatted(
            Date { year: view.view_year, month: view.view_month, day: 1 },
            month_year_format@,
        ) {
            Some(t) => res matches Some(s) && s@ == t,
            None => res is None,
        },
        !crate::date::valid_ymd(view.view_year as int, view.view_month as int, 1) ==> (res matches Some(s)
            && s@ == decimal(view.view_month as nat) + " / "@ + signed_decimal(view.view_year as int)),
{
    match naive_from_ymd(view.view_year, view.view_month, 1) {
        Some(first) => format_date(first, month_year_format),
        None => {
            let mut res = u64_to_decimal(view.view_month as u64);
            res.append(" / ");
            let y = i64_to_decimal(view.view_year as i64);
            res.append(y.as_str());
            Some(res)
        },
    }
}

// ---------------------------------------------------------------------------
// Styles.
// ---------------------------------------------------------------------------

/// Colors and text attributes of a piece of text; an absent color leaves the
/// terminal's own.
#[derive(Clone, Copy, Debug, PartialEq, Eq, Structural)]
pub struct CellStyle {
    pub fg: Option<Color>,
    pub bg: Option<Color>,
    pub bold: bool,
    pub dim: bool,
    pub reversed: bool,
    pub underlined: bool,
}

/// No colors and no attributes.
pub open spec fn plain_style() -> CellStyle {
    CellStyle { fg: None, bg: None, bold: false, dim: false, reversed: false, underlined: false }
}

impl CellStyle {
    /// No colors and no attributes.
    pub fn plain() -> (res: CellStyle)
        ensures
            res == plain_style(),
    {
        CellStyle { fg: None, bg: None, bold: false, dim: false, reversed: false, underlined: false }
    }
}

/// `style` with `c` as its foreground; a transparent color leaves it as it is.
pub open spec fn spec_patch_fg(c: ThemeColor, style: CellStyle) -> CellStyle {
    if c.a == 0 {
        style
    } else {
        CellStyle { fg: Some(c.rgb()), ..style }
    }
}

/// `style` with `c` as its background; a transparent color leaves it as it is.
pub open spec fn spec_patch_bg(c: ThemeColor, style: CellStyle) -> CellStyle {
    if c.a == 0 {
        style
    } else {
        CellStyle { bg: Some(c.rgb()), ..style }
    }
}

impl ThemeColor {
    /// `style` with this color as its foreground, unless the color is transparent.
    pub fn patch_fg(&self, style: CellStyle) -> (res: CellStyle)
        ensures
            res == spec_patch_fg(*self, style),
    {
        if self.is_transparent() {
            style
        } else {
            CellStyle { fg: Some(self.to_rgb()), ..style }
        }
    }

    /// `style` with this color as its background, unless the color is transparent.
    pub fn patch_bg(&self, style: CellStyle) -> (res: CellStyle)
        ensures
            res == spec_patch_bg(*self, style),
    {
        if self.is_transparent() {
            style
        } else {
            CellStyle { bg: Some(self.to_rgb()), ..style }
        }
    }
}

/// The theme background alone (nothing when it is transparent).
pub open spec fn spec_block_style(colors: ThemeColors) -> CellStyle {
    spec_patch_bg(colors.background, plain_style())
}

/// Text in color `c` on the theme background.
pub open spec fn spec_text_style(c: ThemeColor, colors: ThemeColors) -> CellStyle {
    spec_patch_fg(c, spec_block_style(colors))
}

/// Plain text: the theme foreground on the theme background.
pub open spec fn base_style(colors: ThemeColors) -> CellStyle {
    spec_text_style(colors.foreground, colors)
}

/// Style of boxes: the theme background.
pub fn block_style(colors: &ThemeColors) -> (res: CellStyle)
    ensures
        res == spec_block_style(*colors),
{
    colors.background.patch_bg(CellStyle::plain())
}

/// Text in color `c` on the theme background.
pub fn text_style(c: ThemeColor, colors: &ThemeColors) -> (res: CellStyle)
    ensures
        res == spec_text_style(c, *colors),
{
    c.patch_fg(block_style(colors))
}

/// Style of box borders: the border color alone.
pub fn border_style(colors: &ThemeColors) -> (res: CellStyle)
    ensures
        res == spec_patch_fg(colors.border, plain_style()),
{
    colors.border.patch_fg(CellStyle::plain())
}

/// A background with alpha 0 is never painted: boxes and text keep the
/// terminal's own background; any other background is painted in its color.
pub proof fn lemma_transparent_background(colors: ThemeColors, c: ThemeColor)
    ensures
        colors.background.a == 0 ==> spec_block_style(colors).bg is None && spec_text_style(c, colors).bg is None,
        colors.background.a != 0 ==> spec_block_style(colors).bg == Some(colors.background.rgb())
            && spec_text_style(c, colors).bg == Some(colors.background.rgb()),
{
}

/// Saturday or Sunday.
pub open spec fn is_weekend(index: int) -> bool {
    index == 5 || index == 6
}

/// Style of a grid day: today first, then days of other months, the selected
/// day, weekends, and the plain style.
pub open spec fn spec_style_for_cell(cell: DayCell, view: ViewState, colors: ThemeColors) -> CellStyle {
    let base = base_style(colors);
    if cell.date == view.today {
        CellStyle { bold: true, ..spec_patch_fg(colors.today, base) }
    } else if !cell.in_month {
        spec_patch_fg(colors.other_month, base)
    } else if view.selected_day == Some(cell.day) {
        CellStyle { reversed: true, ..spec_patch_fg(colors.selected, base) }
    } else if is_weekend(cell.date.weekday_index()) {
        spec_patch_fg(colors.weekend, base)
    } else {
        base
    }
}

impl ThemeColors {
    /// Plain text style: the foreground on the background.
    pub fn cell_base(&self) -> (res: CellStyle)
        ensures
            res == base_style(*self),
    {
        text_style(self.foreground, self)
    }
}

/// Style of a grid day.
pub fn style_for_cell(cell: &DayCell, view: &ViewState, colors: &ThemeColors) -> (res: CellStyle)
    requires
        cell.date.valid(),
    ensures
        res == spec_style_for_cell(*cell, *view, *colors),
{
    let base = colors.cell_base();
    if cell.date == view.today {
        return CellStyle { bold: true, ..colors.today.patch_fg(base) };
    }
    if !cell.in_month {
        return colors.other_month.patch_fg(base);
    }
    if view.selected_day == Some(cell.day) {
        return CellStyle { reversed: true, ..colors.selected.patch_fg(base) };
    }
    let wd = weekday_of(cell.date).num_days_from_monday();
    if wd == 5 || wd == 6 {
        return colors.weekend.patch_fg(base);
    }
    base
}

/// A styled piece of text.
#[derive(Clone, Debug, PartialEq, Eq)]
pub struct Span {
    pub content: String,
    pub style: CellStyle,
}

/// A line of styled text.
#[derive(Clone, Debug, PartialEq, Eq)]
pub struct Line {
    pub spans: Vec<Span>,
}

/// Spaces that right-align `digits` characters in `width` columns.
pub open spec fn pad_len(width: int, digits: int) -> nat {
    if width > digits { (width - digits) as nat } else { 0 }
}

/// Style of today's digits in the month grid.
pub open spec fn today_digits_style(colors: ThemeColors) -> CellStyle {
    CellStyle { bold: true, underlined: true, ..spec_text_style(colors.today, colors) }
}

/// A right-aligned day label of `width` columns; for today only the digits are
/// underlined, the padding keeps the plain style.
pub fn day_line(cell: &DayCell, view: &ViewState, colors: &ThemeColors, width: usize) -> (res: Line)
    requires
        cell.date.valid(),
    ensures
        ({
            let digits = decimal(cell.day as nat);
            let pad = spaces(pad_len(width as int, digits.len() as int));
            if cell.date == view.today {
                &&& res.spans@.len() == 2
                &&& res.spans@[0].content@ == pad
                &&& res.spans@[0].style == base_style(*colors)
                &&& res.spans@[1].content@ == digits
                &&& res.spans@[1].style == today_digits_style(*colors)
            } else {
                &&& res.spans@.len() == 1
                &&& res.spans@[0].content@ == pad + digits
                &&& res.spans@[0].style == spec_style_for_cell(*cell, *view, *colors)
            }
        }),
{
    let day_str = u64_to_decimal(cell.day as u64);
    let len = day_str.unicode_len();
    let pad_n = if width > len { width - len } else { 0 };
    let pad = spaces_string(pad_n);

    if cell.date == view.today {
        let pad_style = colors.cell_base();
        let day_style = CellStyle { bold: true, underlined: true, ..text_style(colors.today, colors) };
        let mut spans: Vec<Span> = Vec::new();
        spans.push(Span { content: pad, style: pad_style });
        spans.push(Span { content: day_str, style: day_style });
        return Line { spans };
    }
    let mut text = pad;
    text.append(day_str.as_str());
    let mut spans: Vec<Span> = Vec::new();
    spans.push(Span { content: text, style: style_for_cell(cell, view, colors) });
    Line { spans }
}

/// Style of a day in a year-view mini month: today's digits bold in the today
/// color on the background, other days as in the month grid.
pub fn mini_day_style(cell: &DayCell, view: &ViewState, colors: &ThemeColors) -> (res: CellStyle)
    requires
        cell.date.valid(),
    ensures
        cell.date == view.today ==> res == (CellStyle { bold: true, ..spec_text_style(colors.today, *colors) }),
        cell.date != view.today ==> res == spec_style_for_cell(*cell, *view, *colors),
{
    if cell.date == view.today {
        CellStyle { bold: true, ..text_style(colors.today, colors) }
    } else {
        style_for_cell(cell, view, colors)
    }
}

/// Border of a mini month: the selected color in bold when focused, else the border color.
pub fn mini_month_border(focused: bool, colors: &ThemeColors) -> (res: CellStyle)
    ensures
        res == (if focused {
            CellStyle { bold: true, ..spec_patch_fg(colors.selected, plain_style()) }
        } else {
            spec_patch_fg(colors.border, plain_style())
        }),
{
    if focused {
        CellStyle { bold: true, ..colors.selected.patch_fg(CellStyle::plain()) }
    } else {
        border_style(colors)
    }
}

/// The view a mini month of the year view is drawn with: its own month, no selection.
pub fn mini_month_view(view: &ViewState, month: u32) -> (res: ViewState)
    ensures
        res == (ViewState {
            mode: ViewMode::Year,
            view_year: view.view_year,
            view_month: month,
            focused_month: month,
            selected_day: None,
            selection_mode: false,
            today: view.today,
        }),
{
    ViewState {
        mode: ViewMode::Year,
        view_year: view.view_year,
        view_month: month,
        focused_month: month,
        selected_day: None,
        selection_mode: false,
        today: view.today,
    }
}

// ---------------------------------------------------------------------------
// Placement.
// ---------------------------------------------------------------------------

/// A rectangle of terminal cells.
#[derive(Clone, Copy, Debug, PartialEq, Eq, Hash, Structural)]
pub struct Rect {
    pub x: u16,
    pub y: u16,
    pub width: u16,
    pub height: u16,
}

/// The rectangle ends within the terminal coordinates.
pub open spec fn rect_fits(r: Rect) -> bool {
    r.x + r.width <= u16::MAX && r.y + r.height <= u16::MAX
}

impl Rect {
    /// The rectangle ends within the terminal coordinates.
    pub fn fits(&self) -> (res: bool)
        ensures
            res == rect_fits(*self),
    {
        (self.x as u32) + (self.width as u32) <= 0xffff && (self.y as u32) + (self.height as u32) <= 0xffff
    }
}

/// Column `i` of `count` equal columns of `area`; the last column takes the remainder.
pub open spec fn column_rect(area: Rect, count: int, i: int) -> Rect {
    let w = (area.width as int) / count;
    Rect {
        x: (area.x + i * w) as u16,
        y: area.y,
        width: if i + 1 == count { (area.width - w * (count - 1)) as u16 } else { w as u16 },
        height: area.height,
    }
}

proof fn lemma_column_bounds(width: int, count: int, i: int)
    by (nonlinear_arith)
    requires
        count >= 1,
        0 <= i < count,
        width >= 0,
    ensures
        0 <= i * (width / count) <= width,
        0 <= (width / count) * (count - 1) <= width,
        i * (width / count) + width / count <= width,
{
}

/// `count` columns (at least one) side by side across `area`.
pub fn column_rects(area: Rect, count: u16) -> (res: Vec<Rect>)
    requires
        rect_fits(area),
    ensures
        res@.len() == if count == 0 { 1 } else { count as int },
        forall|i: int| 0 <= i < res@.len() ==> #[trigger] res@[i] == column_rect(area, res@.len() as int, i),
{
    let count = if count == 0 { 1 } else { count };
    let col_width = area.width / count;
    let mut res: Vec<Rect> = Vec::new();
    let mut i: u16 = 0;
    while i < count
        invariant
            1 <= count,
            i <= count,
            col_width == area.width / count,
            rect_fits(area),
            res@.len() == i,
            forall|k: int| 0 <= k < i ==> #[trigger] res@[k] == column_rect(area, count as int, k),
        decreases count - i,
    {
        proof {
            lemma_column_bounds(area.width as int, count as int, i as int);
        }
        let width = if i + 1 == count {
            area.width - col_width * (count - 1)
        } else {
            col_width
        };
        res.push(Rect { x: area.x + i * col_width, y: area.y, width, height: area.height });
        i += 1;
    }
    res
}

/// Columns tile the area: each starts where the previous one ends, the first at
/// the left edge and the last ends at the right edge.
pub proof fn lemma_columns_tile(area: Rect, count: int, i: int)
    requires
        rect_fits(area),
        count >= 1,
        0 <= i < count,
    ensures
        i == 0 ==> column_rect(area, count, i).x == area.x,
        i + 1 < count ==> column_rect(area, count, i).x + column_rect(area, count, i).width == column_rect(
            area,
            count,
            i + 1,
        ).x,
        i + 1 == count ==> column_rect(area, count, i).x + column_rect(area, count, i).width == area.x
            + area.width,
{
    lemma_column_bounds(area.width as int, count, i);
    if i + 1 < count {
        lemma_column_bounds(area.width as int, count, i + 1);
        assert((i + 1) * ((area.width as int) / count) == i * ((area.width as int) / count) + (area.width as int) / count) by (nonlinear_arith);
    } else {
        assert(i * ((area.width as int) / count) == ((area.width as int) / count) * (count - 1)) by (nonlinear_arith)
            requires i == count - 1;
    }
}

/// Cell rectangles of the month grid inside `inner`: one line per week row, as
/// many rows as fit, seven columns each.
pub fn month_cell_rows(inner: Rect, rows: usize) -> (res: Vec<Vec<Rect>>)
    requires
        rect_fits(inner),
    ensures
        res@.len() == (if inner.width == 0 || inner.height == 0 {
            0
        } else if rows < inner.height {
            rows as int
        } else {
            inner.height as int
        }),
        forall|r: int, c: int|
            0 <= r < res@.len() && 0 <= c < 7 ==> (#[trigger] res@[r]@[c]) == (Rect {
                height: 1,
                y: (inner.y + r) as u16,
                ..column_rect(inner, 7, c)
            }),
        forall|r: int| 0 <= r < res@.len() ==> (#[trigger] res@[r]@).len() == 7,
{
    let mut res: Vec<Vec<Rect>> = Vec::new();
    if inner.width == 0 || inner.height == 0 {
        return res;
    }
    let cols = column_rects(inner, 7);
    let mut row: usize = 0;
    let max_rows = inner.height as usize;
    while row < rows && row < max_rows
        invariant
            row <= rows,
            max_rows == inner.height,
            rect_fits(inner),
            inner.height > 0,
            row <= inner.height,
            cols@.len() == 7,
            forall|i: int| 0 <= i < 7 ==> #[trigger] cols@[i] == column_rect(inner, 7, i),
            res@.len() == row,
            forall|r: int, c: int|
                0 <= r < res@.len() && 0 <= c < 7 ==> (#[trigger] res@[r]@[c]) == (Rect {
                    height: 1,
                    y: (inner.y + r) as u16,
                    ..column_rect(inner, 7, c)
                }),
            forall|r: int| 0 <= r < res@.len() ==> (#[trigger] res@[r]@).len() == 7,
        decreases rows - row,
    {
        let y = inner.y + row as u16;
        let mut line: Vec<Rect> = Vec::new();
        let mut c: usize = 0;
        while c < 7
            invariant
                c <= 7,
                cols@.len() == 7,
                forall|i: int| 0 <= i < 7 ==> #[trigger] cols@[i] == column_rect(inner, 7, i),
                line@.len() == c,
                forall|k: int| 0 <= k < c ==> #[trigger] line@[k] == (Rect { height: 1, y, ..column_rect(inner, 7, k) }),
            decreases 7 - c,
        {
            let col = cols[c];
            line.push(Rect { x: col.x, y, width: col.width, height: 1 });
            c += 1;
        }
        res.push(line);
        row += 1;
    }
    res
}


/// Row `r` of a mini month inside `inner`: equal-height rows of a sixth of the
/// height, so leftover lines stay below the grid.
pub open spec fn mini_row(inner: Rect, r: int) -> Rect {
    let h = inner.height / 6;
    Rect { x: inner.x, y: (inner.y + r * h) as u16, width: inner.width, height: h as u16 }
}

/// Cell rectangles of a mini month (one per day of `rows` week rows, seven
/// columns each) inside `inner`; none when `inner` is narrower than seven
/// columns or lower than six lines.
pub fn mini_month_cells(inner: Rect, rows: usize) -> (res: Vec<Vec<Rect>>)
    requires
        rect_fits(inner),
        rows <= 6,
    ensures
        inner.width < 7 || inner.height < 6 ==> res@.len() == 0,
        !(inner.width < 7 || inner.height < 6) ==> res@.len() == rows,
        forall|r: int| 0 <= r < res@.len() ==> (#[trigger] res@[r]@).len() == 7,
        forall|r: int, c: int|
            0 <= r < res@.len() && 0 <= c < 7 ==> (#[trigger] res@[r]@[c]) == column_rect(mini_row(inner, r), 7, c),
{
    let mut res: Vec<Vec<Rect>> = Vec::new();
    if inner.width < 7 || inner.height < 6 {
        return res;
    }
    let row_height = inner.height / 6;
    let mut row: usize = 0;
    while row < rows
        invariant
            row <= rows <= 6,
            rect_fits(inner),
            inner.width >= 7,
            inner.height >= 6,
            row_height == inner.height / 6,
            res@.len() == row,
            forall|r: int| 0 <= r < res@.len() ==> (#[trigger] res@[r]@).len() == 7,
            forall|r: int, c: int|
                0 <= r < res@.len() && 0 <= c < 7 ==> (#[trigger] res@[r]@[c]) == column_rect(mini_row(inner, r), 7, c),
        decreases rows - row,
    {
        assert(row * row_height <= 5 * row_height) by (nonlinear_arith)
            requires row <= 5;
        let row_area = Rect {
            x: inner.x,
            y: inner.y + row as u16 * row_height,
            width: inner.width,
            height: row_height,
        };
        assert(row_area == mini_row(inner, row as int));
        let cols = column_rects(row_area, 7);
        res.push(cols);
        row += 1;
    }
    res
}


// ---------------------------------------------------------------------------
// The ISO week-number column.
// ---------------------------------------------------------------------------

/// Width of the week-number column left of a grid.
pub const WEEK_COLUMN_WIDTH: u16 = 4;

/// Header of the week-number column.
pub fn week_column_label() -> (res: &'static str)
    ensures
        res@ == "Wk"@,
{
    "Wk"
}

/// `area` split into the week-number column (when shown) on the left and the
/// rest; the column takes `WEEK_COLUMN_WIDTH` cells, or all of a narrower area.
pub open spec fn spec_split_week_column(area: Rect, show: bool) -> (Option<Rect>, Rect) {
    if !show {
        (None, area)
    } else {
        let w = if area.width < WEEK_COLUMN_WIDTH { area.width as int } else { WEEK_COLUMN_WIDTH as int };
        (
            Some(Rect { width: w as u16, ..area }),
            Rect { x: (area.x + w) as u16, width: (area.width - w) as u16, ..area },
        )
    }
}

/// Splits the week-number column off the left of `area` when it is shown.
pub fn split_week_column(area: Rect, show: bool) -> (res: (Option<Rect>, Rect))
    requires
        rect_fits(area),
    ensures
        res == spec_split_week_column(area, show),
        rect_fits(res.1),
{
    if !show {
        return (None, area);
    }
    let w = if area.width < WEEK_COLUMN_WIDTH { area.width } else { WEEK_COLUMN_WIDTH };
    (
        Some(Rect { x: area.x, y: area.y, width: w, height: area.height }),
        Rect { x: area.x + w, y: area.y, width: area.width - w, height: area.height },
    )
}

/// The ISO week number of every row of `grid`, written in decimal.
pub fn week_number_labels(grid: &MonthGrid) -> (res: Vec<String>)
    requires
        forall|i: int| 0 <= i < grid.cell_count() ==> (#[trigger] grid.cell(i)).date.valid(),
    ensures
        res@.len() == grid.weeks@.len(),
        forall|r: int| 0 <= r < res@.len() ==> (#[trigger] res@[r])@ == decimal(
            row_iso_week(grid.weeks@[r]@) as nat,
        ),
{
    let numbers = grid.iso_week_numbers();
    let mut res: Vec<String> = Vec::new();
    let mut r: usize = 0;
    while r < numbers.len()
        invariant
            r <= numbers@.len(),
            numbers@.len() == grid.weeks@.len(),
            forall|q: int| 0 <= q < numbers@.len() ==> #[trigger] numbers@[q] == row_iso_week(grid.weeks@[q]@),
            res@.len() == r,
            forall|q: int| 0 <= q < r ==> (#[trigger] res@[q])@ == decimal(row_iso_week(grid.weeks@[q]@) as nat),
        decreases numbers@.len() - r,
    {
        res.push(u64_to_decimal(numbers[r] as u64));
        r += 1;
    }
    res
}

/// One-line rectangles down `col`, one per row: as many rows as fit.
pub fn column_lines(col: Rect, rows: usize) -> (res: Vec<Rect>)
    requires
        rect_fits(col),
    ensures
        res@.len() == (if col.width == 0 || col.height == 0 {
            0
        } else if rows < col.height {
            rows as int
        } else {
            col.height as int
        }),
        forall|r: int| 0 <= r < res@.len() ==> #[trigger] res@[r] == (Rect { height: 1, y: (col.y + r) as u16, ..col }),
{
    let mut res: Vec<Rect> = Vec::new();
    if col.width == 0 || col.height == 0 {
        return res;
    }
    let max_rows = col.height as usize;
    let mut row: usize = 0;
    while row < rows && row < max_rows
        invariant
            row <= rows,
            max_rows == col.height,
            row <= col.height,
            rect_fits(col),
            res@.len() == row,
            forall|r: int| 0 <= r < res@.len() ==> #[trigger] res@[r] == (Rect { height: 1, y: (col.y + r) as u16, ..col }),
        decreases rows - row,
    {
        res.push(Rect { x: col.x, y: col.y + row as u16, width: col.width, height: 1 });
        row += 1;
    }
    res
}

/// The mini-month rows down `col` (a sixth of its height each), one per week row.
pub fn mini_rows(col: Rect, rows: usize) -> (res: Vec<Rect>)
    requires
        rect_fits(col),
        rows <= 6,
    ensures
        res@.len() == rows,
        forall|r: int| 0 <= r < res@.len() ==> #[trigger] res@[r] == mini_row(col, r),
{
    let h = col.height / 6;
    let mut res: Vec<Rect> = Vec::new();
    let mut row: usize = 0;
    while row < rows
        invariant
            row <= rows <= 6,
            rect_fits(col),
            h == col.height / 6,
            res@.len() == row,
            forall|r: int| 0 <= r < res@.len() ==> #[trigger] res@[r] == mini_row(col, r),
        decreases rows - row,
    {
        assert(row * h <= 5 * h) by (nonlinear_arith)
            requires row <= 5;
        res.push(Rect { x: col.x, y: col.y + row as u16 * h, width: col.width, height: h });
        row += 1;
    }
    res
}


/// The terminal color a theme color paints: none when it is transparent.
pub open spec fn painted(c: ThemeColor) -> Option<Color> {
    if c.a == 0 {
        None
    } else {
        Some(Color { r: c.r, g: c.g, b: c.b })
    }
}

/// Text color `c`, falling back to `under` when `c` is transparent.
pub open spec fn painted_over(c: ThemeColor, under: ThemeColor) -> Option<Color> {
    if c.a == 0 {
        painted(under)
    } else {
        Some(Color { r: c.r, g: c.g, b: c.b })
    }
}

/// How a grid day is drawn, case by case. Every day sits on the theme
/// background. Today (by full date) is bold in the today color; a day of
/// another month is in the other-month color; the selected day of the month
/// is reversed in the selected color; a Saturday or Sunday (weekday 5 or 6
/// counted from Monday) is in the weekend color; any other day is in the
/// foreground color. A transparent color leaves the foreground in its place.
pub proof fn lemma_cell_colors(cell: DayCell, view: ViewState, colors: ThemeColors)
    ensures
        ({
            let s = spec_style_for_cell(cell, view, colors);
            let wd = cell.date.day_number() % 7;
            &&& s.bg == painted(colors.background)
            &&& !s.dim && !s.underlined
            &&& cell.date == view.today ==> s.bold && !s.reversed && s.fg == painted_over(
                colors.today,
                colors.foreground,
            )
            &&& cell.date != view.today && !cell.in_month ==> !s.bold && !s.reversed && s.fg
                == painted_over(colors.other_month, colors.foreground)
            &&& cell.date != view.today && cell.in_month && view.selected_day == Some(cell.day) ==> !s.bold
                && s.reversed && s.fg == painted_over(colors.selected, colors.foreground)
            &&& cell.date != view.today && cell.in_month && view.selected_day != Some(cell.day) ==> !s.bold
                && !s.reversed && s.fg == (if wd == 5 || wd == 6 {
                painted_over(colors.weekend, colors.foreground)
            } else {
                painted(colors.foreground)
            })
        }),
{
}

} // verus!

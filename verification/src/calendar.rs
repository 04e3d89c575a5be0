//! Month grids: the days of a month laid out in week rows of seven columns.

use vstd::prelude::*;
use crate::date::{
    Date, WeekStart, MIN_YEAR, MAX_YEAR, spec_days_in_month, day_number_in_range, naive_from_ymd,
    days_in_month, weekday_of, shift_date, lemma_days_before_month_values, lemma_year_length,
    lemma_range_bounds, lemma_valid_in_range, lemma_days_before_year_mono, lemma_month_end_successor,
    days_before_month, days_before_year, chrono_iso_week, iso_week_of, lemma_day_number_injective, max_date,
};

verus! {

/// One cell of a month grid.
#[derive(Clone, Copy, Debug, PartialEq, Eq, Structural)]
pub struct DayCell {
    pub date: Date,
    pub day: u32,
    pub in_month: bool,
}

/// Maximum week rows a month grid can occupy (used for uniform year-view layout).
pub const MAX_WEEK_ROWS: usize = 6;

/// The days of one month in week rows; column 0 holds the configured first day of the week.
#[derive(Clone, Debug, PartialEq, Eq)]
pub struct MonthGrid {
    pub year: i32,
    pub month: u32,
    pub weeks: Vec<[DayCell; 7]>,
}

/// First day of the month.
pub open spec fn month_first(year: int, month: int) -> Date {
    Date { year: year as i32, month: month as u32, day: 1 }
}

/// Last day of the month.
pub open spec fn month_last(year: int, month: int) -> Date {
    Date { year: year as i32, month: month as u32, day: spec_days_in_month(year, month) as u32 }
}

/// Leading cells from the previous month: the column of the month's first day.
pub open spec fn leading_days(year: int, month: int, start: WeekStart) -> int {
    start.spec_column(month_first(year, month).weekday_index())
}

/// Number of week rows: enough rows of seven for the leading cells and the month.
pub open spec fn week_rows(year: int, month: int, start: WeekStart) -> int {
    (leading_days(year, month, start) + spec_days_in_month(year, month) + 6) / 7
}

/// Trailing cells from the next month that complete the last row.
pub open spec fn trailing_days(year: int, month: int, start: WeekStart) -> int {
    7 * week_rows(year, month, start) - leading_days(year, month, start) - spec_days_in_month(year, month)
}

/// The month exists and every date the grid touches (including the day after its
/// last cell) lies in the supported range.
pub open spec fn grid_in_range(year: int, month: int, start: WeekStart) -> bool {
    &&& 1 <= month <= 12
    &&& MIN_YEAR <= year <= MAX_YEAR
    &&& day_number_in_range(month_first(year, month).day_number() - leading_days(year, month, start))
    &&& day_number_in_range(
        month_last(year, month).day_number() + trailing_days(year, month, start) + 1,
    )
}

/// Cell `i` (counted row by row) of the grid of `year`/`month` under `start`.
pub open spec fn cell_spec(c: DayCell, year: int, month: int, start: WeekStart, i: int) -> bool {
    let lead = leading_days(year, month, start);
    let len = spec_days_in_month(year, month);
    &&& c.date.is_shift_of(month_first(year, month), i - lead)
    &&& c.day == c.date.day
    &&& c.in_month == (lead <= i < lead + len)
    &&& lead <= i < lead + len ==> c.date == Date {
        year: year as i32,
        month: month as u32,
        day: (i - lead + 1) as u32,
    }
}

impl MonthGrid {
    /// Cell `i`, counted row by row.
    pub open spec fn cell(self, i: int) -> DayCell {
        self.weeks@[i / 7][i % 7]
    }

    /// Number of cells.
    pub open spec fn cell_count(self) -> int {
        7 * (self.weeks@.len() as int)
    }

    /// The grid is the layout of its own month under `start`.
    pub open spec fn is_layout(self, start: WeekStart) -> bool {
        &&& self.weeks@.len() == week_rows(self.year as int, self.month as int, start)
        &&& forall|i: int| 0 <= i < self.cell_count() ==> #[trigger] cell_spec(
            self.cell(i),
            self.year as int,
            self.month as int,
            start,
            i,
        )
    }
}

/// A month spans four to six rows, whatever the first day of the week.
pub proof fn lemma_week_rows_bounds(year: int, month: int, start: WeekStart)
    requires
        1 <= month <= 12,
    ensures
        4 <= week_rows(year, month, start) <= MAX_WEEK_ROWS,
        0 <= leading_days(year, month, start) < 7,
        0 <= trailing_days(year, month, start) < 7,
{
}

/// Every month of a year strictly inside the supported range can be laid out.
pub proof fn lemma_grid_in_range(year: int, month: int, start: WeekStart)
    requires
        MIN_YEAR < year < MAX_YEAR,
        1 <= month <= 12,
    ensures
        grid_in_range(year, month, start),
{
    let first = month_first(year, month);
    let last = month_last(year, month);
    lemma_week_rows_bounds(year, month, start);
    lemma_days_before_month_values(year);
    reveal_with_fuel(days_before_month, 13);
    lemma_year_length(year);
    lemma_year_length(MIN_YEAR as int);
    lemma_year_length(MAX_YEAR as int);
    lemma_range_bounds();
    assert(first.valid());
    assert(last.valid());
    lemma_valid_in_range(first);
    lemma_valid_in_range(last);
    // first lies at least a year after the first supported date
    lemma_days_before_year_mono(MIN_YEAR + 1, year);
    // last lies at least a year before the last supported date
    lemma_days_before_year_mono(year + 1, MAX_YEAR as int);
    assert(days_before_year(year) <= first.day_number());
    assert(last.day_number() < days_before_year(year + 1));
}

/// Cells of a laid-out grid are consecutive days.
pub proof fn lemma_layout_consecutive(g: MonthGrid, start: WeekStart, i: int)
    requires
        g.is_layout(start),
        0 <= i,
        i + 1 < g.cell_count(),
    ensures
        g.cell(i + 1).date.day_number() == g.cell(i).date.day_number() + 1,
{
    assert(cell_spec(g.cell(i), g.year as int, g.month as int, start, i));
    assert(cell_spec(g.cell(i + 1), g.year as int, g.month as int, start, i + 1));
}

/// Column `c` of a laid-out grid always holds the weekday `c` places after the
/// first day of the week.
pub proof fn lemma_layout_columns(g: MonthGrid, start: WeekStart, i: int)
    requires
        g.is_layout(start),
        0 <= i < g.cell_count(),
    ensures
        g.cell(i).date.weekday_index() == (start.index() + i % 7) % 7,
{
    let y = g.year as int;
    let m = g.month as int;
    assert(cell_spec(g.cell(i), y, m, start, i));
    let f = month_first(y, m).day_number();
    let lead = leading_days(y, m, start);
    let s = start.index();
    let n = g.cell(i).date.day_number();
    assert(n == f + i - lead);
    assert(lead == (f % 7 - s) % 7);
    assert(0 <= s < 7);
    assert(n % 7 == (s + i % 7) % 7) by {
        let q = f % 7;
        assert(f == 7 * (f / 7) + q);
        assert(i == 7 * (i / 7) + i % 7);
        assert(q - s == 7 * ((q - s) / 7) + lead);
    }
}

/// The cells of a laid-out grid that are marked in the month are exactly the
/// cells whose date lies in the grid's month.
pub proof fn lemma_layout_in_month(g: MonthGrid, start: WeekStart, i: int)
    requires
        g.is_layout(start),
        0 <= i < g.cell_count(),
    ensures
        g.cell(i).in_month <==> (g.cell(i).date.year == g.year && g.cell(i).date.month == g.month),
{
    let y = g.year as int;
    let m = g.month as int;
    let c = g.cell(i);
    assert(cell_spec(c, y, m, start, i));
    if !c.in_month && c.date.year == g.year && c.date.month == g.month {
        assert(c.date.day_number() == month_first(y, m).day_number() + c.date.day - 1);
    }
}

/// A month has one layout for a given first day of the week: two laid-out grids
/// of the same month have the same rows. So each grid of `build_year_grids` is
/// the grid that `MonthGrid::build` gives for its month.
pub proof fn lemma_layout_unique(g1: MonthGrid, g2: MonthGrid, start: WeekStart)
    requires
        g1.year == g2.year,
        g1.month == g2.month,
        g1.is_layout(start),
        g2.is_layout(start),
    ensures
        g1.weeks@ == g2.weeks@,
{
    let y = g1.year as int;
    let m = g1.month as int;
    assert forall|r: int| 0 <= r < g1.weeks@.len() implies #[trigger] g1.weeks@[r] == g2.weeks@[r] by {
        assert forall|j: int| 0 <= j < 7 implies g1.weeks@[r][j] == g2.weeks@[r][j] by {
            let i = 7 * r + j;
            assert(i / 7 == r && i % 7 == j);
            assert(cell_spec(g1.cell(i), y, m, start, i));
            assert(cell_spec(g2.cell(i), y, m, start, i));
            lemma_day_number_injective(g1.cell(i).date, g2.cell(i).date);
        }
        assert(g1.weeks@[r] =~= g2.weeks@[r]);
    }
    assert(g1.weeks@ =~= g2.weeks@);
}

/// Builds the grid cells of one row, counted from `row_start`.
fn row_of(cells: &Vec<DayCell>, row_start: usize) -> (res: [DayCell; 7])
    requires
        row_start + 7 <= cells.len(),
    ensures
        forall|j: int| 0 <= j < 7 ==> #[trigger] res@[j] == cells@[row_start + j],
{
    [
        cells[row_start],
        cells[row_start + 1],
        cells[row_start + 2],
        cells[row_start + 3],
        cells[row_start + 4],
        cells[row_start + 5],
        cells[row_start + 6],
    ]
}

impl MonthGrid {
    /// Lays out `month` of `year`: days of the previous month up to the first
    /// day's column, the days of the month, then days of the next month up to
    /// the end of the last row.
    pub fn build(year: i32, month: u32, week_start: WeekStart) -> (res: Self)
        requires
            grid_in_range(year as int, month as int, week_start),
        ensures
            res.year == year,
            res.month == month,
            res.is_layout(week_start),
    {
        let ghost y = year as int;
        let ghost m = month as int;
        let ghost lead = leading_days(y, m, week_start);
        let ghost len_s = spec_days_in_month(y, m);
        proof {
            lemma_week_rows_bounds(y, m, week_start);
        }
        let first = naive_from_ymd(year, month, 1).unwrap();
        let len = days_in_month(year, month);
        let last = naive_from_ymd(year, month, len).unwrap();
        let start_col = week_start.column_for(weekday_of(first)) as usize;
        assert(start_col == lead);
        proof {
            lemma_valid_in_range(first);
        }

        let mut cells: Vec<DayCell> = Vec::new();

        let mut k: usize = 0;
        while k < start_col
            invariant
                k <= start_col,
                y == year,
                m == month,
                day_number_in_range(first.day_number()),
                start_col == lead,
                0 <= lead < 7,
                first == month_first(y, m),
                first.valid(),
                grid_in_range(y, m, week_start),
                lead == leading_days(y, m, week_start),
                len_s == spec_days_in_month(y, m),
                cells@.len() == k,
                forall|i: int| 0 <= i < k ==> #[trigger] cell_spec(cells@[i], y, m, week_start, i),
            decreases start_col - k,
        {
            let back = (start_col - k) as i32;
            let date = shift_date(first, -back).unwrap();
            cells.push(DayCell { date, day: date.day, in_month: false });
            k += 1;
        }

        let mut day: u32 = 1;
        while day <= len
            invariant
                1 <= day <= len + 1,
                y == year,
                m == month,
                len == len_s,
                28 <= len <= 31,
                start_col == lead,
                first == month_first(y, m),
                grid_in_range(y, m, week_start),
                lead == leading_days(y, m, week_start),
                len_s == spec_days_in_month(y, m),
                cells@.len() == start_col + day - 1,
                forall|i: int| 0 <= i < cells@.len() ==> #[trigger] cell_spec(cells@[i], y, m, week_start, i),
            decreases len + 1 - day,
        {
            let date = naive_from_ymd(year, month, day).unwrap();
            cells.push(DayCell { date, day, in_month: true });
            proof {
                let i = cells@.len() - 1;
                assert(cell_spec(cells@[i], y, m, week_start, i));
            }
            day += 1;
        }

        proof {
            lemma_valid_in_range(last);
            lemma_month_end_successor(y, m);
        }
        let mut tail = shift_date(last, 1).unwrap();
        while cells.len() % 7 != 0
            invariant
                cells@.len() >= lead + len_s,
                cells@.len() <= 7 * week_rows(y, m, week_start),
                last == month_last(y, m),
                tail.is_shift_of(last, cells@.len() - lead - len_s + 1),
                grid_in_range(y, m, week_start),
                lead == leading_days(y, m, week_start),
                len_s == spec_days_in_month(y, m),
                start_col == lead,
                0 <= lead < 7,
                28 <= len_s <= 31,
                forall|i: int| 0 <= i < cells@.len() ==> #[trigger] cell_spec(cells@[i], y, m, week_start, i),
            decreases 7 * week_rows(y, m, week_start) - cells@.len(),
        {
            cells.push(DayCell { date: tail, day: tail.day, in_month: false });
            proof {
                let i = cells@.len() - 1;
                lemma_month_end_successor(y, m);
                assert(cell_spec(cells@[i], y, m, week_start, i));
            }
            tail = shift_date(tail, 1).unwrap();
        }
        assert(cells@.len() == 7 * week_rows(y, m, week_start));

        let mut weeks: Vec<[DayCell; 7]> = Vec::new();
        let mut row: usize = 0;
        let rows = cells.len() / 7;
        while row < rows
            invariant
                rows == week_rows(y, m, week_start),
                cells@.len() == 7 * rows,
                row <= rows,
                weeks@.len() == row,
                forall|r: int, j: int| 0 <= r < row && 0 <= j < 7 ==> #[trigger] weeks@[r][j] == cells@[7 * r + j],
            decreases rows - row,
        {
            let w = row_of(&cells, 7 * row);
            weeks.push(w);
            row += 1;
        }
        let res = MonthGrid { year, month, weeks };
        assert forall|i: int| 0 <= i < res.cell_count() implies #[trigger] cell_spec(
            res.cell(i),
            y,
            m,
            week_start,
            i,
        ) by {
            assert(res.cell(i) == weeks@[i / 7][i % 7]);
            assert(weeks@[i / 7][i % 7] == cells@[7 * (i / 7) + i % 7]);
        }
        res
    }

    /// Number of week rows.
    pub fn week_count(&self) -> (res: usize)
        ensures
            res == self.weeks@.len(),
    {
        self.weeks.len()
    }
}


/// Index of the first Thursday of `week` at or after `j`; the first cell when none is.
pub open spec fn thursday_from(week: Seq<DayCell>, j: int) -> int
    decreases week.len() - j,
{
    if j >= week.len() {
        0
    } else if week[j].date.weekday_index() == 3 {
        j
    } else {
        thursday_from(week, j + 1)
    }
}

/// ISO week number that chrono gives the row's first Thursday (or its first
/// cell when it has none).
pub open spec fn row_iso_week(week: Seq<DayCell>) -> int {
    let d = week[thursday_from(week, 0)].date;
    chrono_iso_week(d.year as int, d.month as int, d.day as int)
}

/// ISO week number for a grid row (week of the row's Thursday, per ISO-8601).
pub fn iso_week_number_for_row(week: &[DayCell; 7]) -> (res: u32)
    requires
        forall|j: int| 0 <= j < 7 ==> (#[trigger] week@[j]).date.valid(),
    ensures
        res == row_iso_week(week@),
        week@[thursday_from(week@, 0)].date.weekday_index() == 3 ==> res
            == (week@[thursday_from(week@, 0)].date.ordinal() - 1) / 7 + 1,
{
    let mut j: usize = 0;
    while j < 7
        invariant
            j <= 7,
            week@.len() == 7,
            forall|k: int| 0 <= k < 7 ==> (#[trigger] week@[k]).date.valid(),
            thursday_from(week@, 0) == thursday_from(week@, j as int),
        decreases 7 - j,
    {
        let cell = week[j];
        if weekday_of(cell.date).num_days_from_monday() == 3 {
            return iso_week_of(cell.date);
        }
        j += 1;
    }
    iso_week_of(week[0].date)
}

/// A row of seven consecutive days has one Thursday, and its ISO week number is
/// the count of weeks of that Thursday's year up to it.
pub proof fn lemma_row_iso_week(g: MonthGrid, start: WeekStart, r: int)
    requires
        g.is_layout(start),
        0 <= r < g.weeks@.len(),
    ensures
        ({
            let t = thursday_from(g.weeks@[r]@, 0);
            &&& 0 <= t < 7
            &&& g.weeks@[r]@[t].date.weekday_index() == 3
            &&& g.weeks@[r]@[t].date.valid()
            &&& row_iso_week(g.weeks@[r]@) == chrono_iso_week(
                g.weeks@[r]@[t].date.year as int,
                g.weeks@[r]@[t].date.month as int,
                g.weeks@[r]@[t].date.day as int,
            )
        }),
{
    let w = g.weeks@[r]@;
    // the column holding Thursday
    let c = (3 - start.index()) % 7;
    assert forall|j: int| 0 <= j < 7 implies #[trigger] w[j] == g.cell(7 * r + j) by {
        assert((7 * r + j) / 7 == r);
        assert((7 * r + j) % 7 == j);
    }
    assert forall|j: int| 0 <= j < 7 implies (#[trigger] w[j]).date.weekday_index() == (start.index() + j) % 7 by {
        lemma_layout_columns(g, start, 7 * r + j);
        assert((7 * r + j) % 7 == j);
    }
    assert(w[c].date.weekday_index() == 3);
    lemma_thursday_from(w, 0, c);
    assert(cell_spec(g.cell(7 * r + thursday_from(w, 0)), g.year as int, g.month as int, start, 7 * r + thursday_from(w, 0)));
}

proof fn lemma_thursday_from(w: Seq<DayCell>, j: int, c: int)
    requires
        0 <= j <= c < w.len(),
        w[c].date.weekday_index() == 3,
    ensures
        j <= thursday_from(w, j) <= c,
        w[thursday_from(w, j)].date.weekday_index() == 3,
    decreases c - j,
{
    if w[j].date.weekday_index() != 3 {
        lemma_thursday_from(w, j + 1, c);
    }
}

impl MonthGrid {
    /// ISO week number of every row.
    pub fn iso_week_numbers(&self) -> (res: Vec<u32>)
        requires
            forall|i: int| 0 <= i < self.cell_count() ==> (#[trigger] self.cell(i)).date.valid(),
        ensures
            res@.len() == self.weeks@.len(),
            forall|r: int| 0 <= r < res@.len() ==> #[trigger] res@[r] == row_iso_week(self.weeks@[r]@),
            forall|r: int|
                0 <= r < res@.len() && self.weeks@[r]@[thursday_from(self.weeks@[r]@, 0)].date.weekday_index()
                    == 3 ==> #[trigger] res@[r] == (self.weeks@[r]@[thursday_from(
                    self.weeks@[r]@,
                    0,
                )].date.ordinal() - 1) / 7 + 1,
    {
        let mut res: Vec<u32> = Vec::new();
        let mut r: usize = 0;
        while r < self.weeks.len()
            invariant
                r <= self.weeks@.len(),
                res@.len() == r,
                forall|i: int| 0 <= i < self.cell_count() ==> (#[trigger] self.cell(i)).date.valid(),
                forall|q: int| 0 <= q < r ==> #[trigger] res@[q] == row_iso_week(self.weeks@[q]@),
                forall|q: int|
                    0 <= q < r && self.weeks@[q]@[thursday_from(self.weeks@[q]@, 0)].date.weekday_index()
                        == 3 ==> #[trigger] res@[q] == (self.weeks@[q]@[thursday_from(
                        self.weeks@[q]@,
                        0,
                    )].date.ordinal() - 1) / 7 + 1,
            decreases self.weeks@.len() - r,
        {
            assert forall|j: int| 0 <= j < 7 implies (#[trigger] self.weeks@[r as int]@[j]).date.valid() by {
                assert(self.cell(7 * r + j) == self.weeks@[r as int]@[j]) by {
                    assert((7 * r + j) / 7 == r);
                    assert((7 * r + j) % 7 == j);
                }
            }
            res.push(iso_week_number_for_row(&self.weeks[r]));
            r += 1;
        }
        res
    }
}

/// Every cell of a laid-out grid holds a valid date.
pub proof fn lemma_layout_valid(g: MonthGrid, start: WeekStart)
    requires
        g.is_layout(start),
    ensures
        forall|i: int| 0 <= i < g.cell_count() ==> (#[trigger] g.cell(i)).date.valid(),
{
    assert forall|i: int| 0 <= i < g.cell_count() implies (#[trigger] g.cell(i)).date.valid() by {
        assert(cell_spec(g.cell(i), g.year as int, g.month as int, start, i));
    }
}

/// The twelve month grids of `year`.
pub fn build_year_grids(year: i32, week_start: WeekStart) -> (res: Vec<MonthGrid>)
    requires
        forall|m: int| 1 <= m <= 12 ==> #[trigger] grid_in_range(year as int, m, week_start),
    ensures
        res@.len() == 12,
        forall|i: int| 0 <= i < 12 ==> (#[trigger] res@[i]).year == year && res@[i].month == i + 1
            && res@[i].is_layout(week_start),
{
    let mut res: Vec<MonthGrid> = Vec::new();
    let mut month: u32 = 1;
    while month <= 12
        invariant
            1 <= month <= 13,
            res@.len() == month - 1,
            forall|m: int| 1 <= m <= 12 ==> #[trigger] grid_in_range(year as int, m, week_start),
            forall|i: int| 0 <= i < month - 1 ==> (#[trigger] res@[i]).year == year && res@[i].month == i + 1
                && res@[i].is_layout(week_start),
        decreases 13 - month,
    {
        res.push(MonthGrid::build(year, month, week_start));
        month += 1;
    }
    res
}


/// The grid of the last supported month cannot be laid out: the day after its
/// last cell lies beyond the supported range.
pub proof fn lemma_last_month_does_not_fit(start: WeekStart)
    ensures
        !grid_in_range(MAX_YEAR as int, 12, start),
{
    lemma_range_bounds();
    lemma_week_rows_bounds(MAX_YEAR as int, 12, start);
    assert(month_last(MAX_YEAR as int, 12) == max_date());
}

/// Whether the grid of `month` of `year` can be laid out under `week_start`:
/// the month exists and every day the grid touches lies in the supported range.
pub fn grid_fits(year: i32, month: u32, week_start: WeekStart) -> (res: bool)
    ensures
        res == grid_in_range(year as int, month as int, week_start),
{
    if !(MIN_YEAR <= year && year <= MAX_YEAR && 1 <= month && month <= 12) {
        return false;
    }
    if year == MAX_YEAR && month == 12 {
        proof {
            lemma_last_month_does_not_fit(week_start);
        }
        return false;
    }
    proof {
        lemma_week_rows_bounds(year as int, month as int, week_start);
    }
    let first = naive_from_ymd(year, month, 1).unwrap();
    let lead = week_start.column_for(weekday_of(first));
    let len = days_in_month(year, month);
    let last = naive_from_ymd(year, month, len).unwrap();
    let trailing = 7 * ((lead + len + 6) / 7) - lead - len;
    assert(lead == leading_days(year as int, month as int, week_start));
    assert(trailing == trailing_days(year as int, month as int, week_start));
    let before = shift_date(first, -(lead as i32));
    let after = shift_date(last, (trailing + 1) as i32);
    before.is_some() && after.is_some()
}

/// The grids of the months of `year` that can be laid out under `week_start`,
/// January first; `None` for a month that cannot.
pub fn year_grids(year: i32, week_start: WeekStart) -> (res: Vec<Option<MonthGrid>>)
    ensures
        res@.len() == 12,
        forall|i: int| 0 <= i < 12 ==> ((#[trigger] res@[i]) is Some <==> grid_in_range(year as int, i + 1, week_start)),
        forall|i: int| 0 <= i < 12 ==> (#[trigger] res@[i] matches Some(g) ==> g.year == year && g.month == i + 1
            && g.is_layout(week_start)),
{
    let mut res: Vec<Option<MonthGrid>> = Vec::new();
    let mut month: u32 = 1;
    while month <= 12
        invariant
            1 <= month <= 13,
            res@.len() == month - 1,
            forall|i: int| 0 <= i < month - 1 ==> ((#[trigger] res@[i]) is Some <==> grid_in_range(year as int, i + 1, week_start)),
            forall|i: int| 0 <= i < month - 1 ==> (#[trigger] res@[i] matches Some(g) ==> g.year == year && g.month == i + 1
                && g.is_layout(week_start)),
        decreases 13 - month,
    {
        if grid_fits(year, month, week_start) {
            res.push(Some(MonthGrid::build(year, month, week_start)));
        } else {
            res.push(None);
        }
        month += 1;
    }
    res
}

} // verus!

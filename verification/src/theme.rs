//! Theme colors: `#RRGGBB` / `#RRGGBBAA` strings resolved into colors.

use vstd::prelude::*;
use vstd::string::StrSliceExecFns;
use crate::error::Error;
use crate::view::min_int;
use crate::paths::{join, is_absolute, parent, path_join, path_is_absolute, path_parent};

verus! {

/// An RGB terminal color.
#[derive(Clone, Copy, Debug, PartialEq, Eq, Hash, Structural)]
pub struct Color {
    pub r: u8,
    pub g: u8,
    pub b: u8,
}

impl Color {
    /// The color of the low 24 bits of `u` (`0x..RRGGBB`); the top byte is ignored.
    pub fn from_u32(u: u32) -> (res: Color)
        ensures
            res.r == (u / 0x10000) % 256,
            res.g == (u / 0x100) % 256,
            res.b == u % 256,
    {
        let r = ((u >> 16) & 0xff) as u8;
        let g = ((u >> 8) & 0xff) as u8;
        let b = (u & 0xff) as u8;
        assert(((u >> 16) & 0xff) == (u / 0x10000) % 256) by (bit_vector);
        assert(((u >> 8) & 0xff) == (u / 0x100) % 256) by (bit_vector);
        assert((u & 0xff) == u % 256) by (bit_vector);
        Color { r, g, b }
    }
}

/// A theme color: red, green, blue and an alpha byte; alpha 0 is fully
/// transparent, where the terminal's own color shows through.
#[derive(Clone, Copy, Debug, PartialEq, Eq, Hash, Structural)]
pub struct ThemeColor {
    pub r: u8,
    pub g: u8,
    pub b: u8,
    pub a: u8,
}

impl ThemeColor {
    /// The terminal color of its red, green and blue bytes.
    pub open spec fn rgb(self) -> Color {
        Color { r: self.r, g: self.g, b: self.b }
    }

    /// The terminal color of its red, green and blue bytes.
    pub fn to_rgb(&self) -> (res: Color)
        ensures
            res == self.rgb(),
    {
        Color { r: self.r, g: self.g, b: self.b }
    }

    /// Alpha 0: the color is not painted.
    pub fn is_transparent(&self) -> (res: bool)
        ensures
            res == (self.a == 0),
    {
        self.a == 0
    }
}

/// Whether a character has the Unicode `White_Space` property (PropList.txt).
pub open spec fn char_is_whitespace(c: char) -> bool {
    let u = c as u32;
    ||| 0x09 <= u <= 0x0D
    ||| u == 0x20
    ||| u == 0x85
    ||| u == 0xA0
    ||| u == 0x1680
    ||| 0x2000 <= u <= 0x200A
    ||| u == 0x2028
    ||| u == 0x2029
    ||| u == 0x202F
    ||| u == 0x205F
    ||| u == 0x3000
}

/// Whether `c` has the Unicode `White_Space` property, as `char::is_whitespace` tells.
fn is_whitespace(c: char) -> (res: bool)
    ensures
        res == char_is_whitespace(c),
{
    let u = c as u32;
    (0x09 <= u && u <= 0x0D) || u == 0x20 || u == 0x85 || u == 0xA0 || u == 0x1680 || (0x2000 <= u
        && u <= 0x200A) || u == 0x2028 || u == 0x2029 || u == 0x202F || u == 0x205F || u == 0x3000
}

/// Bytes of `c` in UTF-8.
pub open spec fn utf8_width(c: char) -> int {
    if (c as u32) < 0x80 {
        1
    } else if (c as u32) < 0x800 {
        2
    } else if (c as u32) < 0x10000 {
        3
    } else {
        4
    }
}

/// Bytes of `s` in UTF-8.
pub open spec fn utf8_len(s: Seq<char>) -> int
    decreases s.len(),
{
    if s.len() == 0 {
        0
    } else {
        utf8_len(s.drop_last()) + utf8_width(s.last())
    }
}

/// First index at or after `i` that is not whitespace (or the end).
pub open spec fn skip_whitespace(s: Seq<char>, i: int) -> int
    decreases s.len() - i,
{
    if i >= s.len() {
        s.len() as int
    } else if char_is_whitespace(s[i]) {
        skip_whitespace(s, i + 1)
    } else {
        i
    }
}

/// End of `s[lo..j]` without its trailing whitespace.
pub open spec fn trim_end(s: Seq<char>, lo: int, j: int) -> int
    decreases j - lo,
{
    if j <= lo {
        lo
    } else if char_is_whitespace(s[j - 1]) {
        trim_end(s, lo, j - 1)
    } else {
        j
    }
}

/// First index at or after `i` (below `end`) that is not `#`.
pub open spec fn skip_hashes(s: Seq<char>, i: int, end: int) -> int
    decreases end - i,
{
    if i >= end {
        end
    } else if s[i] == '#' {
        skip_hashes(s, i + 1, end)
    } else {
        i
    }
}

/// Value of an ASCII hexadecimal digit.
pub open spec fn hex_digit_value(c: char) -> Option<int> {
    if '0' <= c <= '9' {
        Some(c as int - '0' as int)
    } else if 'a' <= c <= 'f' {
        Some(c as int - 'a' as int + 10)
    } else if 'A' <= c <= 'F' {
        Some(c as int - 'A' as int + 10)
    } else {
        None
    }
}

/// A byte written as exactly two hexadecimal digits.
pub open spec fn hex_byte(s: Seq<char>) -> Option<u8> {
    if s.len() == 2 && hex_digit_value(s[0]) is Some && hex_digit_value(s[1]) is Some {
        Some((16 * hex_digit_value(s[0])->0 + hex_digit_value(s[1])->0) as u8)
    } else {
        None
    }
}

/// What parsing the color pairs of `hex` from character `i` on gives.
pub enum PairScan {
    /// A pair boundary falls inside a character: slicing panics.
    Split,
    /// The pair `hex[start..end]` is not a hexadecimal byte.
    Bad { start: int, end: int },
    /// All pairs parsed.
    Done(Seq<u8>),
}

/// Scans `count` two-byte pairs of `hex` starting at character `i`.
pub open spec fn scan_pairs(hex: Seq<char>, i: int, count: nat) -> PairScan
    decreases count,
{
    if count == 0 {
        PairScan::Done(Seq::empty())
    } else {
        let w0 = utf8_width(hex[i]);
        let end = if w0 == 1 && utf8_width(hex[i + 1]) == 1 {
            i + 2
        } else if w0 == 2 {
            i + 1
        } else {
            -1
        };
        if end < 0 {
            PairScan::Split
        } else {
            match hex_byte(hex.subrange(i, end)) {
                None => PairScan::Bad { start: i, end },
                Some(b) => match scan_pairs(hex, end, (count - 1) as nat) {
                    PairScan::Done(rest) => PairScan::Done(seq![b].add(rest)),
                    other => other,
                },
            }
        }
    }
}

/// Start of the hexadecimal part of a color string: after leading whitespace and `#`s.
pub open spec fn color_hex_start(v: Seq<char>) -> int {
    skip_hashes(v, skip_whitespace(v, 0), color_hex_end(v))
}

/// End of the hexadecimal part of a color string: before trailing whitespace.
pub open spec fn color_hex_end(v: Seq<char>) -> int {
    trim_end(v, skip_whitespace(v, 0), v.len() as int)
}

/// The hexadecimal part of a color string.
pub open spec fn color_hex(v: Seq<char>) -> Seq<char> {
    v.subrange(color_hex_start(v), color_hex_end(v))
}

/// What `parse_color` does with `v`.
pub enum ColorParse {
    /// A byte slice would split a character.
    Panics,
    /// The hexadecimal part is not six or eight bytes long.
    BadLength,
    /// The pair `v[start..end]` is not a hexadecimal byte.
    BadDigit { start: int, end: int },
    /// The color; alpha `FF` when the string gives none.
    Parsed(ThemeColor),
}

pub open spec fn spec_parse_color(v: Seq<char>) -> ColorParse {
    let hex = color_hex(v);
    let n = utf8_len(hex);
    if n != 6 && n != 8 {
        ColorParse::BadLength
    } else {
        match scan_pairs(hex, 0, (n / 2) as nat) {
            PairScan::Split => ColorParse::Panics,
            PairScan::Bad { start, end } => ColorParse::BadDigit {
                start: color_hex_start(v) + start,
                end: color_hex_start(v) + end,
            },
            PairScan::Done(bytes) => ColorParse::Parsed(
                ThemeColor { r: bytes[0], g: bytes[1], b: bytes[2], a: if n == 8 { bytes[3] } else { 255 } },
            ),
        }
    }
}


/// Bytes before character `k`, plus the bytes from `k` on, make all bytes.
pub proof fn lemma_utf8_len_split(s: Seq<char>, k: int)
    requires
        0 <= k <= s.len(),
    ensures
        utf8_len(s) == utf8_len(s.subrange(0, k)) + utf8_len(s.subrange(k, s.len() as int)),
    decreases s.len() - k,
{
    if k < s.len() {
        lemma_utf8_len_split(s, k + 1);
        let tail = s.subrange(k, s.len() as int);
        let tail1 = s.subrange(k + 1, s.len() as int);
        lemma_utf8_len_first(tail);
        assert(tail.drop_first() =~= tail1);
        assert(s.subrange(0, k + 1).drop_last() =~= s.subrange(0, k));
    } else {
        assert(s.subrange(0, k) =~= s);
        assert(s.subrange(k, s.len() as int).len() == 0);
    }
}

/// The first character's bytes, then the rest.
proof fn lemma_utf8_len_first(s: Seq<char>)
    requires
        s.len() > 0,
    ensures
        utf8_len(s) == utf8_width(s[0]) + utf8_len(s.drop_first()),
    decreases s.len(),
{
    if s.len() > 1 {
        lemma_utf8_len_first(s.drop_last());
        assert(s.drop_last().drop_first() =~= s.drop_first().drop_last());
        assert(s.drop_first().last() == s.last());
        assert(s.drop_last()[0] == s[0]);
        assert(utf8_len(s.drop_first()) == utf8_len(s.drop_first().drop_last()) + utf8_width(s.drop_first().last()));
    } else {
        assert(s.drop_last().len() == 0);
        assert(s.drop_first().len() == 0);
        assert(utf8_len(s.drop_last()) == 0);
        assert(utf8_len(s.drop_first()) == 0);
        assert(s.last() == s[0]);
    }
}

/// Bytes of a character in UTF-8.
fn char_width(c: char) -> (res: usize)
    ensures
        res == utf8_width(c),
{
    let code = c as u32;
    if code < 0x80 {
        1
    } else if code < 0x800 {
        2
    } else if code < 0x10000 {
        3
    } else {
        4
    }
}

/// Value of an ASCII hexadecimal digit.
fn hex_digit(c: char) -> (res: Option<u32>)
    ensures
        match hex_digit_value(c) {
            Some(v) => res == Some(v as u32),
            None => res is None,
        },
{
    if '0' <= c && c <= '9' {
        Some(c as u32 - '0' as u32)
    } else if 'a' <= c && c <= 'f' {
        Some(c as u32 - 'a' as u32 + 10)
    } else if 'A' <= c && c <= 'F' {
        Some(c as u32 - 'A' as u32 + 10)
    } else {
        None
    }
}

/// Parses a byte written as exactly two hexadecimal digits; the error names the pair.
pub fn parse_hex_byte(pair: &str) -> (res: Result<u8, Error>)
    ensures
        match hex_byte(pair@) {
            Some(b) => res == Ok::<u8, Error>(b),
            None => res matches Err(Error::InvalidColor { value, reason }) && value@ == pair@
                && reason@ == "invalid hex digit"@,
        },
{
    if pair.unicode_len() == 2 {
        if let (Some(high), Some(low)) = (hex_digit(pair.get_char(0)), hex_digit(pair.get_char(1))) {
            return Ok((high * 16 + low) as u8);
        }
    }
    Err(Error::InvalidColor { value: pair.to_owned(), reason: "invalid hex digit".to_owned() })
}

/// Results of the pairs already parsed, put before the scan of the rest.
pub open spec fn after_bytes(done: Seq<u8>, rest: PairScan) -> PairScan {
    match rest {
        PairScan::Done(r) => PairScan::Done(done + r),
        other => other,
    }
}

/// Outcome of reading a color string, as plain values.
pub enum ColorScan {
    Panics,
    BadLength,
    BadDigit { start: usize, end: usize },
    Parsed(ThemeColor),
}

/// The scan outcome describes `p`.
pub open spec fn scan_matches(scan: ColorScan, p: ColorParse) -> bool {
    match (scan, p) {
        (ColorScan::Panics, ColorParse::Panics) => true,
        (ColorScan::BadLength, ColorParse::BadLength) => true,
        (ColorScan::BadDigit { start, end }, ColorParse::BadDigit { start: s, end: e }) => start == s
            && end == e,
        (ColorScan::Parsed(c), ColorParse::Parsed(d)) => c == d,
        _ => false,
    }
}

/// Reads a color string the way `parse_color` does and reports what happens,
/// including whether slicing the hexadecimal part would split a character.
pub fn scan_color(value: &str) -> (res: ColorScan)
    ensures
        scan_matches(res, spec_parse_color(value@)),
        res matches ColorScan::BadDigit { start, end } ==> start <= end <= value@.len(),
{
    let ghost v = value@;
    let n = value.unicode_len();

    // trim leading whitespace
    let mut s: usize = 0;
    while s < n && is_whitespace(value.get_char(s))
        invariant
            s <= n,
            n == v.len(),
            v == value@,
            skip_whitespace(v, 0) == skip_whitespace(v, s as int),
        decreases n - s,
    {
        s += 1;
    }
    // trim trailing whitespace
    let mut e: usize = n;
    while e > s && is_whitespace(value.get_char(e - 1))
        invariant
            s <= e <= n,
            n == v.len(),
            v == value@,
            s == skip_whitespace(v, 0),
            trim_end(v, s as int, n as int) == trim_end(v, s as int, e as int),
        decreases e,
    {
        e -= 1;
    }
    // strip leading '#'
    let mut h: usize = s;
    while h < e && value.get_char(h) == '#'
        invariant
            s <= h <= e <= n,
            n == v.len(),
            v == value@,
            e == color_hex_end(v),
            skip_hashes(v, s as int, e as int) == skip_hashes(v, h as int, e as int),
        decreases e - h,
    {
        h += 1;
    }
    assert(h == color_hex_start(v));
    let ghost hex = color_hex(v);
    assert(hex =~= v.subrange(h as int, e as int));

    // byte length of the hexadecimal part, counted up to 9
    let mut bytes_len: usize = 0;
    let mut i: usize = h;
    while i < e
        invariant
            h <= i <= e <= n,
            n == v.len(),
            v == value@,
            hex == v.subrange(h as int, e as int),
            bytes_len == min_int(utf8_len(hex.subrange(0, i - h)), 9),
        decreases e - i,
    {
        let w = char_width(value.get_char(i));
        let ghost pre = hex.subrange(0, i - h);
        let ghost next = hex.subrange(0, i + 1 - h);
        assert(next.drop_last() =~= pre);
        bytes_len = if bytes_len + w > 9 { 9 } else { bytes_len + w };
        i += 1;
    }
    assert(hex.subrange(0, e - h) =~= hex);
    if bytes_len != 6 && bytes_len != 8 {
        return ColorScan::BadLength;
    }

    let count = bytes_len / 2;
    let mut parsed: Vec<u8> = Vec::new();
    let mut k: usize = 0;
    let mut j: usize = 0;
    while k < count
        invariant
            count == bytes_len / 2,
            bytes_len == utf8_len(hex),
            bytes_len == 6 || bytes_len == 8,
            k <= count,
            j <= hex.len(),
            h + hex.len() == e,
            e <= n,
            n == v.len(),
            v == value@,
            hex == v.subrange(h as int, e as int),
            hex == color_hex(v),
            h == color_hex_start(v),
            parsed@.len() == k,
            utf8_len(hex.subrange(0, j as int)) == 2 * k,
            scan_pairs(hex, 0, count as nat) == after_bytes(parsed@, scan_pairs(hex, j as int, (count - k) as nat)),
        decreases count - k,
    {
        proof {
            lemma_utf8_len_split(hex, j as int);
            let rest = hex.subrange(j as int, hex.len() as int);
            assert(utf8_len(rest) == 2 * (count - k));
            assert(rest.len() > 0);
            lemma_utf8_len_first(rest);
            assert(rest[0] == hex[j as int]);
            if utf8_width(hex[j as int]) == 1 {
                assert(rest.drop_first().len() > 0);
                assert(rest.drop_first()[0] == hex[j + 1]);
            }
        }
        let w0 = char_width(value.get_char(h + j));
        let end = if w0 == 2 {
            j + 1
        } else if w0 == 1 && char_width(value.get_char(h + j + 1)) == 1 {
            j + 2
        } else {
            assert(scan_pairs(hex, j as int, (count - k) as nat) == PairScan::Split);
            return ColorScan::Panics;
        };
        let pair = value.substring_char(h + j, h + end);
        assert(pair@ =~= hex.subrange(j as int, end as int));
        let byte = parse_hex_byte(pair);
        match byte {
            Ok(b) => {
                proof {
                    let old_parsed = parsed@;
                    assert(old_parsed.push(b) =~= old_parsed + seq![b]);
                    assert(forall|r: Seq<u8>| old_parsed + (seq![b] + r) =~= (old_parsed + seq![b]) + r);
                    lemma_utf8_len_split(hex.subrange(0, end as int), j as int);
                    assert(hex.subrange(0, end as int).subrange(0, j as int) =~= hex.subrange(0, j as int));
                    assert(hex.subrange(0, end as int).subrange(j as int, end as int) =~= hex.subrange(j as int, end as int));
                    let pr = hex.subrange(j as int, end as int);
                    lemma_utf8_len_first(pr);
                    if end == j + 2 {
                        lemma_utf8_len_first(pr.drop_first());
                        assert(pr.drop_first().drop_first().len() == 0);
                    } else {
                        assert(pr.drop_first().len() == 0);
                    }
                }
                parsed.push(b);
            },
            Err(_) => {
                return ColorScan::BadDigit { start: h + j, end: h + end };
            },
        }
        j = end;
        k += 1;
    }
    proof {
        assert(scan_pairs(hex, j as int, 0) == PairScan::Done(Seq::empty()));
        assert(parsed@ + Seq::<u8>::empty() =~= parsed@);
    }
    let r = parsed[0];
    let g = parsed[1];
    let b = parsed[2];
    let a = if count == 4 { parsed[3] } else { 255 };
    ColorScan::Parsed(ThemeColor { r, g, b, a })
}

/// Parses `#RRGGBB` or `#RRGGBBAA` (surrounding whitespace and any number of
/// leading `#` are ignored); without `AA` the color is opaque (alpha `FF`).
pub fn parse_color(value: &str) -> (res: Result<ThemeColor, Error>)
    requires
        !(spec_parse_color(value@) is Panics),
    ensures
        color_result(res, value@),
{
    match scan_color(value) {
        ColorScan::Parsed(c) => Ok(c),
        ColorScan::BadDigit { start, end } => Err(
            Error::InvalidColor {
                value: value.substring_char(start, end).to_owned(),
                reason: "invalid hex digit".to_owned(),
            },
        ),
        // the remaining outcome is a wrong length (splitting is excluded above)
        _ => Err(
            Error::InvalidColor {
                value: value.to_owned(),
                reason: "expected #RRGGBB or #RRGGBBAA".to_owned(),
            },
        ),
    }
}

/// `res` is what parsing the color string `v` gives.
pub open spec fn color_result(res: Result<ThemeColor, Error>, v: Seq<char>) -> bool {
    match spec_parse_color(v) {
        ColorParse::Parsed(c) => res == Ok::<ThemeColor, Error>(c),
        ColorParse::BadLength => res matches Err(Error::InvalidColor { value: e, reason })
            && e@ == v && reason@ == "expected #RRGGBB or #RRGGBBAA"@,
        ColorParse::BadDigit { start, end } => res matches Err(Error::InvalidColor { value: e, reason })
            && e@ == v.subrange(start, end) && reason@ == "invalid hex digit"@,
        ColorParse::Panics => false,
    }
}


// ---------------------------------------------------------------------------
// Theme files.
// ---------------------------------------------------------------------------

/// `[base]` colors of a theme file.
#[derive(Clone, Debug)]
pub struct Base {
    pub background: Option<String>,
    pub foreground: Option<String>,
    pub border: Option<String>,
}

/// `[calendar]` colors of a theme file.
#[derive(Clone, Debug)]
pub struct Calendar {
    pub header: Option<String>,
    pub status: Option<String>,
    pub today: Option<String>,
    pub selected: Option<String>,
    pub weekend: Option<String>,
    pub other_month: Option<String>,
}

/// A theme file.
#[derive(Clone, Debug)]
pub struct Theme {
    pub base: Option<Base>,
    pub calendar: Option<Calendar>,
}

/// Resolved colors of every themed element.
#[derive(Clone, Copy, Debug, PartialEq, Eq, Structural)]
pub struct ThemeColors {
    pub background: ThemeColor,
    pub foreground: ThemeColor,
    pub border: ThemeColor,
    pub header: ThemeColor,
    pub status: ThemeColor,
    pub today: ThemeColor,
    pub selected: ThemeColor,
    pub weekend: ThemeColor,
    pub other_month: ThemeColor,
}

/// The built-in color strings, in the order background, foreground, border,
/// header, status, today, selected, weekend, other month.
pub open spec fn default_color_strs() -> Seq<Seq<char>> {
    seq![
        "#1e1e2eFF"@,
        "#cdd6f4FF"@,
        "#45475aFF"@,
        "#cba6f7FF"@,
        "#a6e3a1FF"@,
        "#f9e2afFF"@,
        "#89b4faFF"@,
        "#f38ba8FF"@,
        "#6c7086FF"@,
    ]
}

/// A string field holding `text`.
pub open spec fn field_holds(field: Option<String>, text: Seq<char>) -> bool {
    match field {
        Some(s) => s@ == text,
        None => false,
    }
}

/// The string of a field, or `default` when it is absent.
pub open spec fn field_str(field: Option<String>, default: Seq<char>) -> Seq<char> {
    match field {
        Some(s) => s@,
        None => default,
    }
}

impl Theme {
    /// The color strings the theme asks for, defaults filled in, in the order of
    /// `default_color_strs`.
    pub open spec fn color_strs(self) -> Seq<Seq<char>> {
        let d = default_color_strs();
        let b = self.base;
        let c = self.calendar;
        seq![
            match b { Some(b) => field_str(b.background, d[0]), None => d[0] },
            match b { Some(b) => field_str(b.foreground, d[1]), None => d[1] },
            match b { Some(b) => field_str(b.border, d[2]), None => d[2] },
            match c { Some(c) => field_str(c.header, d[3]), None => d[3] },
            match c { Some(c) => field_str(c.status, d[4]), None => d[4] },
            match c { Some(c) => field_str(c.today, d[5]), None => d[5] },
            match c { Some(c) => field_str(c.selected, d[6]), None => d[6] },
            match c { Some(c) => field_str(c.weekend, d[7]), None => d[7] },
            match c { Some(c) => field_str(c.other_month, d[8]), None => d[8] },
        ]
    }

    /// The built-in theme: both sections present, every color set to its
    /// built-in string.
    pub open spec fn is_builtin(self) -> bool {
        let d = default_color_strs();
        &&& match self.base {
            Some(b) => field_holds(b.background, d[0]) && field_holds(b.foreground, d[1]) && field_holds(
                b.border,
                d[2],
            ),
            None => false,
        }
        &&& match self.calendar {
            Some(c) => field_holds(c.header, d[3]) && field_holds(c.status, d[4]) && field_holds(c.today, d[5])
                && field_holds(c.selected, d[6]) && field_holds(c.weekend, d[7]) && field_holds(
                c.other_month,
                d[8],
            ),
            None => false,
        }
    }

    /// No color string makes `parse_color` split a character.
    pub open spec fn resolvable(self) -> bool {
        forall|i: int| 0 <= i < 9 ==> !(#[trigger] spec_parse_color(self.color_strs()[i]) is Panics)
    }
}

/// The parsed color of a string that parses.
pub open spec fn parsed_color(v: Seq<char>) -> ThemeColor {
    spec_parse_color(v)->Parsed_0
}

/// Colors built from nine parsed strings in the order of `default_color_strs`.
pub open spec fn colors_of(strs: Seq<Seq<char>>) -> ThemeColors {
    ThemeColors {
        background: parsed_color(strs[0]),
        foreground: parsed_color(strs[1]),
        border: parsed_color(strs[2]),
        header: parsed_color(strs[3]),
        status: parsed_color(strs[4]),
        today: parsed_color(strs[5]),
        selected: parsed_color(strs[6]),
        weekend: parsed_color(strs[7]),
        other_month: parsed_color(strs[8]),
    }
}

/// All nine color strings parse.
pub open spec fn all_colors_parse(strs: Seq<Seq<char>>) -> bool {
    forall|i: int| 0 <= i < 9 ==> #[trigger] spec_parse_color(strs[i]) is Parsed
}

/// What resolving the color strings `strs` gives: the colors when all parse,
/// else the error of the first string that does not.
pub open spec fn resolve_result(res: Result<ThemeColors, Error>, strs: Seq<Seq<char>>) -> bool {
    &&& (forall|i: int| 0 <= i < 9 ==> #[trigger] spec_parse_color(strs[i]) is Parsed) ==> res
        == Ok::<ThemeColors, Error>(colors_of(strs))
    &&& forall|i: int|
        0 <= i < 9 && !(spec_parse_color(strs[i]) is Parsed) && (forall|j: int|
            0 <= j < i ==> #[trigger] spec_parse_color(strs[j]) is Parsed) ==> match res {
            Err(e) => color_result(Err(e), #[trigger] strs[i]),
            Ok(_) => false,
        }
}

impl Default for Base {
    fn default() -> (res: Self)
        ensures
            res.background matches Some(s) && s@ == default_color_strs()[0],
            res.foreground matches Some(s) && s@ == default_color_strs()[1],
            res.border matches Some(s) && s@ == default_color_strs()[2],
    {
        Base {
            background: Some("#1e1e2eFF".to_owned()),
            foreground: Some("#cdd6f4FF".to_owned()),
            border: Some("#45475aFF".to_owned()),
        }
    }
}

impl Default for Calendar {
    fn default() -> (res: Self)
        ensures
            res.header matches Some(s) && s@ == default_color_strs()[3],
            res.status matches Some(s) && s@ == default_color_strs()[4],
            res.today matches Some(s) && s@ == default_color_strs()[5],
            res.selected matches Some(s) && s@ == default_color_strs()[6],
            res.weekend matches Some(s) && s@ == default_color_strs()[7],
            res.other_month matches Some(s) && s@ == default_color_strs()[8],
    {
        Calendar {
            header: Some("#cba6f7FF".to_owned()),
            status: Some("#a6e3a1FF".to_owned()),
            today: Some("#f9e2afFF".to_owned()),
            selected: Some("#89b4faFF".to_owned()),
            weekend: Some("#f38ba8FF".to_owned()),
            other_month: Some("#6c7086FF".to_owned()),
        }
    }
}

impl Default for Theme {
    fn default() -> (res: Self)
        ensures
            res.is_builtin(),
            res.color_strs() == default_color_strs(),
    {
        let res = Theme { base: Some(Base::default()), calendar: Some(Calendar::default()) };
        assert(res.color_strs() =~= default_color_strs());
        res
    }
}

/// The string of a field, or `default` when it is absent.
fn field_or<'a>(field: &'a Option<String>, default: &'a str) -> (res: &'a str)
    ensures
        res@ == field_str(*field, default@),
{
    match field {
        Some(s) => s.as_str(),
        None => default,
    }
}

impl Theme {
    /// The color strings, defaults filled in.
    fn color_str_array(&self) -> (res: [&str; 9])
        ensures
            forall|i: int| 0 <= i < 9 ==> (#[trigger] res@[i])@ == self.color_strs()[i],
    {
        let (background, foreground, border) = match &self.base {
            Some(b) => (
                field_or(&b.background, "#1e1e2eFF"),
                field_or(&b.foreground, "#cdd6f4FF"),
                field_or(&b.border, "#45475aFF"),
            ),
            None => ("#1e1e2eFF", "#cdd6f4FF", "#45475aFF"),
        };
        let (header, status, today, selected, weekend, other_month) = match &self.calendar {
            Some(c) => (
                field_or(&c.header, "#cba6f7FF"),
                field_or(&c.status, "#a6e3a1FF"),
                field_or(&c.today, "#f9e2afFF"),
                field_or(&c.selected, "#89b4faFF"),
                field_or(&c.weekend, "#f38ba8FF"),
                field_or(&c.other_month, "#6c7086FF"),
            ),
            None => ("#cba6f7FF", "#a6e3a1FF", "#f9e2afFF", "#89b4faFF", "#f38ba8FF", "#6c7086FF"),
        };
        [background, foreground, border, header, status, today, selected, weekend, other_month]
    }

    /// Whether resolving the theme completes (no color string would split a character).
    pub fn can_resolve(&self) -> (res: bool)
        ensures
            res == self.resolvable(),
    {
        let strs = self.color_str_array();
        let mut i: usize = 0;
        while i < 9
            invariant
                i <= 9,
                forall|k: int| 0 <= k < 9 ==> (#[trigger] strs@[k])@ == self.color_strs()[k],
                forall|k: int| 0 <= k < i ==> !(#[trigger] spec_parse_color(self.color_strs()[k]) is Panics),
            decreases 9 - i,
        {
            let scan = scan_color(strs[i]);
            if let ColorScan::Panics = scan {
                return false;
            }
            i += 1;
        }
        true
    }

    /// Parses every color, taking the built-in color for each absent field; the
    /// first malformed color is the error.
    pub fn resolve(&self) -> (res: Result<ThemeColors, Error>)
        requires
            self.resolvable(),
        ensures
            resolve_result(res, self.color_strs()),
    {
        let strs = self.color_str_array();
        let ghost cs = self.color_strs();
        let mut colors: Vec<ThemeColor> = Vec::new();
        let mut i: usize = 0;
        while i < 9
            invariant
                i <= 9,
                cs == self.color_strs(),
                self.resolvable(),
                forall|k: int| 0 <= k < 9 ==> (#[trigger] strs@[k])@ == cs[k],
                colors@.len() == i,
                forall|k: int| 0 <= k < i ==> #[trigger] spec_parse_color(cs[k]) is Parsed,
                forall|k: int| 0 <= k < i ==> #[trigger] colors@[k] == parsed_color(cs[k]),
            decreases 9 - i,
        {
            assert(!(spec_parse_color(cs[i as int]) is Panics));
            match parse_color(strs[i]) {
                Ok(c) => colors.push(c),
                Err(e) => {
                    assert(color_result(Err(e), cs[i as int]));
                    return Err(e);
                },
            }
            i += 1;
        }
        Ok(
            ThemeColors {
                background: colors[0],
                foreground: colors[1],
                border: colors[2],
                header: colors[3],
                status: colors[4],
                today: colors[5],
                selected: colors[6],
                weekend: colors[7],
                other_month: colors[8],
            },
        )
    }

    /// The theme that was loaded, or the built-in theme when loading failed.
    pub fn load_or_default(loaded: Result<Theme, Error>) -> (res: Theme)
        ensures
            match loaded {
                Ok(t) => res == t,
                Err(_) => res.is_builtin() && res.color_strs() == default_color_strs(),
            },
    {
        match loaded {
            Ok(theme) => theme,
            Err(_) => Theme::default(),
        }
    }
}


// ---------------------------------------------------------------------------
// Where the theme file is.
// ---------------------------------------------------------------------------

/// `themes` in the configuration directory.
pub fn themes_dir(config_dir: &str) -> (res: String)
    ensures
        res@ == path_join(config_dir@, "themes"@),
{
    join(config_dir, "themes")
}

/// Places looked at for the theme, in order: an absolute theme path alone;
/// otherwise next to the config file, in `themes` next to it, and in the
/// themes directory.
pub open spec fn spec_theme_candidates(config_path: Seq<char>, theme: Seq<char>, themes_dir: Seq<char>) -> Seq<
    Seq<char>,
> {
    if path_is_absolute(theme) {
        seq![theme]
    } else {
        match path_parent(config_path) {
            Some(p) => seq![
                path_join(p, theme),
                path_join(path_join(p, "themes"@), theme),
                path_join(themes_dir, theme),
            ],
            None => seq![path_join(themes_dir, theme)],
        }
    }
}

/// Candidate theme paths for the config file at `config_path` and the theme
/// name `theme`, most preferred first; the last one is used when none exists.
pub fn theme_candidates(config_path: &str, theme: &str, themes_dir: &str) -> (res: Vec<String>)
    ensures
        res@.len() == spec_theme_candidates(config_path@, theme@, themes_dir@).len(),
        forall|i: int| 0 <= i < res@.len() ==> (#[trigger] res@[i])@ == spec_theme_candidates(
            config_path@,
            theme@,
            themes_dir@,
        )[i],
{
    let mut res: Vec<String> = Vec::new();
    if is_absolute(theme) {
        res.push(theme.to_owned());
        return res;
    }
    if let Some(p) = parent(config_path) {
        res.push(join(p.as_str(), theme));
        let under = join(p.as_str(), "themes");
        res.push(join(under.as_str(), theme));
    }
    res.push(join(themes_dir, theme));
    res
}

/// First `i` in `from..n` with `present[i]`, or `n - 1`.
pub open spec fn first_present(present: Seq<bool>, from: int, n: int) -> int
    decreases n - from,
{
    if from >= n {
        n - 1
    } else if present[from] {
        from
    } else {
        first_present(present, from + 1, n)
    }
}

/// The theme path: the first candidate that exists as a file, else the last
/// candidate. `present[i]` tells whether `candidates[i]` is a file.
pub fn resolve_path(candidates: &Vec<String>, present: &Vec<bool>) -> (res: String)
    requires
        candidates@.len() > 0,
        present@.len() == candidates@.len(),
    ensures
        res@ == candidates@[first_present(present@, 0, candidates@.len() as int)]@,
{
    let n = candidates.len();
    let mut i: usize = 0;
    while i < n
        invariant
            i <= n,
            n == candidates@.len(),
            present@.len() == n,
            first_present(present@, 0, n as int) == first_present(present@, i as int, n as int),
        decreases n - i,
    {
        if present[i] {
            return candidates[i].clone();
        }
        i += 1;
    }
    candidates[n - 1].clone()
}


/// Byte `k` (0–3) of an eight-digit hexadecimal string.
pub open spec fn hex_pair_value(hex: Seq<char>, k: int) -> int {
    16 * hex_digit_value(hex[2 * k])->0 + hex_digit_value(hex[2 * k + 1])->0
}

/// A string of one-byte characters has one byte per character.
pub proof fn lemma_utf8_len_single_bytes(s: Seq<char>)
    requires
        forall|i: int| 0 <= i < s.len() ==> utf8_width(#[trigger] s[i]) == 1,
    ensures
        utf8_len(s) == s.len(),
    decreases s.len(),
{
    if s.len() > 0 {
        assert forall|i: int| 0 <= i < s.drop_last().len() implies utf8_width(#[trigger] s.drop_last()[i]) == 1 by {
            assert(s.drop_last()[i] == s[i]);
        }
        lemma_utf8_len_single_bytes(s.drop_last());
        assert(utf8_width(s[s.len() - 1]) == 1);
    }
}

/// `#` followed by eight hexadecimal digits parses to the color of its four
/// bytes, the last one being the alpha.
pub proof fn lemma_parse_hash_rrggbbaa(v: Seq<char>)
    requires
        v.len() == 9,
        v[0] == '#',
        forall|i: int| 1 <= i < 9 ==> (#[trigger] hex_digit_value(v[i])) is Some,
    ensures
        spec_parse_color(v) == ColorParse::Parsed(
            ThemeColor {
                r: hex_pair_value(v.subrange(1, 9), 0) as u8,
                g: hex_pair_value(v.subrange(1, 9), 1) as u8,
                b: hex_pair_value(v.subrange(1, 9), 2) as u8,
                a: hex_pair_value(v.subrange(1, 9), 3) as u8,
            },
        ),
{
    assert(!char_is_whitespace(v[0]));
    assert(hex_digit_value(v[8]) is Some);
    assert(!char_is_whitespace(v[8]));
    reveal_with_fuel(skip_whitespace, 2);
    reveal_with_fuel(trim_end, 2);
    reveal_with_fuel(skip_hashes, 3);
    assert(hex_digit_value(v[1]) is Some);
    assert(color_hex_end(v) == 9);
    assert(color_hex_start(v) == 1);
    let hex = color_hex(v);
    assert(hex =~= v.subrange(1, 9));
    assert forall|i: int| 0 <= i < 8 implies hex_digit_value(#[trigger] hex[i]) is Some && utf8_width(hex[i]) == 1 by {
        assert(hex[i] == v[i + 1]);
        assert(hex_digit_value(v[i + 1]) is Some);
    }
    lemma_utf8_len_single_bytes(hex);
    assert(utf8_len(hex) == 8);
    reveal_with_fuel(scan_pairs, 5);
    assert forall|k: int| 0 <= k < 4 implies #[trigger] hex_byte(hex.subrange(2 * k, 2 * k + 2)) == Some(
        hex_pair_value(hex, k) as u8,
    ) by {
        let p = hex.subrange(2 * k, 2 * k + 2);
        assert(hex_digit_value(hex[2 * k]) is Some);
        assert(hex_digit_value(hex[2 * k + 1]) is Some);
        assert(p[0] == hex[2 * k]);
        assert(p[1] == hex[2 * k + 1]);
    }
    assert(hex_byte(hex.subrange(0, 2)) == Some(hex_pair_value(hex, 0) as u8));
    assert(hex_byte(hex.subrange(2, 4)) == Some(hex_pair_value(hex, 1) as u8));
    assert(hex_byte(hex.subrange(4, 6)) == Some(hex_pair_value(hex, 2) as u8));
    assert(hex_byte(hex.subrange(6, 8)) == Some(hex_pair_value(hex, 3) as u8));
}


proof fn lemma_builtin_color(v: Seq<char>)
    requires
        v.len() == 9,
        v[0] == '#',
        forall|i: int| 1 <= i < 9 ==> (#[trigger] hex_digit_value(v[i])) is Some,
    ensures
        spec_parse_color(v) is Parsed,
        parsed_color(v) == (ThemeColor {
            r: hex_pair_value(v.subrange(1, 9), 0) as u8,
            g: hex_pair_value(v.subrange(1, 9), 1) as u8,
            b: hex_pair_value(v.subrange(1, 9), 2) as u8,
            a: hex_pair_value(v.subrange(1, 9), 3) as u8,
        }),
{
    lemma_parse_hash_rrggbbaa(v);
}

/// The built-in colors are well formed: a theme without any color (a missing
/// theme file) resolves, to these colors.
pub proof fn lemma_builtin_colors_resolve()
    ensures
        forall|i: int| 0 <= i < 9 ==> #[trigger] spec_parse_color(default_color_strs()[i]) is Parsed,
        colors_of(default_color_strs()) == (ThemeColors {
            background: ThemeColor { r: 0x1e, g: 0x1e, b: 0x2e, a: 0xff },
            foreground: ThemeColor { r: 0xcd, g: 0xd6, b: 0xf4, a: 0xff },
            border: ThemeColor { r: 0x45, g: 0x47, b: 0x5a, a: 0xff },
            header: ThemeColor { r: 0xcb, g: 0xa6, b: 0xf7, a: 0xff },
            status: ThemeColor { r: 0xa6, g: 0xe3, b: 0xa1, a: 0xff },
            today: ThemeColor { r: 0xf9, g: 0xe2, b: 0xaf, a: 0xff },
            selected: ThemeColor { r: 0x89, g: 0xb4, b: 0xfa, a: 0xff },
            weekend: ThemeColor { r: 0xf3, g: 0x8b, b: 0xa8, a: 0xff },
            other_month: ThemeColor { r: 0x6c, g: 0x70, b: 0x86, a: 0xff },
        }),
{
    reveal_strlit("#1e1e2eFF");
    reveal_strlit("#cdd6f4FF");
    reveal_strlit("#45475aFF");
    reveal_strlit("#cba6f7FF");
    reveal_strlit("#a6e3a1FF");
    reveal_strlit("#f9e2afFF");
    reveal_strlit("#89b4faFF");
    reveal_strlit("#f38ba8FF");
    reveal_strlit("#6c7086FF");
    let d = default_color_strs();
    assert forall|i: int| 0 <= i < 9 implies #[trigger] spec_parse_color(d[i]) is Parsed && parsed_color(d[i])
        == (ThemeColor {
        r: hex_pair_value(d[i].subrange(1, 9), 0) as u8,
        g: hex_pair_value(d[i].subrange(1, 9), 1) as u8,
        b: hex_pair_value(d[i].subrange(1, 9), 2) as u8,
        a: hex_pair_value(d[i].subrange(1, 9), 3) as u8,
    }) by {
        lemma_builtin_color(d[i]);
    }
    assert(colors_of(d).background == ThemeColor { r: 0x1e, g: 0x1e, b: 0x2e, a: 0xff });
}

/// A theme without colors, like the built-in theme, can always be resolved.
pub proof fn lemma_builtin_theme_resolvable(t: Theme)
    requires
        t.color_strs() == default_color_strs(),
    ensures
        t.resolvable(),
{
    lemma_builtin_colors_resolve();
}


/// The `background` key of the `[base]` section, absent when the section is.
pub open spec fn background_field(t: Theme) -> Option<String> {
    match t.base {
        Some(sec) => sec.background,
        None => None,
    }
}

/// The `foreground` key of the `[base]` section, absent when the section is.
pub open spec fn foreground_field(t: Theme) -> Option<String> {
    match t.base {
        Some(sec) => sec.foreground,
        None => None,
    }
}

/// The `border` key of the `[base]` section, absent when the section is.
pub open spec fn border_field(t: Theme) -> Option<String> {
    match t.base {
        Some(sec) => sec.border,
        None => None,
    }
}

/// The `header` key of the `[calendar]` section, absent when the section is.
pub open spec fn header_field(t: Theme) -> Option<String> {
    match t.calendar {
        Some(sec) => sec.header,
        None => None,
    }
}

/// The `status` key of the `[calendar]` section, absent when the section is.
pub open spec fn status_field(t: Theme) -> Option<String> {
    match t.calendar {
        Some(sec) => sec.status,
        None => None,
    }
}

/// The `today` key of the `[calendar]` section, absent when the section is.
pub open spec fn today_field(t: Theme) -> Option<String> {
    match t.calendar {
        Some(sec) => sec.today,
        None => None,
    }
}

/// The `selected` key of the `[calendar]` section, absent when the section is.
pub open spec fn selected_field(t: Theme) -> Option<String> {
    match t.calendar {
        Some(sec) => sec.selected,
        None => None,
    }
}

/// The `weekend` key of the `[calendar]` section, absent when the section is.
pub open spec fn weekend_field(t: Theme) -> Option<String> {
    match t.calendar {
        Some(sec) => sec.weekend,
        None => None,
    }
}

/// The `other_month` key of the `[calendar]` section, absent when the section is.
pub open spec fn other_month_field(t: Theme) -> Option<String> {
    match t.calendar {
        Some(sec) => sec.other_month,
        None => None,
    }
}

/// Each color of a theme is the string its key holds, or, when the key is
/// absent (with or without its section), that key's own built-in color:
/// background `#1e1e2eFF`, foreground `#cdd6f4FF`, border `#45475aFF`, header
/// `#cba6f7FF`, status `#a6e3a1FF`, today `#f9e2afFF`, selected `#89b4faFF`,
/// weekend `#f38ba8FF`, other month `#6c7086FF`, all opaque.
pub proof fn lemma_absent_keys_take_their_builtin_colors(t: Theme)
    ensures
        t.color_strs()[0] == match background_field(t) { Some(s) => s@, None => "#1e1e2eFF"@ },
        background_field(t) is None ==> spec_parse_color(t.color_strs()[0]) == ColorParse::Parsed(
            ThemeColor { r: 0x1e, g: 0x1e, b: 0x2e, a: 0xff },
        ),
        t.color_strs()[1] == match foreground_field(t) { Some(s) => s@, None => "#cdd6f4FF"@ },
        foreground_field(t) is None ==> spec_parse_color(t.color_strs()[1]) == ColorParse::Parsed(
            ThemeColor { r: 0xcd, g: 0xd6, b: 0xf4, a: 0xff },
        ),
        t.color_strs()[2] == match border_field(t) { Some(s) => s@, None => "#45475aFF"@ },
        border_field(t) is None ==> spec_parse_color(t.color_strs()[2]) == ColorParse::Parsed(
            ThemeColor { r: 0x45, g: 0x47, b: 0x5a, a: 0xff },
        ),
        t.color_strs()[3] == match header_field(t) { Some(s) => s@, None => "#cba6f7FF"@ },
        header_field(t) is None ==> spec_parse_color(t.color_strs()[3]) == ColorParse::Parsed(
            ThemeColor { r: 0xcb, g: 0xa6, b: 0xf7, a: 0xff },
        ),
        t.color_strs()[4] == match status_field(t) { Some(s) => s@, None => "#a6e3a1FF"@ },
        status_field(t) is None ==> spec_parse_color(t.color_strs()[4]) == ColorParse::Parsed(
            ThemeColor { r: 0xa6, g: 0xe3, b: 0xa1, a: 0xff },
        ),
        t.color_strs()[5] == match today_field(t) { Some(s) => s@, None => "#f9e2afFF"@ },
        today_field(t) is None ==> spec_parse_color(t.color_strs()[5]) == ColorParse::Parsed(
            ThemeColor { r: 0xf9, g: 0xe2, b: 0xaf, a: 0xff },
        ),
        t.color_strs()[6] == match selected_field(t) { Some(s) => s@, None => "#89b4faFF"@ },
        selected_field(t) is None ==> spec_parse_color(t.color_strs()[6]) == ColorParse::Parsed(
            ThemeColor { r: 0x89, g: 0xb4, b: 0xfa, a: 0xff },
        ),
        t.color_strs()[7] == match weekend_field(t) { Some(s) => s@, None => "#f38ba8FF"@ },
        weekend_field(t) is None ==> spec_parse_color(t.color_strs()[7]) == ColorParse::Parsed(
            ThemeColor { r: 0xf3, g: 0x8b, b: 0xa8, a: 0xff },
        ),
        t.color_strs()[8] == match other_month_field(t) { Some(s) => s@, None => "#6c7086FF"@ },
        other_month_field(t) is None ==> spec_parse_color(t.color_strs()[8]) == ColorParse::Parsed(
            ThemeColor { r: 0x6c, g: 0x70, b: 0x86, a: 0xff },
        ),
{
    lemma_builtin_colors_resolve();
    reveal_strlit("#1e1e2eFF");
    reveal_strlit("#cdd6f4FF");
    reveal_strlit("#45475aFF");
    reveal_strlit("#cba6f7FF");
    reveal_strlit("#a6e3a1FF");
    reveal_strlit("#f9e2afFF");
    reveal_strlit("#89b4faFF");
    reveal_strlit("#f38ba8FF");
    reveal_strlit("#6c7086FF");
    let d = default_color_strs();
    assert forall|i: int| 0 <= i < 9 implies spec_parse_color(#[trigger] d[i]) == ColorParse::Parsed(parsed_color(d[i])) by {
        assert(spec_parse_color(d[i]) is Parsed);
    }
}

} // verus!

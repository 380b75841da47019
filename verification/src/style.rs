//! Styled text: the colours and spans that the widget's lines are made of,
//! the accent colour parser and the rainbow colouring of banner rows.
use vstd::prelude::*;
use crate::text::{chars_of, lower_chars, lower_seq, same_chars, string_from_chars, trim, trim_chars};

verus! {

/// The terminal colours the widget draws with.
#[derive(Clone, Copy, Debug, PartialEq, Eq, Structural)]
pub enum CompanionColor {
    Cyan,
    Blue,
    Green,
    Yellow,
    Red,
    Magenta,
    White,
    Gray,
    DarkGray,
    Rgb(u8, u8, u8),
}

/// The style of a span: an optional foreground colour and the bold and italic
/// modifiers.
#[derive(Clone, Copy, Debug, PartialEq, Eq, Structural)]
pub struct SpanStyle {
    pub fg: Option<CompanionColor>,
    pub bold: bool,
    pub italic: bool,
}

/// A run of text drawn in one style.
#[derive(Debug)]
pub struct StyledSpan {
    pub text: String,
    pub style: SpanStyle,
}

/// One line of styled text.
#[derive(Debug)]
pub struct StyledLine {
    pub spans: Vec<StyledSpan>,
}

impl View for StyledSpan {
    type V = (Seq<char>, SpanStyle);

    open spec fn view(&self) -> (Seq<char>, SpanStyle) {
        (self.text@, self.style)
    }
}

impl View for StyledLine {
    type V = Seq<(Seq<char>, SpanStyle)>;

    open spec fn view(&self) -> Seq<(Seq<char>, SpanStyle)> {
        self.spans@.map_values(|s: StyledSpan| s@)
    }
}

/// The view of a sequence of lines.
pub open spec fn lines_view(lines: Seq<StyledLine>) -> Seq<Seq<(Seq<char>, SpanStyle)>> {
    lines.map_values(|l: StyledLine| l@)
}

/// No colour, no modifier.
pub open spec fn plain_style() -> SpanStyle {
    SpanStyle { fg: None, bold: false, italic: false }
}

pub open spec fn color_style(c: CompanionColor, bold: bool, italic: bool) -> SpanStyle {
    SpanStyle { fg: Some(c), bold, italic }
}

impl SpanStyle {
    pub fn plain() -> (r: SpanStyle)
        ensures
            r == plain_style(),
    {
        SpanStyle { fg: None, bold: false, italic: false }
    }

    pub fn colored(c: CompanionColor, bold: bool, italic: bool) -> (r: SpanStyle)
        ensures
            r == color_style(c, bold, italic),
    {
        SpanStyle { fg: Some(c), bold, italic }
    }
}

impl StyledSpan {
    pub fn new(text: String, style: SpanStyle) -> (r: StyledSpan)
        ensures
            r@ == (text@, style),
    {
        StyledSpan { text, style }
    }

    /// A span without colour or modifiers.
    pub fn raw(text: String) -> (r: StyledSpan)
        ensures
            r@ == (text@, plain_style()),
    {
        StyledSpan { text, style: SpanStyle::plain() }
    }
}

impl StyledLine {
    pub fn from_spans(spans: Vec<StyledSpan>) -> (r: StyledLine)
        ensures
            r@ == spans@.map_values(|s: StyledSpan| s@),
    {
        StyledLine { spans }
    }
}

// ---------------------------------------------------------------------------
// Rainbow rows
// ---------------------------------------------------------------------------

/// The rainbow palette, cycled by column.
pub open spec fn palette(i: int) -> CompanionColor {
    let k = i % 6;
    if k == 0 {
        CompanionColor::Magenta
    } else if k == 1 {
        CompanionColor::Red
    } else if k == 2 {
        CompanionColor::Yellow
    } else if k == 3 {
        CompanionColor::Green
    } else if k == 4 {
        CompanionColor::Cyan
    } else {
        CompanionColor::Blue
    }
}

/// One span per character of `text`: spaces plain, every other character in
/// the palette colour of its column shifted by `phase`, bold if asked.
pub open spec fn rainbow_spec(text: Seq<char>, phase: int, bold: bool) -> Seq<
    (Seq<char>, SpanStyle),
> {
    Seq::new(
        text.len(),
        |i: int|
            if text[i] == ' ' {
                (seq![' '], plain_style())
            } else {
                (seq![text[i]], color_style(palette(phase + i), bold, false))
            },
    )
}

fn palette_color(i: usize) -> (r: CompanionColor)
    ensures
        r == palette(i as int),
{
    let k = i % 6;
    if k == 0 {
        CompanionColor::Magenta
    } else if k == 1 {
        CompanionColor::Red
    } else if k == 2 {
        CompanionColor::Yellow
    } else if k == 3 {
        CompanionColor::Green
    } else if k == 4 {
        CompanionColor::Cyan
    } else {
        CompanionColor::Blue
    }
}

/// Colours `text` character by character with the rainbow palette.
pub fn rainbow_line(text: String, phase: usize, bold: bool) -> (r: StyledLine)
    requires
        text@.len() == 0 || phase + (text@.len() - 1) <= usize::MAX,
    ensures
        r@ == rainbow_spec(text@, phase as int, bold),
{
    let chars = chars_of(text.as_str());
    let mut spans: Vec<StyledSpan> = Vec::new();
    for idx in 0..chars.len()
        invariant
            chars@ == text@,
            chars@.len() == 0 || phase + (chars@.len() - 1) <= usize::MAX,
            spans@.len() == idx,
            forall|k: int|
                0 <= k < idx ==> (#[trigger] spans@[k])@ == rainbow_spec(text@, phase as int, bold)[k],
    {
        let ch = chars[idx];
        let one = [ch];
        if ch == ' ' {
            spans.push(StyledSpan::raw(string_from_chars(&one)));
        } else {
            let style = SpanStyle::colored(palette_color(phase + idx), bold, false);
            spans.push(StyledSpan::new(string_from_chars(&one), style));
        }
        assert(one@ =~= seq![ch]);
    }
    let r = StyledLine::from_spans(spans);
    assert(r@ =~= rainbow_spec(text@, phase as int, bold));
    r
}

// ---------------------------------------------------------------------------
// Accent colours
// ---------------------------------------------------------------------------

/// The number of UTF-8 bytes of `c` (`char::len_utf8`).
pub open spec fn utf8_width(c: char) -> nat {
    if (c as u32) < 0x80 {
        1
    } else if (c as u32) < 0x800 {
        2
    } else if (c as u32) < 0x10000 {
        3
    } else {
        4
    }
}

/// The number of UTF-8 bytes of `s`.
pub open spec fn utf8_len(s: Seq<char>) -> nat
    decreases s.len(),
{
    if s.len() == 0 {
        0
    } else {
        utf8_len(s.drop_last()) + utf8_width(s.last())
    }
}

/// Byte offset `b` of the UTF-8 encoding of `s` falls between two characters.
pub open spec fn is_char_boundary(s: Seq<char>, b: int) -> bool {
    exists|i: int| 0 <= i <= s.len() && #[trigger] utf8_len(s.take(i)) == b
}

pub open spec fn hex_digit(c: char) -> Option<u8> {
    if '0' <= c <= '9' {
        Some(((c as u32) - ('0' as u32)) as u8)
    } else if 'a' <= c <= 'f' {
        Some(((c as u32) - ('a' as u32) + 10) as u8)
    } else if 'A' <= c <= 'F' {
        Some(((c as u32) - ('A' as u32) + 10) as u8)
    } else {
        None
    }
}

/// `u8::from_str_radix(s, 16)` on a two-character string `ab`: an optional
/// `+` followed by hexadecimal digits.
pub open spec fn hex_byte(a: char, b: char) -> Option<u8> {
    if a == '+' {
        hex_digit(b)
    } else {
        match (hex_digit(a), hex_digit(b)) {
            (Some(x), Some(y)) => Some((x * 16 + y) as u8),
            _ => None,
        }
    }
}

/// The colour written as six hexadecimal digits (after the `#`).
pub open spec fn hex_rgb(hex: Seq<char>) -> Option<CompanionColor> {
    if hex.len() == 6 {
        match (hex_byte(hex[0], hex[1]), hex_byte(hex[2], hex[3]), hex_byte(hex[4], hex[5])) {
            (Some(r), Some(g), Some(b)) => Some(CompanionColor::Rgb(r, g, b)),
            _ => None,
        }
    } else {
        None
    }
}

/// The colour a (lower-cased) name stands for.
pub open spec fn named_color(name: Seq<char>) -> Option<CompanionColor> {
    if name == "cyan"@ {
        Some(CompanionColor::Cyan)
    } else if name == "blue"@ {
        Some(CompanionColor::Blue)
    } else if name == "green"@ {
        Some(CompanionColor::Green)
    } else if name == "yellow"@ {
        Some(CompanionColor::Yellow)
    } else if name == "red"@ {
        Some(CompanionColor::Red)
    } else if name == "magenta"@ {
        Some(CompanionColor::Magenta)
    } else if name == "white"@ {
        Some(CompanionColor::White)
    } else if name == "gray"@ || name == "grey"@ {
        Some(CompanionColor::Gray)
    } else {
        None
    }
}

/// The colour that a presence's colour string names: `#rrggbb` (six bytes of
/// hexadecimal after the `#`) or one of the colour names, ignoring case and
/// surrounding white space.
pub open spec fn spec_parse_color(value: Option<Seq<char>>) -> Option<CompanionColor> {
    match value {
        None => None,
        Some(v) => {
            let t = trim(v);
            if t.len() == 0 {
                None
            } else if t[0] == '#' {
                let hex = t.drop_first();
                if utf8_len(hex) == 6 {
                    hex_rgb(hex)
                } else {
                    None
                }
            } else {
                named_color(lower_seq(t))
            }
        },
    }
}

/// A `#` followed by six bytes that cannot be cut into three two-byte pieces
/// at character boundaries: slicing it by bytes panics.
pub open spec fn spec_parse_color_panics(value: Option<Seq<char>>) -> bool {
    match value {
        None => false,
        Some(v) => {
            let t = trim(v);
            let hex = t.drop_first();
            &&& t.len() > 0
            &&& t[0] == '#'
            &&& utf8_len(hex) == 6
            &&& !(is_char_boundary(hex, 2) && is_char_boundary(hex, 4))
        },
    }
}

pub proof fn lemma_utf8_len_at_least(s: Seq<char>)
    ensures
        utf8_len(s) >= s.len(),
        utf8_len(s) == s.len() <==> forall|i: int| 0 <= i < s.len() ==> (#[trigger] s[i] as u32) < 0x80,
    decreases s.len(),
{
    if s.len() > 0 {
        lemma_utf8_len_at_least(s.drop_last());
        if utf8_len(s) == s.len() {
            assert forall|i: int| 0 <= i < s.len() implies (#[trigger] s[i] as u32) < 0x80 by {
                if i < s.len() - 1 {
                    assert(s[i] == s.drop_last()[i]);
                }
            }
        }
        if forall|i: int| 0 <= i < s.len() ==> (#[trigger] s[i] as u32) < 0x80 {
            assert forall|i: int| 0 <= i < s.drop_last().len() implies (#[trigger] s.drop_last()[i] as u32) < 0x80 by {
                assert(s.drop_last()[i] == s[i]);
            }
            assert((s.last() as u32) < 0x80);
        }
    }
}

pub proof fn lemma_utf8_len_monotone(s: Seq<char>, i: int, j: int)
    requires
        0 <= i <= j <= s.len(),
    ensures
        utf8_len(s.take(i)) <= utf8_len(s.take(j)),
    decreases j - i,
{
    if i < j {
        lemma_utf8_len_monotone(s, i, j - 1);
        assert(s.take(j).drop_last() =~= s.take(j - 1));
    }
}

fn char_utf8_width(c: char) -> (r: usize)
    ensures
        r == utf8_width(c),
{
    let u = c as u32;
    if u < 0x80 {
        1
    } else if u < 0x800 {
        2
    } else if u < 0x10000 {
        3
    } else {
        4
    }
}

fn hex_digit_value(c: char) -> (r: Option<u8>)
    ensures
        r == hex_digit(c),
{
    if '0' <= c && c <= '9' {
        Some(((c as u32) - ('0' as u32)) as u8)
    } else if 'a' <= c && c <= 'f' {
        Some(((c as u32) - ('a' as u32) + 10) as u8)
    } else if 'A' <= c && c <= 'F' {
        Some(((c as u32) - ('A' as u32) + 10) as u8)
    } else {
        None
    }
}

fn parse_hex_byte(a: char, b: char) -> (r: Option<u8>)
    ensures
        r == hex_byte(a, b),
{
    if a == '+' {
        hex_digit_value(b)
    } else {
        match (hex_digit_value(a), hex_digit_value(b)) {
            (Some(x), Some(y)) => Some(x * 16 + y),
            _ => None,
        }
    }
}

fn parse_named_color(name: &[char]) -> (r: Option<CompanionColor>)
    ensures
        r == named_color(name@),
{
    if same_chars(name, "cyan") {
        Some(CompanionColor::Cyan)
    } else if same_chars(name, "blue") {
        Some(CompanionColor::Blue)
    } else if same_chars(name, "green") {
        Some(CompanionColor::Green)
    } else if same_chars(name, "yellow") {
        Some(CompanionColor::Yellow)
    } else if same_chars(name, "red") {
        Some(CompanionColor::Red)
    } else if same_chars(name, "magenta") {
        Some(CompanionColor::Magenta)
    } else if same_chars(name, "white") {
        Some(CompanionColor::White)
    } else if same_chars(name, "gray") || same_chars(name, "grey") {
        Some(CompanionColor::Gray)
    } else {
        None
    }
}

/// The colour named by an accent string, if it names one.
pub fn parse_color(value: Option<&str>) -> (r: Option<CompanionColor>)
    requires
        !spec_parse_color_panics(crate::banner::opt_str_view(value)),
    ensures
        r == spec_parse_color(crate::banner::opt_str_view(value)),
{
    let v = match value {
        None => {
            return None;
        },
        Some(v) => v,
    };
    let raw = chars_of(v);
    let t = trim_chars(&raw);
    if t.len() == 0 {
        return None;
    }
    if t[0] == '#' {
        let ghost hex = t@.drop_first();
        if t.len() == 7 {
            let mut all_ascii = true;
            for i in 1..7
                invariant
                    t@.len() == 7,
                    hex == t@.drop_first(),
                    all_ascii == forall|k: int| 0 <= k < i - 1 ==> (#[trigger] hex[k] as u32) < 0x80,
            {
                assert(hex[i - 1] == t@[i as int]);
                if (t[i] as u32) >= 0x80 {
                    all_ascii = false;
                }
            }
            proof {
                lemma_utf8_len_at_least(hex);
            }
            if !all_ascii {
                return None;
            }
            let r = parse_hex_byte(t[1], t[2]);
            let g = parse_hex_byte(t[3], t[4]);
            let b = parse_hex_byte(t[5], t[6]);
            return match (r, g, b) {
                (Some(r), Some(g), Some(b)) => Some(CompanionColor::Rgb(r, g, b)),
                _ => None,
            };
        }
        proof {
            lemma_utf8_len_at_least(hex);
        }
        return None;
    }
    let lower = lower_chars(&t);
    parse_named_color(&lower)
}

/// Whether `parse_color` would cut a multi-byte character while slicing the
/// hexadecimal digits of `value`.
pub fn parse_color_panics(value: Option<&str>) -> (r: bool)
    ensures
        r == spec_parse_color_panics(crate::banner::opt_str_view(value)),
{
    let v = match value {
        None => {
            return false;
        },
        Some(v) => v,
    };
    let raw = chars_of(v);
    let t = trim_chars(&raw);
    if t.len() == 0 || t[0] != '#' {
        return false;
    }
    let ghost hex = t@.drop_first();
    let mut total: usize = 0;
    let mut seen2 = false;
    let mut seen4 = false;
    let mut i: usize = 1;
    while i < t.len()
        invariant
            1 <= i <= t@.len(),
            value == Some(v),
            raw@ == v@,
            t@ == trim(raw@),
            t@.len() > 0 && t@[0] == '#',
            hex == t@.drop_first(),
            total == utf8_len(hex.take(i - 1)),
            total <= 6,
            seen2 == exists|k: int| 0 <= k <= i - 1 && #[trigger] utf8_len(hex.take(k)) == 2,
            seen4 == exists|k: int| 0 <= k <= i - 1 && #[trigger] utf8_len(hex.take(k)) == 4,
        decreases t@.len() - i,
    {
        let w = char_utf8_width(t[i]);
        assert(hex.take(i as int).drop_last() =~= hex.take(i - 1));
        assert(hex.take(i as int).last() == t@[i as int]);
        total = total + w;
        assert(utf8_len(hex.take(i as int)) == total);
        if total > 6 {
            proof {
                lemma_utf8_len_monotone(hex, i as int, hex.len() as int);
                assert(hex.take(hex.len() as int) =~= hex);
                assert(utf8_len(hex) > 6);
            }
            return false;
        }
        if total == 2 {
            seen2 = true;
        }
        if total == 4 {
            seen4 = true;
        }
        i = i + 1;
    }
    assert(hex.take(hex.len() as int) =~= hex);
    if total != 6 {
        return false;
    }
    assert(seen2 == is_char_boundary(hex, 2));
    assert(seen4 == is_char_boundary(hex, 4));
    !(seen2 && seen4)
}

} // verus!

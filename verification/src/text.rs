//! Character-level text helpers shared by the companion widget: ASCII case
//! mapping, whitespace trimming and the fixed-width layout primitives that the
//! banner is built from.
use vstd::prelude::*;

verus! {

// ---------------------------------------------------------------------------
// Characters
// ---------------------------------------------------------------------------

/// The Unicode `White_Space` property, which `char::is_whitespace`,
/// `str::trim` and `str::split_whitespace` go by: U+0009 to U+000D, U+0020,
/// U+0085, U+00A0, U+1680, U+2000 to U+200A, U+2028, U+2029, U+202F, U+205F
/// and U+3000.
pub open spec fn char_is_whitespace(c: char) -> bool {
    let u = c as u32;
    (0x9 <= u <= 0xD) || u == 0x20 || u == 0x85 || u == 0xA0 || u == 0x1680 || (0x2000 <= u
        <= 0x200A) || u == 0x2028 || u == 0x2029 || u == 0x202F || u == 0x205F || u == 0x3000
}

/// Whether `c` is white space.
pub fn is_whitespace(c: char) -> (r: bool)
    ensures
        r == char_is_whitespace(c),
{
    let u = c as u32;
    (0x9 <= u && u <= 0xD) || u == 0x20 || u == 0x85 || u == 0xA0 || u == 0x1680 || (0x2000 <= u
        && u <= 0x200A) || u == 0x2028 || u == 0x2029 || u == 0x202F || u == 0x205F || u == 0x3000
}

/// Collects characters into a `String` through `FromIterator<char>`; the
/// contract claims that the string holds exactly these characters, in order.
#[verifier::external_body]
pub(crate) fn string_from_chars(chars: &[char]) -> (s: String)
    ensures
        s@ == chars@,
{
    String::from_iter(chars.iter())
}

/// The characters of a string slice, in order.
pub fn chars_of(s: &str) -> (v: Vec<char>)
    ensures
        v@ == s@,
{
    let mut v: Vec<char> = Vec::new();
    for c in it: s.chars()
        invariant
            v@ == it.seq().take(it.index() as int),
    {
        v.push(c);
    }
    v
}

pub open spec fn is_ascii_digit(c: char) -> bool {
    '0' <= c <= '9'
}

pub open spec fn is_ascii_lower(c: char) -> bool {
    'a' <= c <= 'z'
}

pub open spec fn is_ascii_upper(c: char) -> bool {
    'A' <= c <= 'Z'
}

/// `char::is_ascii_alphanumeric`.
pub open spec fn is_ascii_alnum(c: char) -> bool {
    is_ascii_digit(c) || is_ascii_lower(c) || is_ascii_upper(c)
}

/// `char::to_ascii_uppercase`: lower-case ASCII letters are mapped to upper case.
pub open spec fn ascii_upper(c: char) -> char {
    if is_ascii_lower(c) {
        ((c as u32) - 32) as char
    } else {
        c
    }
}

/// `char::to_ascii_lowercase`: upper-case ASCII letters are mapped to lower case.
pub open spec fn ascii_lower(c: char) -> char {
    if is_ascii_upper(c) {
        ((c as u32) + 32) as char
    } else {
        c
    }
}

/// `str::to_ascii_uppercase` on a character sequence.
pub open spec fn upper_seq(s: Seq<char>) -> Seq<char> {
    s.map_values(|c: char| ascii_upper(c))
}

/// `str::to_ascii_lowercase` on a character sequence.
pub open spec fn lower_seq(s: Seq<char>) -> Seq<char> {
    s.map_values(|c: char| ascii_lower(c))
}

pub fn is_alnum(c: char) -> (r: bool)
    ensures
        r == is_ascii_alnum(c),
{
    ('0' <= c && c <= '9') || ('a' <= c && c <= 'z') || ('A' <= c && c <= 'Z')
}

pub fn to_upper(c: char) -> (r: char)
    ensures
        r == ascii_upper(c),
{
    if 'a' <= c && c <= 'z' {
        ((c as u8) - 32) as char
    } else {
        c
    }
}

pub fn to_lower(c: char) -> (r: char)
    ensures
        r == ascii_lower(c),
{
    if 'A' <= c && c <= 'Z' {
        ((c as u8) + 32) as char
    } else {
        c
    }
}

/// Upper-cases the ASCII letters of `s`, leaving every other character as it is.
pub fn upper_chars(s: &[char]) -> (r: Vec<char>)
    ensures
        r@ == upper_seq(s@),
{
    let mut r: Vec<char> = Vec::new();
    for i in 0..s.len()
        invariant
            r@ == upper_seq(s@.take(i as int)),
    {
        r.push(to_upper(s[i]));
        assert(upper_seq(s@.take(i + 1)) =~= upper_seq(s@.take(i as int)).push(ascii_upper(s@[i as int])));
    }
    assert(s@.take(s@.len() as int) =~= s@);
    r
}

/// Lower-cases the ASCII letters of `s`, leaving every other character as it is.
pub fn lower_chars(s: &[char]) -> (r: Vec<char>)
    ensures
        r@ == lower_seq(s@),
{
    let mut r: Vec<char> = Vec::new();
    for i in 0..s.len()
        invariant
            r@ == lower_seq(s@.take(i as int)),
    {
        r.push(to_lower(s[i]));
        assert(lower_seq(s@.take(i + 1)) =~= lower_seq(s@.take(i as int)).push(ascii_lower(s@[i as int])));
    }
    assert(s@.take(s@.len() as int) =~= s@);
    r
}

/// Whether the characters of `a` are those of `b`.
pub fn same_chars(a: &[char], b: &str) -> (r: bool)
    ensures
        r == (a@ == b@),
{
    let bv = chars_of(b);
    if a.len() != bv.len() {
        return false;
    }
    for i in 0..a.len()
        invariant
            a@.len() == bv@.len(),
            bv@ == b@,
            forall|j: int| 0 <= j < i ==> a@[j] == bv@[j],
    {
        if a[i] != bv[i] {
            assert(a@[i as int] != bv@[i as int]);
            return false;
        }
    }
    assert(a@ =~= bv@);
    true
}

/// Appends the characters of `s` to `out`.
pub fn push_str(out: &mut Vec<char>, s: &str)
    ensures
        final(out)@ == old(out)@ + s@,
{
    let v = chars_of(s);
    push_all(out, &v);
}

/// Appends the characters of `s` to `out`.
pub fn push_all(out: &mut Vec<char>, s: &[char])
    ensures
        final(out)@ == old(out)@ + s@,
{
    let ghost start = out@;
    for i in 0..s.len()
        invariant
            out@ == start + s@.take(i as int),
    {
        out.push(s[i]);
        assert(start + s@.take(i + 1) =~= (start + s@.take(i as int)).push(s@[i as int]));
    }
    assert(s@.take(s@.len() as int) =~= s@);
}

// ---------------------------------------------------------------------------
// Whitespace trimming (`str::trim`)
// ---------------------------------------------------------------------------

/// The index of the first character at or after `i` that is not white space.
pub open spec fn skip_ws(s: Seq<char>, i: int) -> int
    decreases s.len() - i,
{
    if 0 <= i < s.len() && char_is_whitespace(s[i]) {
        skip_ws(s, i + 1)
    } else {
        i
    }
}

/// The index just past the last character before `j` that is not white space.
pub open spec fn trim_end_index(s: Seq<char>, j: int) -> int
    decreases j,
{
    if 0 < j <= s.len() && char_is_whitespace(s[j - 1]) {
        trim_end_index(s, j - 1)
    } else {
        j
    }
}

/// `str::trim`: `s` without its leading and trailing white space.
pub open spec fn trim(s: Seq<char>) -> Seq<char> {
    let start = skip_ws(s, 0);
    let end = trim_end_index(s, s.len() as int);
    if start < end {
        s.subrange(start, end)
    } else {
        Seq::empty()
    }
}

pub proof fn lemma_skip_ws_bounds(s: Seq<char>, i: int)
    requires
        0 <= i <= s.len(),
    ensures
        i <= skip_ws(s, i) <= s.len(),
        skip_ws(s, i) < s.len() ==> !char_is_whitespace(s[skip_ws(s, i)]),
        forall|k: int| i <= k < skip_ws(s, i) ==> char_is_whitespace(#[trigger] s[k]),
    decreases s.len() - i,
{
    if i < s.len() && char_is_whitespace(s[i]) {
        lemma_skip_ws_bounds(s, i + 1);
    }
}

pub proof fn lemma_trim_end_bounds(s: Seq<char>, j: int)
    requires
        0 <= j <= s.len(),
    ensures
        0 <= trim_end_index(s, j) <= j,
        trim_end_index(s, j) > 0 ==> !char_is_whitespace(s[trim_end_index(s, j) - 1]),
        forall|k: int| trim_end_index(s, j) <= k < j ==> char_is_whitespace(#[trigger] s[k]),
    decreases j,
{
    if 0 < j && char_is_whitespace(s[j - 1]) {
        lemma_trim_end_bounds(s, j - 1);
    }
}

/// Finds the first index at or after `i` whose character is not white space.
pub fn skip_whitespace(s: &[char], i: usize) -> (r: usize)
    requires
        i <= s@.len(),
    ensures
        r == skip_ws(s@, i as int),
{
    let mut k = i;
    while k < s.len() && is_whitespace(s[k])
        invariant
            i <= k <= s@.len(),
            skip_ws(s@, k as int) == skip_ws(s@, i as int),
        decreases s@.len() - k,
    {
        k = k + 1;
    }
    k
}

/// `str::trim` on characters.
pub fn trim_chars(s: &[char]) -> (r: Vec<char>)
    ensures
        r@ == trim(s@),
{
    let start = skip_whitespace(s, 0);
    let mut end = s.len();
    while end > 0 && is_whitespace(s[end - 1])
        invariant
            end <= s@.len(),
            trim_end_index(s@, end as int) == trim_end_index(s@, s@.len() as int),
        decreases end,
    {
        end = end - 1;
    }
    let mut r: Vec<char> = Vec::new();
    if start < end {
        let mut k = start;
        while k < end
            invariant
                start <= k <= end <= s@.len(),
                r@ == s@.subrange(start as int, k as int),
            decreases end - k,
        {
            r.push(s[k]);
            assert(s@.subrange(start as int, k + 1) =~= s@.subrange(start as int, k as int).push(s@[k as int]));
            k = k + 1;
        }
    }
    r
}

// ---------------------------------------------------------------------------
// Fixed-width layout
// ---------------------------------------------------------------------------

/// `n` spaces.
pub open spec fn spaces(n: nat) -> Seq<char> {
    Seq::new(n, |_i: int| ' ')
}

pub open spec fn sat_sub(a: int, b: int) -> int {
    if a >= b {
        a - b
    } else {
        0
    }
}

pub open spec fn min_int(a: int, b: int) -> int {
    if a <= b {
        a
    } else {
        b
    }
}

/// `text` cut to at most `width` characters, ending in `...` when it was cut
/// and there is room for the dots.
pub open spec fn fit_spec(text: Seq<char>, width: int) -> Seq<char> {
    if text.len() <= width {
        text
    } else if width <= 3 {
        text.take(width)
    } else {
        text.take(width - 3) + seq!['.', '.', '.']
    }
}

/// `text` fitted to `width - wobble` columns, padded with spaces on both sides
/// so that it sits in the middle of `width` columns, shifted right by `wobble`.
pub open spec fn center_spec(text: Seq<char>, width: int, wobble: int) -> Seq<char> {
    let t = fit_spec(text, sat_sub(width, wobble));
    let remaining = sat_sub(width, t.len() as int);
    let left = remaining / 2 + min_int(wobble, remaining);
    let right = sat_sub(width, t.len() + left);
    spaces(left as nat) + t + spaces(right as nat)
}

/// The arithmetic of `center_text` stays within `usize`.
pub open spec fn center_fits(text: Seq<char>, width: int, wobble: int) -> bool {
    let t = fit_spec(text, sat_sub(width, wobble));
    let remaining = sat_sub(width, t.len() as int);
    t.len() + remaining / 2 + min_int(wobble, remaining) <= usize::MAX
}

/// The background character of a pattern line at column `i`.
pub open spec fn pattern_char(i: int) -> char {
    let k = i % 4;
    if k == 0 {
        '='
    } else if k == 1 {
        '~'
    } else if k == 2 {
        '*'
    } else {
        '-'
    }
}

/// `width` columns of the repeating `=~*-` pattern shifted by `phase`, with
/// `label` (fitted to `width`) laid over its middle.
pub open spec fn pattern_spec(label: Seq<char>, width: int, phase: int) -> Seq<char> {
    let l = fit_spec(label, width);
    let start = (width - l.len()) / 2;
    Seq::new(
        width as nat,
        |i: int|
            if start <= i < start + l.len() {
                l[i - start]
            } else {
                pattern_char(i + phase)
            },
    )
}

pub proof fn lemma_fit_len(text: Seq<char>, width: int)
    requires
        width >= 0,
    ensures
        fit_spec(text, width).len() == min_int(text.len() as int, width),
        fit_spec(text, width).len() <= width,
{
}

/// With a wobble of at most one column, a centred text is exactly `width` wide.
pub proof fn lemma_center_len(text: Seq<char>, width: int, wobble: int)
    requires
        width >= 0,
        0 <= wobble <= 1,
    ensures
        center_spec(text, width, wobble).len() == width,
        center_fits(text, width, wobble) <== width + 1 <= usize::MAX,
{
    lemma_fit_len(text, sat_sub(width, wobble));
}

/// Cuts `text` to at most `width` characters; a cut text of more than three
/// columns ends in `...`.
pub fn fit_to_width(text: &str, width: usize) -> (r: String)
    ensures
        r@ == fit_spec(text@, width as int),
{
    let v = chars_of(text);
    let out = fit_chars(&v, width);
    string_from_chars(&out)
}

pub fn fit_chars(text: &[char], width: usize) -> (r: Vec<char>)
    ensures
        r@ == fit_spec(text@, width as int),
{
    let count = text.len();
    if count <= width {
        let mut r: Vec<char> = Vec::new();
        push_all(&mut r, text);
        return r;
    }
    let keep = if width <= 3 {
        width
    } else {
        width - 3
    };
    let mut r: Vec<char> = Vec::new();
    for i in 0..keep
        invariant
            keep <= text@.len(),
            r@ == text@.take(i as int),
    {
        r.push(text[i]);
        assert(text@.take(i + 1) =~= text@.take(i as int).push(text@[i as int]));
    }
    if width > 3 {
        r.push('.');
        r.push('.');
        r.push('.');
    }
    assert(r@ =~= fit_spec(text@, width as int));
    r
}

/// Pushes `n` spaces onto `out`.
pub fn push_spaces(out: &mut Vec<char>, n: usize)
    ensures
        final(out)@ == old(out)@ + spaces(n as nat),
{
    let ghost start = out@;
    for i in 0..n
        invariant
            out@ == start + spaces(i as nat),
    {
        out.push(' ');
        assert(start + spaces((i + 1) as nat) =~= (start + spaces(i as nat)).push(' '));
    }
}

/// Centres `text` in `width` columns, shifted right by `wobble` columns.
pub fn center_text(text: &str, width: usize, wobble: usize) -> (r: String)
    requires
        center_fits(text@, width as int, wobble as int),
    ensures
        r@ == center_spec(text@, width as int, wobble as int),
{
    let v = chars_of(text);
    let out = center_chars(&v, width, wobble);
    string_from_chars(&out)
}

pub fn center_chars(text: &[char], width: usize, wobble: usize) -> (r: Vec<char>)
    requires
        center_fits(text@, width as int, wobble as int),
    ensures
        r@ == center_spec(text@, width as int, wobble as int),
{
    let t = fit_chars(text, width.saturating_sub(wobble));
    let text_width = t.len();
    let remaining = width.saturating_sub(text_width);
    let left = remaining / 2 + if wobble < remaining {
        wobble
    } else {
        remaining
    };
    let right = width.saturating_sub(text_width + left);
    let mut out: Vec<char> = Vec::new();
    push_spaces(&mut out, left);
    push_all(&mut out, &t);
    push_spaces(&mut out, right);
    out
}

/// A line of `width` columns filled with the repeating `=~*-` pattern,
/// shifted by `phase`, with `label` centred over it.
pub fn pattern_line(label: &str, width: usize, phase: usize) -> (r: String)
    requires
        width == 0 || phase + (width - 1) <= usize::MAX,
    ensures
        r@ == pattern_spec(label@, width as int, phase as int),
{
    let v = chars_of(label);
    let out = pattern_chars(&v, width, phase);
    string_from_chars(&out)
}

pub fn pattern_chars(label: &[char], width: usize, phase: usize) -> (r: Vec<char>)
    requires
        width == 0 || phase + (width - 1) <= usize::MAX,
    ensures
        r@ == pattern_spec(label@, width as int, phase as int),
{
    let label_chars = fit_chars(label, width);
    let pattern = ['=', '~', '*', '-'];
    let mut chars: Vec<char> = Vec::new();
    for idx in 0..width
        invariant
            width == 0 || phase + (width - 1) <= usize::MAX,
            pattern@ == seq!['=', '~', '*', '-'],
            chars@.len() == idx,
            forall|k: int| 0 <= k < idx ==> #[trigger] chars@[k] == pattern_char(k + phase),
    {
        chars.push(pattern[(idx + phase) % 4]);
    }
    proof {
        lemma_fit_len(label@, width as int);
    }
    if label_chars.len() <= width {
        let start = (width - label_chars.len()) / 2;
        for idx in 0..label_chars.len()
            invariant
                start == (width - label_chars@.len()) / 2,
                label_chars@.len() <= width,
                chars@.len() == width,
                forall|k: int|
                    0 <= k < width ==> #[trigger] chars@[k] == if start <= k < start + idx {
                        label_chars@[k - start]
                    } else {
                        pattern_char(k + phase)
                    },
        {
            chars.set(start + idx, label_chars[idx]);
        }
    }
    assert(chars@ =~= pattern_spec(label@, width as int, phase as int));
    chars
}

} // verus!

//! Reaction kinds, banner headlines and the block-letter rows that spell a
//! headline across the banner.
use vstd::prelude::*;
use crate::text::{
    ascii_upper, char_is_whitespace, chars_of, is_alnum, is_ascii_alnum, is_whitespace,
    lemma_skip_ws_bounds, push_all, push_spaces, same_chars, skip_whitespace, skip_ws, spaces,
    string_from_chars, to_upper, trim, trim_chars,
};

verus! {

// ---------------------------------------------------------------------------
// Reaction kinds and headlines
// ---------------------------------------------------------------------------

/// The characters of an optional string slice.
pub open spec fn opt_str_view(o: Option<&str>) -> Option<Seq<char>> {
    match o {
        Some(s) => Some(s@),
        None => None,
    }
}

/// The fixed headline of a (trimmed) reaction kind, for the kinds that have one.
pub open spec fn fixed_headline(k: Seq<char>) -> Option<Seq<char>> {
    if k == "pet"@ {
        Some("PET PARTY"@)
    } else if k == "setup"@ || k == "hatch"@ {
        Some("NEW PAL"@)
    } else if k == "rename"@ {
        Some("NAME DROP"@)
    } else if k == "set-type"@ {
        Some("VIBE SHIFT"@)
    } else if k == "burst"@ || k == "celebrate"@ {
        Some("BUDDY WOW"@)
    } else {
        None
    }
}

/// The (trimmed) reaction kinds that open a banner.
pub open spec fn is_burst_name(k: Seq<char>) -> bool {
    k == "pet"@ || k == "setup"@ || k == "rename"@ || k == "set-type"@ || k == "hatch"@
        || k == "burst"@ || k == "celebrate"@
}

pub open spec fn spec_is_burst_kind(kind: Option<Seq<char>>) -> bool {
    match kind {
        Some(k) => is_burst_name(trim(k)),
        None => false,
    }
}

/// The index just past the word that starts at `i`.
pub open spec fn word_end(s: Seq<char>, i: int) -> int
    decreases s.len() - i,
{
    if 0 <= i < s.len() && !char_is_whitespace(s[i]) {
        word_end(s, i + 1)
    } else {
        i
    }
}

/// The characters that survive in a headline word.
pub open spec fn keeps_headline_char(c: char) -> bool {
    is_ascii_alnum(c) || c == '-'
}

/// A word reduced to its ASCII letters, digits and dashes, upper-cased.
pub open spec fn clean_word(w: Seq<char>) -> Seq<char>
    decreases w.len(),
{
    if w.len() == 0 {
        Seq::empty()
    } else {
        let p = clean_word(w.drop_last());
        if keeps_headline_char(w.last()) {
            p.push(ascii_upper(w.last()))
        } else {
            p
        }
    }
}

/// The headline made from the first two words of `s`: each word cleaned, the
/// empty ones dropped, the rest joined by a space.
pub open spec fn text_headline(s: Seq<char>) -> Seq<char> {
    let a = skip_ws(s, 0);
    let b = word_end(s, a);
    let c = skip_ws(s, b);
    let d = word_end(s, c);
    let w1 = clean_word(s.subrange(a, b));
    let w2 = clean_word(s.subrange(c, d));
    if w1.len() == 0 {
        w2
    } else if w2.len() == 0 {
        w1
    } else {
        w1 + seq![' '] + w2
    }
}

pub open spec fn spec_burst_headline(kind: Option<Seq<char>>, text: Seq<char>) -> Seq<char> {
    match kind {
        Some(k) => match fixed_headline(trim(k)) {
            Some(h) => h,
            None => text_headline(text),
        },
        None => text_headline(text),
    }
}

pub proof fn lemma_word_end_bounds(s: Seq<char>, i: int)
    requires
        0 <= i <= s.len(),
    ensures
        i <= word_end(s, i) <= s.len(),
    decreases s.len() - i,
{
    if i < s.len() && !char_is_whitespace(s[i]) {
        lemma_word_end_bounds(s, i + 1);
    }
}

/// Whether a reaction of this kind opens a banner.
pub fn is_burst_kind(kind: Option<&str>) -> (r: bool)
    ensures
        r == spec_is_burst_kind(opt_str_view(kind)),
{
    match kind {
        None => false,
        Some(k) => {
            let kv = chars_of(k);
            let t = trim_chars(&kv);
            same_chars(&t, "pet") || same_chars(&t, "setup") || same_chars(&t, "rename")
                || same_chars(&t, "set-type") || same_chars(&t, "hatch") || same_chars(
                &t,
                "burst",
            ) || same_chars(&t, "celebrate")
        },
    }
}

fn word_end_index(s: &[char], i: usize) -> (r: usize)
    requires
        i <= s@.len(),
    ensures
        r == word_end(s@, i as int),
{
    let mut k = i;
    while k < s.len() && !is_whitespace(s[k])
        invariant
            i <= k <= s@.len(),
            word_end(s@, k as int) == word_end(s@, i as int),
        decreases s@.len() - k,
    {
        k = k + 1;
    }
    k
}

fn clean_range(s: &[char], from: usize, to: usize) -> (r: Vec<char>)
    requires
        from <= to <= s@.len(),
    ensures
        r@ == clean_word(s@.subrange(from as int, to as int)),
{
    let mut r: Vec<char> = Vec::new();
    let mut k = from;
    while k < to
        invariant
            from <= k <= to <= s@.len(),
            r@ == clean_word(s@.subrange(from as int, k as int)),
        decreases to - k,
    {
        let c = s[k];
        assert(s@.subrange(from as int, k + 1).drop_last() =~= s@.subrange(from as int, k as int));
        if is_alnum(c) || c == '-' {
            r.push(to_upper(c));
        }
        k = k + 1;
    }
    r
}

/// The banner headline of a reaction: a fixed phrase for the burst kinds, else
/// the first two words of its text, cleaned and upper-cased.
pub fn burst_headline(kind: Option<&str>, text: &str) -> (r: String)
    ensures
        r@ == spec_burst_headline(opt_str_view(kind), text@),
{
    if let Some(k) = kind {
        let kv = chars_of(k);
        let t = trim_chars(&kv);
        if same_chars(&t, "pet") {
            return "PET PARTY".to_string();
        } else if same_chars(&t, "setup") || same_chars(&t, "hatch") {
            return "NEW PAL".to_string();
        } else if same_chars(&t, "rename") {
            return "NAME DROP".to_string();
        } else if same_chars(&t, "set-type") {
            return "VIBE SHIFT".to_string();
        } else if same_chars(&t, "burst") || same_chars(&t, "celebrate") {
            return "BUDDY WOW".to_string();
        }
    }
    let s = chars_of(text);
    let out = text_headline_chars(&s);
    string_from_chars(&out)
}

fn text_headline_chars(s: &[char]) -> (r: Vec<char>)
    ensures
        r@ == text_headline(s@),
{
    proof {
        lemma_skip_ws_bounds(s@, 0);
    }
    let a = skip_whitespace(s, 0);
    proof {
        lemma_word_end_bounds(s@, a as int);
    }
    let b = word_end_index(s, a);
    proof {
        lemma_skip_ws_bounds(s@, b as int);
    }
    let c = skip_whitespace(s, b);
    proof {
        lemma_word_end_bounds(s@, c as int);
    }
    let d = word_end_index(s, c);
    let w1 = clean_range(s, a, b);
    let w2 = clean_range(s, c, d);
    if w1.len() == 0 {
        w2
    } else if w2.len() == 0 {
        w1
    } else {
        let mut out = w1;
        out.push(' ');
        push_all(&mut out, &w2);
        out
    }
}

// ---------------------------------------------------------------------------
// Block letters
// ---------------------------------------------------------------------------

/// `normalize_banner_char`: ASCII letters and digits upper-cased, dashes kept,
/// everything else a space.
pub open spec fn normalize_spec(c: char) -> char {
    if is_ascii_alnum(c) {
        ascii_upper(c)
    } else if c == '-' {
        '-'
    } else {
        ' '
    }
}

/// Row `row` (0, 1 or 2) of the wide block letter for `c`.
pub open spec fn wide_glyph(c: char, row: int) -> Seq<char> {
    if c == ' ' {
        spaces(5)
    } else if row == 1 {
        seq![' ', c, ' ', c, ' ']
    } else {
        seq![' ', c, c, c, ' ']
    }
}

/// Row `row` of `title` spelled in wide block letters.
pub open spec fn wide_row(title: Seq<char>, row: int) -> Seq<char>
    decreases title.len(),
{
    if title.len() == 0 {
        Seq::empty()
    } else {
        wide_row(title.drop_last(), row) + wide_glyph(normalize_spec(title.last()), row)
    }
}

/// Either row of the medium block letter for `c`.
pub open spec fn medium_glyph(c: char) -> Seq<char> {
    if c == ' ' {
        spaces(3)
    } else {
        seq![' ', c, c, ' ']
    }
}

/// Either row of `title` spelled in medium block letters.
pub open spec fn medium_row(title: Seq<char>) -> Seq<char>
    decreases title.len(),
{
    if title.len() == 0 {
        Seq::empty()
    } else {
        medium_row(title.drop_last()) + medium_glyph(normalize_spec(title.last()))
    }
}

pub fn normalize_banner_char(ch: char) -> (r: char)
    ensures
        r == normalize_spec(ch),
{
    if is_alnum(ch) {
        to_upper(ch)
    } else if ch == '-' {
        '-'
    } else {
        ' '
    }
}

/// The three rows of `title` in wide block letters.
pub fn wide_title_rows(title: &str) -> (rows: Vec<String>)
    ensures
        rows@.len() == 3,
        forall|r: int| 0 <= r < 3 ==> (#[trigger] rows@[r])@ == wide_row(title@, r),
{
    let t = chars_of(title);
    let mut r0: Vec<char> = Vec::new();
    let mut r1: Vec<char> = Vec::new();
    let mut r2: Vec<char> = Vec::new();
    for i in 0..t.len()
        invariant
            r0@ == wide_row(t@.take(i as int), 0),
            r1@ == wide_row(t@.take(i as int), 1),
            r2@ == wide_row(t@.take(i as int), 2),
    {
        let ch = normalize_banner_char(t[i]);
        assert(t@.take(i + 1).drop_last() =~= t@.take(i as int));
        if ch == ' ' {
            push_spaces(&mut r0, 5);
            push_spaces(&mut r1, 5);
            push_spaces(&mut r2, 5);
        } else {
            let ghost g0 = r0@;
            let ghost g1 = r1@;
            let ghost g2 = r2@;
            r0.push(' ');
            r0.push(ch);
            r0.push(ch);
            r0.push(ch);
            r0.push(' ');
            r1.push(' ');
            r1.push(ch);
            r1.push(' ');
            r1.push(ch);
            r1.push(' ');
            r2.push(' ');
            r2.push(ch);
            r2.push(ch);
            r2.push(ch);
            r2.push(' ');
            assert(r0@ =~= g0 + wide_glyph(ch, 0));
            assert(r1@ =~= g1 + wide_glyph(ch, 1));
            assert(r2@ =~= g2 + wide_glyph(ch, 2));
        }
    }
    assert(t@.take(t@.len() as int) =~= t@);
    let mut rows: Vec<String> = Vec::new();
    rows.push(string_from_chars(&r0));
    rows.push(string_from_chars(&r1));
    rows.push(string_from_chars(&r2));
    rows
}

/// The two rows of `title` in medium block letters.
pub fn medium_title_rows(title: &str) -> (rows: Vec<String>)
    ensures
        rows@.len() == 2,
        forall|r: int| 0 <= r < 2 ==> (#[trigger] rows@[r])@ == medium_row(title@),
{
    let t = chars_of(title);
    let mut row: Vec<char> = Vec::new();
    for i in 0..t.len()
        invariant
            row@ == medium_row(t@.take(i as int)),
    {
        let ch = normalize_banner_char(t[i]);
        assert(t@.take(i + 1).drop_last() =~= t@.take(i as int));
        if ch == ' ' {
            push_spaces(&mut row, 3);
        } else {
            let ghost g = row@;
            row.push(' ');
            row.push(ch);
            row.push(ch);
            row.push(' ');
            assert(row@ =~= g + medium_glyph(ch));
        }
    }
    assert(t@.take(t@.len() as int) =~= t@);
    let mut rows: Vec<String> = Vec::new();
    rows.push(string_from_chars(&row));
    rows.push(string_from_chars(&row));
    rows
}

} // verus!

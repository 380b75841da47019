//! Calls into `ratatui` that measure and lay out terminal text.
use vstd::prelude::*;
use ratatui::layout::Constraint;
use ratatui::layout::Direction;
use ratatui::layout::Layout;
use ratatui::layout::Rect;
use ratatui::text::Line;
use ratatui::text::Span;
use ratatui::widgets::Paragraph;
use ratatui::widgets::Wrap;
use crate::model::line_texts;
use crate::style::{lines_view, StyledLine};
use crate::layout::{Area, SizeConstraint, SplitDirection};

verus! {

/// The widest area whose wrapping stays within `u16` arithmetic: word
/// wrapping adds up to three columns' worth of widths at once in a `u16`.
pub const MAX_WRAP_WIDTH: u16 = 16383;

/// The number of rows that `ratatui`'s `Paragraph::line_count` reports for
/// lines made of spans with these texts, word-wrapped without trimming at
/// `width` columns.
pub uninterp spec fn wrapped_line_count(lines: Seq<Seq<Seq<char>>>, width: u16) -> usize;

/// Calls `Paragraph::line_count` on a paragraph of `lines` wrapped with
/// `Wrap { trim: false }`. The contract names the count, which depends on the
/// spans' texts and the width alone (wrapping reads graphemes and their widths,
/// not styles). It is zero for a zero width; at any other width every line
/// gives at least one row, since each input line is wrapped into one row or
/// more before the next is read. Widths above `MAX_WRAP_WIDTH`
/// are left out: there a long enough word overflows the wrapper's `u16` sums.
#[verifier::external_body]
pub(crate) fn paragraph_line_count(lines: &Vec<StyledLine>, width: u16) -> (r: usize)
    requires
        width <= MAX_WRAP_WIDTH,
    ensures
        r == wrapped_line_count(line_texts(lines_view(lines@)), width),
        width == 0 ==> r == 0,
        width > 0 ==> r >= lines@.len(),
{
    let text: Vec<Line<'static>> = lines
        .iter()
        .map(|l| Line::from(l.spans.iter().map(|s| Span::raw(s.text.clone())).collect::<Vec<_>>()))
        .collect();
    Paragraph::new(text).wrap(Wrap { trim: false }).line_count(width)
}

/// Where an area begins along a direction.
pub open spec fn area_start(a: Area, d: SplitDirection) -> int {
    match d {
        SplitDirection::Horizontal => a.x as int,
        SplitDirection::Vertical => a.y as int,
    }
}

/// How far an area extends along a direction.
pub open spec fn area_extent(a: Area, d: SplitDirection) -> int {
    match d {
        SplitDirection::Horizontal => a.width as int,
        SplitDirection::Vertical => a.height as int,
    }
}

/// A horizontal `[Min(m), Length(g), Length(c)]` split whose lengths and
/// minimum fit in the area.
pub open spec fn min_length_length_fits(area: Area, d: SplitDirection, cs: Seq<SizeConstraint>) -> bool {
    &&& d == SplitDirection::Horizontal
    &&& cs.len() == 3
    &&& area.x + area.width <= u16::MAX
    &&& match (cs[0], cs[1], cs[2]) {
        (SizeConstraint::Min(m), SizeConstraint::Length(g), SizeConstraint::Length(c)) => m
            <= 32767 && area.width >= m + g + c,
        _ => false,
    }
}

/// The areas of such a split: the minimum takes all the room the two lengths
/// leave, and the lengths follow it at the right edge.
pub open spec fn min_length_length_areas(area: Area, cs: Seq<SizeConstraint>) -> Seq<Area> {
    match (cs[1], cs[2]) {
        (SizeConstraint::Length(g), SizeConstraint::Length(c)) => seq![
            Area { x: area.x, y: area.y, width: (area.width - g - c) as u16, height: area.height },
            Area { x: (area.x + area.width - g - c) as u16, y: area.y, width: g, height: area.height },
            Area { x: (area.x + area.width - c) as u16, y: area.y, width: c, height: area.height },
        ],
        _ => Seq::empty(),
    }
}

/// A vertical `[Length(h), Min(m)]` split whose length and minimum fit in the
/// area.
pub open spec fn length_min_fits(area: Area, d: SplitDirection, cs: Seq<SizeConstraint>) -> bool {
    &&& d == SplitDirection::Vertical
    &&& cs.len() == 2
    &&& area.y + area.height <= u16::MAX
    &&& match (cs[0], cs[1]) {
        (SizeConstraint::Length(h), SizeConstraint::Min(m)) => m <= 32767 && area.height >= h + m,
        _ => false,
    }
}

/// The areas of such a split: the length at the top, the minimum taking the
/// rest below it.
pub open spec fn length_min_areas(area: Area, cs: Seq<SizeConstraint>) -> Seq<Area> {
    match cs[0] {
        SizeConstraint::Length(h) => seq![
            Area { x: area.x, y: area.y, width: area.width, height: h },
            Area { x: area.x, y: (area.y + h) as u16, width: area.width, height: (area.height - h) as u16 },
        ],
        _ => Seq::empty(),
    }
}

/// What holds of every split of `area` along `d` under `cs` with the default
/// layout (no margin, no spacing, flex from the start): one area per
/// constraint, all across the full breadth of `area`, in order along `d` and
/// inside `area`; and the exact areas for the two shapes above when they fit.
pub open spec fn split_outcome(area: Area, d: SplitDirection, cs: Seq<SizeConstraint>, r: Seq<Area>) -> bool {
    &&& r.len() == cs.len()
    &&& forall|i: int|
        0 <= i < r.len() ==> match d {
            SplitDirection::Horizontal => (#[trigger] r[i]).y == area.y && r[i].height == area.height,
            SplitDirection::Vertical => (#[trigger] r[i]).x == area.x && r[i].width == area.width,
        }
    &&& forall|i: int| 0 <= i < r.len() ==> area_start(#[trigger] r[i], d) >= area_start(area, d)
    &&& area_start(area, d) + area_extent(area, d) <= u16::MAX ==> forall|i: int|
        0 <= i < r.len() ==> area_start(#[trigger] r[i], d) + area_extent(r[i], d) <= area_start(
            area,
            d,
        ) + area_extent(area, d)
    &&& forall|i: int|
        0 <= i < r.len() - 1 ==> area_start(#[trigger] r[i], d) + area_extent(r[i], d)
            <= area_start(r[i + 1], d)
    &&& min_length_length_fits(area, d, cs) ==> r == min_length_length_areas(area, cs)
    &&& length_min_fits(area, d, cs) ==> r == length_min_areas(area, cs)
}

/// Calls `Layout::split` with the given direction and constraints (no margin,
/// no spacing, the default flex, which starts at the area's start). The
/// contract states what holds of every outcome:
/// - the required constraints keep every variable inside the area and in order,
///   and each area spans the full breadth of `area` across the direction;
/// - the constraint strengths fix the sizes of the two fitting shapes. The
///   first spacer is empty, the spacers between are empty, a `Length` holds
///   at a strong weight, and a `Min` grows at a medium weight, which is more
///   than the last spacer grows at.
/// It does not claim that equal arguments give equal areas in general.
#[verifier::external_body]
pub(crate) fn split_area(area: Area, direction: SplitDirection, constraints: &Vec<SizeConstraint>) -> (r: Vec<Area>)
    ensures
        split_outcome(area, direction, constraints@, r@),
{
    let rect = Rect { x: area.x, y: area.y, width: area.width, height: area.height };
    let direction = match direction {
        SplitDirection::Horizontal => Direction::Horizontal,
        SplitDirection::Vertical => Direction::Vertical,
    };
    let constraints: Vec<Constraint> = constraints.iter().map(|c| match *c {
        SizeConstraint::Min(v) => Constraint::Min(v),
        SizeConstraint::Length(v) => Constraint::Length(v),
    }).collect();
    let rects = Layout::default().direction(direction).constraints(constraints).split(rect);
    rects.iter().map(|r| Area { x: r.x, y: r.y, width: r.width, height: r.height }).collect()
}

} // verus!

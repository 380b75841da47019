//! Where the companion goes relative to the chat composer: beside it when the
//! terminal is wide enough, above it otherwise, and the floating reaction.
use vstd::prelude::*;
use crate::model::{
    line_texts, reaction_lines_ok, sat_add_u16, sat_sub_u16, spec_can_render_sidecar,
    spec_desired_height_for_width, spec_is_visible, spec_reaction_lines, spec_reserve_columns,
    spec_should_render_float, MIN_COMPOSER_WIDTH, SIDE_GAP,
};
use crate::style::{lines_view, StyledLine};
use crate::terminal::{split_area, split_outcome, wrapped_line_count, MAX_WRAP_WIDTH};
use crate::widget::CompanionWidget;

verus! {

/// A rectangle of terminal cells.
#[derive(Clone, Copy, Debug, PartialEq, Eq, Structural)]
pub struct Area {
    pub x: u16,
    pub y: u16,
    pub width: u16,
    pub height: u16,
}

/// A size constraint of a layout split.
#[derive(Clone, Copy, Debug, PartialEq, Eq, Structural)]
pub enum SizeConstraint {
    Min(u16),
    Length(u16),
}

/// The direction of a layout split.
#[derive(Clone, Copy, Debug, PartialEq, Eq, Structural)]
pub enum SplitDirection {
    Horizontal,
    Vertical,
}

/// Where the composer and the companion are drawn.
#[derive(Clone, Copy, Debug, PartialEq, Eq, Structural)]
pub enum ComposerLayoutPlan {
    /// Only the composer, in the whole area.
    ComposerOnly { composer: Area },
    /// The composer on the left and the companion, in sidecar form, on the right.
    Sidecar { composer: Area, companion: Area },
    /// The companion, in stacked form, above the composer.
    Stacked { companion: Area, composer: Area },
}

pub open spec fn area_is_empty(a: Area) -> bool {
    a.width == 0 || a.height == 0
}

pub open spec fn min_u16(a: u16, b: u16) -> u16 {
    if a <= b {
        a
    } else {
        b
    }
}

/// The columns a sidecar companion takes in `width` columns, leaving the
/// composer at least its minimum width.
pub open spec fn sidecar_reserve(w: crate::model::WidgetView, width: u16) -> u16 {
    min_u16(spec_reserve_columns(w), sat_sub_u16(width, MIN_COMPOSER_WIDTH))
}

/// The horizontal split of a sidecar layout: composer, gap, companion.
pub open spec fn sidecar_constraints(reserve: u16) -> Seq<SizeConstraint> {
    seq![
        SizeConstraint::Min(MIN_COMPOSER_WIDTH),
        SizeConstraint::Length(SIDE_GAP),
        SizeConstraint::Length(reserve),
    ]
}

/// The vertical split of a stacked layout: companion, composer.
pub open spec fn stacked_constraints(companion_height: u16) -> Seq<SizeConstraint> {
    seq![SizeConstraint::Length(companion_height), SizeConstraint::Min(1)]
}

/// Which of the three arrangements a layout uses.
#[derive(Clone, Copy, Debug, PartialEq, Eq, Structural)]
pub enum PlanKind {
    ComposerOnly,
    Sidecar,
    Stacked,
}

pub open spec fn plan_kind(p: ComposerLayoutPlan) -> PlanKind {
    match p {
        ComposerLayoutPlan::ComposerOnly { .. } => PlanKind::ComposerOnly,
        ComposerLayoutPlan::Sidecar { .. } => PlanKind::Sidecar,
        ComposerLayoutPlan::Stacked { .. } => PlanKind::Stacked,
    }
}

/// The arrangement for `area`: the composer alone when the area is empty or
/// the companion hidden, the sidecar when it fits, else the companion stacked
/// above the composer.
pub open spec fn spec_plan_kind(w: crate::model::WidgetView, area: Area) -> PlanKind {
    if area_is_empty(area) || !spec_is_visible(w) {
        PlanKind::ComposerOnly
    } else if spec_can_render_sidecar(w, area.width) {
        PlanKind::Sidecar
    } else {
        PlanKind::Stacked
    }
}

/// The sidecar split fits `area`: the composer's minimum, the gap and the
/// reservation fit across it, within the `u16` range.
pub open spec fn sidecar_fits(w: crate::model::WidgetView, area: Area) -> bool {
    area.x + area.width <= u16::MAX && area.width >= MIN_COMPOSER_WIDTH + SIDE_GAP
        + sidecar_reserve(w, area.width)
}

/// The composer's and the companion's areas of a fitting sidecar split: the
/// composer from the left edge, the companion against the right edge, the
/// gap between them.
pub open spec fn sidecar_areas(w: crate::model::WidgetView, area: Area) -> (Area, Area) {
    let c = sidecar_reserve(w, area.width);
    (
        Area {
            x: area.x,
            y: area.y,
            width: (area.width - SIDE_GAP - c) as u16,
            height: area.height,
        },
        Area { x: (area.x + area.width - c) as u16, y: area.y, width: c, height: area.height },
    )
}

/// The stacked split fits `area`: the companion's rows and one composer row
/// fit down it, within the `u16` range.
pub open spec fn stacked_fits(w: crate::model::WidgetView, area: Area) -> bool {
    area.y + area.height <= u16::MAX && area.height >= spec_desired_height_for_width(
        w,
        area.width,
        false,
    ) + 1
}

/// The companion's and the composer's areas of a fitting stacked split: the
/// companion's rows at the top, the composer below.
pub open spec fn stacked_areas(w: crate::model::WidgetView, area: Area) -> (Area, Area) {
    let h = spec_desired_height_for_width(w, area.width, false);
    (
        Area { x: area.x, y: area.y, width: area.width, height: h },
        Area {
            x: area.x,
            y: (area.y + h) as u16,
            width: area.width,
            height: (area.height - h) as u16,
        },
    )
}

/// The width at which the composer is asked for its height.
pub open spec fn spec_composer_width(w: crate::model::WidgetView, width: u16) -> u16 {
    if spec_is_visible(w) && spec_can_render_sidecar(w, width) {
        let reserve = min_u16(spec_reserve_columns(w), sat_sub_u16(width, 1));
        sat_sub_u16(width, sat_add_u16(reserve, SIDE_GAP))
    } else {
        width
    }
}

pub open spec fn spec_layout_desired_height(
    w: crate::model::WidgetView,
    width: u16,
    composer_height: u16,
) -> u16 {
    if !spec_is_visible(w) {
        composer_height
    } else if spec_can_render_sidecar(w, width) {
        let reserve = min_u16(spec_reserve_columns(w), sat_sub_u16(width, 1));
        let companion = spec_desired_height_for_width(w, reserve, true);
        if composer_height >= companion {
            composer_height
        } else {
            companion
        }
    } else {
        sat_add_u16(spec_desired_height_for_width(w, width, false), composer_height)
    }
}

/// The composer places its cursor in the whole area unless the companion
/// sits beside it.
pub open spec fn cursor_in_whole_area(w: crate::model::WidgetView, area: Area) -> bool {
    !spec_is_visible(w) || !spec_can_render_sidecar(w, area.width)
}

/// The sidecar plan for the three areas of a sidecar split: the composer in
/// the first, the companion in the third.
pub fn sidecar_plan(chunks: &Vec<Area>) -> (r: ComposerLayoutPlan)
    requires
        chunks@.len() == 3,
    ensures
        r == (ComposerLayoutPlan::Sidecar { composer: chunks@[0], companion: chunks@[2] }),
{
    ComposerLayoutPlan::Sidecar { composer: chunks[0], companion: chunks[2] }
}

/// The stacked plan for the two areas of a stacked split: the companion on
/// top, the composer below.
pub fn stacked_plan(chunks: &Vec<Area>) -> (r: ComposerLayoutPlan)
    requires
        chunks@.len() == 2,
    ensures
        r == (ComposerLayoutPlan::Stacked { companion: chunks@[0], composer: chunks@[1] }),
{
    ComposerLayoutPlan::Stacked { companion: chunks[0], composer: chunks[1] }
}

/// The composer together with the companion.
pub struct CompanionComposerLayout<'a> {
    companion: &'a CompanionWidget,
}

impl<'a> CompanionComposerLayout<'a> {
    pub closed spec fn companion(&self) -> &'a CompanionWidget {
        self.companion
    }

    pub fn new(companion: &'a CompanionWidget) -> (r: Self)
        ensures
            r.companion() == companion,
    {
        CompanionComposerLayout { companion }
    }

    /// The constraints of the sidecar split in `width` columns: the composer
    /// at its minimum width or more, the gap, and the companion's reservation
    /// (at most what the composer leaves).
    pub fn sidecar_split_constraints(&self, width: u16) -> (r: Vec<SizeConstraint>)
        ensures
            r@ == sidecar_constraints(sidecar_reserve(self.companion()@, width)),
    {
        let reserve = self.companion.reserve_columns();
        let room = width.saturating_sub(MIN_COMPOSER_WIDTH);
        let reserve = if reserve <= room {
            reserve
        } else {
            room
        };
        let mut constraints: Vec<SizeConstraint> = Vec::new();
        constraints.push(SizeConstraint::Min(MIN_COMPOSER_WIDTH));
        constraints.push(SizeConstraint::Length(SIDE_GAP));
        constraints.push(SizeConstraint::Length(reserve));
        assert(constraints@ =~= sidecar_constraints(sidecar_reserve(self.companion@, width)));
        constraints
    }

    /// The constraints of the stacked split in `width` columns: the
    /// companion's stacked height, then the composer.
    pub fn stacked_split_constraints(&self, width: u16) -> (r: Vec<SizeConstraint>)
        ensures
            r@ == stacked_constraints(spec_desired_height_for_width(self.companion()@, width, false)),
    {
        let companion_height = self.companion.desired_height_for_width(width, false);
        let mut constraints: Vec<SizeConstraint> = Vec::new();
        constraints.push(SizeConstraint::Length(companion_height));
        constraints.push(SizeConstraint::Min(1));
        assert(constraints@ =~= stacked_constraints(companion_height));
        constraints
    }

    /// Where the composer and the companion are drawn in `area`. The areas of
    /// a sidecar or stacked plan are those that `ratatui`'s layout solver gives
    /// for `sidecar_split_constraints` or `stacked_split_constraints`.
    pub fn render(&self, area: Area) -> (r: ComposerLayoutPlan)
        ensures
            plan_kind(r) == spec_plan_kind(self.companion()@, area),
            spec_plan_kind(self.companion()@, area) == PlanKind::ComposerOnly ==> r
                == (ComposerLayoutPlan::ComposerOnly { composer: area }),
            spec_plan_kind(self.companion()@, area) == PlanKind::Sidecar ==> exists|c: Seq<Area>|
                #[trigger] split_outcome(
                    area,
                    SplitDirection::Horizontal,
                    sidecar_constraints(sidecar_reserve(self.companion()@, area.width)),
                    c,
                ) && r == (ComposerLayoutPlan::Sidecar { composer: c[0], companion: c[2] }),
            spec_plan_kind(self.companion()@, area) == PlanKind::Stacked ==> exists|c: Seq<Area>|
                #[trigger] split_outcome(
                    area,
                    SplitDirection::Vertical,
                    stacked_constraints(spec_desired_height_for_width(self.companion()@, area.width, false)),
                    c,
                ) && r == (ComposerLayoutPlan::Stacked { companion: c[0], composer: c[1] }),
            spec_plan_kind(self.companion()@, area) == PlanKind::Sidecar && sidecar_fits(
                self.companion()@,
                area,
            ) ==> r == (ComposerLayoutPlan::Sidecar {
                composer: sidecar_areas(self.companion()@, area).0,
                companion: sidecar_areas(self.companion()@, area).1,
            }),
            spec_plan_kind(self.companion()@, area) == PlanKind::Stacked && stacked_fits(
                self.companion()@,
                area,
            ) ==> r == (ComposerLayoutPlan::Stacked {
                companion: stacked_areas(self.companion()@, area).0,
                composer: stacked_areas(self.companion()@, area).1,
            }),
    {
        if area.width == 0 || area.height == 0 || !self.companion.is_visible() {
            return ComposerLayoutPlan::ComposerOnly { composer: area };
        }
        if self.companion.can_render_sidecar(area.width) {
            let constraints = self.sidecar_split_constraints(area.width);
            let chunks = split_area(area, SplitDirection::Horizontal, &constraints);
            assert(split_outcome(area, SplitDirection::Horizontal, constraints@, chunks@));
            return sidecar_plan(&chunks);
        }
        let constraints = self.stacked_split_constraints(area.width);
        let chunks = split_area(area, SplitDirection::Vertical, &constraints);
        assert(split_outcome(area, SplitDirection::Vertical, constraints@, chunks@));
        stacked_plan(&chunks)
    }

    /// The width at which the composer should be asked for its height.
    pub fn composer_width(&self, width: u16) -> (r: u16)
        ensures
            r == spec_composer_width(self.companion()@, width),
    {
        if self.companion.is_visible() && self.companion.can_render_sidecar(width) {
            let reserve = self.companion.reserve_columns();
            let room = width.saturating_sub(1);
            let reserve = if reserve <= room {
                reserve
            } else {
                room
            };
            width.saturating_sub(reserve.saturating_add(SIDE_GAP))
        } else {
            width
        }
    }

    /// The rows the composer and the companion want together in `width`
    /// columns, given the composer's own height at `composer_width(width)`.
    pub fn desired_height(&self, width: u16, composer_height: u16) -> (r: u16)
        ensures
            r == spec_layout_desired_height(self.companion()@, width, composer_height),
    {
        if !self.companion.is_visible() {
            return composer_height;
        }
        if self.companion.can_render_sidecar(width) {
            let reserve = self.companion.reserve_columns();
            let room = width.saturating_sub(1);
            let reserve = if reserve <= room {
                reserve
            } else {
                room
            };
            let companion = self.companion.desired_height_for_width(reserve, true);
            return if composer_height >= companion {
                composer_height
            } else {
                companion
            };
        }
        self.companion.desired_height_for_width(width, false).saturating_add(composer_height)
    }

    /// The area in which the composer places its cursor: the whole area, or
    /// the composer's area of the sidecar split.
    pub fn cursor_pos(&self, area: Area) -> (r: Area)
        ensures
            cursor_in_whole_area(self.companion()@, area) ==> r == area,
            !cursor_in_whole_area(self.companion()@, area) ==> exists|c: Seq<Area>|
                #[trigger] split_outcome(
                    area,
                    SplitDirection::Horizontal,
                    sidecar_constraints(sidecar_reserve(self.companion()@, area.width)),
                    c,
                ) && r == c[0],
            !cursor_in_whole_area(self.companion()@, area) && sidecar_fits(self.companion()@, area)
                ==> r == sidecar_areas(self.companion()@, area).0,
    {
        if !self.companion.is_visible() || !self.companion.can_render_sidecar(area.width) {
            return area;
        }
        let constraints = self.sidecar_split_constraints(area.width);
        let chunks = split_area(area, SplitDirection::Horizontal, &constraints);
        assert(split_outcome(area, SplitDirection::Horizontal, constraints@, chunks@));
        chunks[0]
    }
}

/// The floating reaction above the composer.
pub struct CompanionFloat<'a> {
    companion: &'a CompanionWidget,
}

impl<'a> CompanionFloat<'a> {
    pub closed spec fn companion(&self) -> &'a CompanionWidget {
        self.companion
    }

    pub fn new(companion: &'a CompanionWidget) -> (r: Self)
        ensures
            r.companion() == companion,
    {
        CompanionFloat { companion }
    }

    /// The lines of the floating reaction in `area` at `now`, if it floats there.
    pub fn render(&self, area: Area, now: u64) -> (r: Option<Vec<StyledLine>>)
        requires
            !area_is_empty(area) && spec_should_render_float(self.companion()@, area.width)
                ==> reaction_lines_ok(self.companion()@, area.width, now),
        ensures
            match r {
                None => area_is_empty(area) || !spec_should_render_float(
                    self.companion()@,
                    area.width,
                ),
                Some(lines) => !area_is_empty(area) && spec_should_render_float(
                    self.companion()@,
                    area.width,
                ) && lines_view(lines@) == spec_reaction_lines(self.companion()@, area.width, now),
            },
    {
        self.companion.render_float(area.width, area.height, now)
    }

    /// The rows the floating reaction takes in `width` columns at `now`.
    pub fn desired_height(&self, width: u16, now: u64) -> (r: u16)
        requires
            spec_should_render_float(self.companion()@, width) ==> reaction_lines_ok(
                self.companion()@,
                width,
                now,
            ) && width <= MAX_WRAP_WIDTH,
        ensures
            r == (if !spec_should_render_float(self.companion()@, width) {
                0
            } else {
                let c = wrapped_line_count(
                    line_texts(spec_reaction_lines(self.companion()@, width, now)),
                    width,
                );
                if c <= u16::MAX {
                    c as u16
                } else {
                    0
                }
            }),
    {
        self.companion.desired_float_height(width, now)
    }
}

} // verus!

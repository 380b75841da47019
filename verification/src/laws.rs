//! Properties of the companion widget that hold across its operations.
use vstd::prelude::*;
use crate::banner::{
    fixed_headline, medium_row, spec_burst_headline,
    spec_is_burst_kind, wide_row,
};
use crate::layout::{
    cursor_in_whole_area, sidecar_areas, sidecar_fits, sidecar_reserve, spec_composer_width,
    spec_layout_desired_height, spec_plan_kind, stacked_areas, stacked_fits, Area, PlanKind,
};
use crate::model::{
    any_companion_event, apply_all, apply_event, banner_rows, frame_or_face, is_companion_event,
    sat_add_u64, spec_banner_lines, spec_banner_phase, spec_can_render_sidecar,
    spec_compact_float_lines, spec_current_frame, spec_desired_height_for_width,
    spec_duration_until, spec_is_visible, spec_next_frame_delay, spec_prune,
    spec_prune_changes, spec_reaction_layout, spec_reaction_lines, spec_render_lines,
    spec_reserve_columns, spec_should_render_float, title_rows, unwrap_or_u64, BannerSize,
    CompanionReactionLayout, LineView, WidgetView, DEFAULT_REACTION_TTL_MS, FRAME_TICK_MS,
    MIN_RESERVE_COLUMNS,
};
use crate::protocol::EventView;
use crate::style::{rainbow_spec, SpanStyle};
use crate::text::{
    center_spec, fit_spec, lemma_center_len, lemma_fit_len, min_int, pattern_spec, trim,
};

verus! {

// ---------------------------------------------------------------------------
// Events
// ---------------------------------------------------------------------------

/// Hiding or muting the companion drops its reaction and motion, and nothing
/// floats any more.
pub proof fn law_hidden_presence_clears_reaction(w: WidgetView, e: EventView, now: u64, width: u16)
    requires
        is_companion_event(e),
        e is Presence,
        !e->Presence_visible || e->Presence_muted,
    ensures
        apply_event(w, e, now).reaction is None,
        apply_event(w, e, now).motion is None,
        !spec_is_visible(apply_event(w, e, now)),
        spec_reaction_layout(apply_event(w, e, now), width) is None,
        !spec_should_render_float(apply_event(w, e, now), width),
{
}

/// A reaction replaces whatever reaction came before it: two reactions in a
/// row leave the same reaction and motion as the second alone.
pub proof fn law_later_reaction_replaces_earlier(w: WidgetView, e1: EventView, e2: EventView, now: u64)
    requires
        is_companion_event(e1),
        e1 is Reaction,
        is_companion_event(e2),
        e2 is Reaction,
    ensures
        apply_all(w, seq![e1, e2], now).reaction == apply_event(w, e2, now).reaction,
        apply_all(w, seq![e1, e2], now).motion == apply_event(w, e2, now).motion,
        apply_all(w, seq![e1, e2], now).reaction->0.text == e2->Reaction_text,
{
    assert(seq![e1, e2].drop_last() =~= seq![e1]);
    assert(seq![e1].drop_last() =~= Seq::<EventView>::empty());
}

/// Events addressed to other plugins leave the widget as it was.
pub proof fn law_foreign_events_are_ignored(w: WidgetView, events: Seq<EventView>, now: u64)
    requires
        !any_companion_event(events),
    ensures
        apply_all(w, events, now) == w,
    decreases events.len(),
{
    if events.len() > 0 {
        assert(!is_companion_event(events[events.len() - 1]));
        assert forall|i: int| 0 <= i < events.drop_last().len() implies !is_companion_event(
            #[trigger] events.drop_last()[i],
        ) by {
            assert(events.drop_last()[i] == events[i]);
        }
        law_foreign_events_are_ignored(w, events.drop_last(), now);
    }
}

/// Applying two batches in turn is applying their concatenation once, and the
/// concatenation holds a companion event iff either batch does.
pub proof fn law_batches_compose(w: WidgetView, a: Seq<EventView>, b: Seq<EventView>, now: u64)
    ensures
        apply_all(w, a + b, now) == apply_all(apply_all(w, a, now), b, now),
        any_companion_event(a + b) == (any_companion_event(a) || any_companion_event(b)),
    decreases b.len(),
{
    if b.len() == 0 {
        assert(a + b =~= a);
    } else {
        law_batches_compose(w, a, b.drop_last(), now);
        assert((a + b).drop_last() =~= a + b.drop_last());
        assert((a + b).last() == b.last());
    }
    if any_companion_event(a + b) {
        let i = choose|i: int| 0 <= i < (a + b).len() && is_companion_event(#[trigger] (a + b)[i]);
        if i < a.len() {
            assert(a[i] == (a + b)[i]);
        } else {
            assert(b[i - a.len()] == (a + b)[i]);
        }
    }
    if any_companion_event(a) {
        let i = choose|i: int| 0 <= i < a.len() && is_companion_event(#[trigger] a[i]);
        assert((a + b)[i] == a[i]);
    }
    if any_companion_event(b) {
        let i = choose|i: int| 0 <= i < b.len() && is_companion_event(#[trigger] b[i]);
        assert((a + b)[a.len() + i] == b[i]);
    }
}

// ---------------------------------------------------------------------------
// Expiry
// ---------------------------------------------------------------------------

/// After pruning at `now` nothing expired is left, and pruning again at the
/// same time changes nothing.
pub proof fn law_prune_is_complete_and_idempotent(w: WidgetView, now: u64)
    ensures
        spec_prune(w, now).reaction is Some ==> spec_prune(w, now).reaction->0.expires_at > now,
        spec_prune(w, now).motion is Some ==> spec_prune(w, now).motion->0.expires_at > now,
        !spec_prune_changes(spec_prune(w, now), now),
        spec_prune(spec_prune(w, now), now) == spec_prune(w, now),
        spec_prune_changes(w, now) <==> spec_prune(w, now) != w,
{
}

/// A reaction, with the motion it starts, is gone once its time to live has
/// passed; one given no time at all expires at once.
pub proof fn law_reaction_expires_after_ttl(w: WidgetView, e: EventView, now: u64, later: u64)
    requires
        is_companion_event(e),
        e is Reaction,
        later >= sat_add_u64(now, unwrap_or_u64(e->Reaction_ttl_ms, DEFAULT_REACTION_TTL_MS)),
    ensures
        spec_prune_changes(apply_event(w, e, now), later),
        spec_prune(apply_event(w, e, now), later).reaction is None,
        spec_prune(apply_event(w, e, now), later).motion is None,
        e->Reaction_ttl_ms == Some(0u64) ==> spec_prune(apply_event(w, e, now), now).reaction is None,
{
}

// ---------------------------------------------------------------------------
// Layout
// ---------------------------------------------------------------------------

/// A reaction has a floating layout exactly where it should float.
pub proof fn law_layout_iff_float(w: WidgetView, width: u16)
    ensures
        spec_reaction_layout(w, width) is Some <==> spec_should_render_float(w, width),
{
}

/// Only burst reactions become banners, and only from the banner width on;
/// the wide letters start at the wide width.
pub proof fn law_banner_iff_burst(w: WidgetView, width: u16)
    ensures
        (spec_reaction_layout(w, width) matches Some(CompanionReactionLayout::Banner(_)))
            <==> (spec_should_render_float(w, width) && w.reaction->0.burst && width >= 48),
        spec_reaction_layout(w, width) == Some(CompanionReactionLayout::Banner(BannerSize::Wide))
            <==> (spec_should_render_float(w, width) && w.reaction->0.burst && width >= 76),
{
}

/// A presence reserves at least fourteen columns; a sidecar companion needs a
/// visible presence and, when its reservation plus the composer's minimum and
/// the gap fit in a `u16`, leaves the composer at least its minimum width plus
/// the gap.
pub proof fn law_sidecar_room(w: WidgetView, width: u16)
    requires
        spec_reserve_columns(w) + 38 <= u16::MAX,
    ensures
        spec_reserve_columns(w) >= MIN_RESERVE_COLUMNS,
        spec_can_render_sidecar(w, width) ==> spec_is_visible(w) && width >= 52 && width
            >= 38 + spec_reserve_columns(w),
        spec_can_render_sidecar(w, width) ==> sidecar_reserve(w, width) == spec_reserve_columns(w),
{
}

/// A sidecar companion whose reservation fits beside the composer's minimum
/// sits against the right edge, two columns right of a composer that starts at
/// the left edge and keeps at least its minimum width.
pub proof fn law_sidecar_areas(w: WidgetView, area: Area)
    requires
        spec_can_render_sidecar(w, area.width),
        spec_reserve_columns(w) + 38 <= u16::MAX,
        area.x + area.width <= u16::MAX,
    ensures
        sidecar_fits(w, area),
        sidecar_areas(w, area).0.x == area.x,
        sidecar_areas(w, area).0.width >= 36,
        sidecar_areas(w, area).1.x == sidecar_areas(w, area).0.x + sidecar_areas(w, area).0.width
            + 2,
        sidecar_areas(w, area).1.x + sidecar_areas(w, area).1.width == area.x + area.width,
        sidecar_areas(w, area).1.width == spec_reserve_columns(w),
{
}

/// A stacked companion takes its rows at the top of an area with room for
/// them and one composer row, and the composer the rest below it.
pub proof fn law_stacked_areas(w: WidgetView, area: Area)
    requires
        area.y + area.height <= u16::MAX,
        area.height >= 4,
    ensures
        stacked_fits(w, area),
        stacked_areas(w, area).0.y == area.y,
        stacked_areas(w, area).1.y == stacked_areas(w, area).0.y + stacked_areas(w, area).0.height,
        stacked_areas(w, area).1.y + stacked_areas(w, area).1.height == area.y + area.height,
        stacked_areas(w, area).1.height >= 1,
{
}

/// The companion wants at most three rows, never more than it has columns,
/// and none at all when it is hidden.
pub proof fn law_desired_height_bounds(w: WidgetView, width: u16, sidecar: bool)
    ensures
        spec_desired_height_for_width(w, width, sidecar) <= 3,
        spec_desired_height_for_width(w, width, sidecar) <= width,
        spec_desired_height_for_width(w, width, sidecar) == 0 <==> (!spec_is_visible(w) || width
            == 0),
{
}

/// A hidden companion leaves the composer alone: it gets the whole area, its
/// own width and height, and places the cursor in the whole area.
pub proof fn law_hidden_companion_leaves_composer_alone(
    w: WidgetView,
    area: Area,
    width: u16,
    composer_height: u16,
)
    requires
        !spec_is_visible(w),
    ensures
        spec_plan_kind(w, area) == PlanKind::ComposerOnly,
        spec_composer_width(w, width) == width,
        spec_layout_desired_height(w, width, composer_height) == composer_height,
        cursor_in_whole_area(w, area),
{
}

/// The companion draws a header, then the reaction if there is one, then the
/// detail line unless the reaction sits beside the composer; when it is
/// visible that is never more rows than it asks for in three columns or more.
pub proof fn law_render_lines_count(w: WidgetView, sidecar: bool, now: u64, width: u16)
    ensures
        w.presence is None ==> spec_render_lines(w, sidecar, now).len() == 0,
        w.presence is Some ==> spec_render_lines(w, sidecar, now).len() == 1 + (if w.reaction is Some {
            1int
        } else {
            0
        }) + (if !sidecar || w.reaction is None {
            1int
        } else {
            0
        }),
        spec_is_visible(w) && width >= 3 ==> spec_render_lines(w, sidecar, now).len()
            <= spec_desired_height_for_width(w, width, sidecar),
{
}

// ---------------------------------------------------------------------------
// Motion
// ---------------------------------------------------------------------------

/// With animations off the widget draws the same lines at every moment: the
/// banner does not cycle and the face does not change.
pub proof fn law_reduced_motion_is_static(
    w: WidgetView,
    width: u16,
    sidecar: bool,
    now1: u64,
    now2: u64,
)
    requires
        !w.animations_enabled,
    ensures
        spec_banner_phase(w, now1) == 0,
        spec_current_frame(w, now1) == spec_current_frame(w, now2),
        spec_reaction_lines(w, width, now1) == spec_reaction_lines(w, width, now2),
        spec_render_lines(w, sidecar, now1) == spec_render_lines(w, sidecar, now2),
{
    assert(frame_or_face(w, now1) == frame_or_face(w, now2));
    assert(spec_banner_phase(w, now1) == spec_banner_phase(w, now2));
    assert(spec_compact_float_lines(w, now1) == spec_compact_float_lines(w, now2));
    assert(spec_banner_lines(w, width as int, BannerSize::Medium, now1) == spec_banner_lines(
        w,
        width as int,
        BannerSize::Medium,
        now2,
    ));
    assert(spec_banner_lines(w, width as int, BannerSize::Wide, now1) == spec_banner_lines(
        w,
        width as int,
        BannerSize::Wide,
        now2,
    ));
}

/// The next redraw comes no later than the motion (or else the reaction)
/// expires; without animations it comes exactly then (and never without
/// either); a visible burst with animations asks again within one frame tick.
pub proof fn law_next_frame_delay_bounds(w: WidgetView, now: u64)
    ensures
        !spec_is_visible(w) ==> spec_next_frame_delay(w, now) is None,
        spec_is_visible(w) && w.motion is Some ==> spec_next_frame_delay(w, now) is Some
            && spec_next_frame_delay(w, now)->0 <= spec_duration_until(now, w.motion->0.expires_at),
        spec_is_visible(w) && w.motion is None && w.reaction is Some ==> spec_next_frame_delay(
            w,
            now,
        ) is Some && spec_next_frame_delay(w, now)->0 <= spec_duration_until(
            now,
            w.reaction->0.expires_at,
        ),
        spec_is_visible(w) && !w.animations_enabled ==> spec_next_frame_delay(w, now) == (
        match w.motion {
            Some(m) => Some(spec_duration_until(now, m.expires_at)),
            None => match w.reaction {
                Some(r) => Some(spec_duration_until(now, r.expires_at)),
                None => None,
            },
        }),
        spec_is_visible(w) && w.animations_enabled && w.reaction is Some && w.reaction->0.burst
            ==> spec_next_frame_delay(w, now) is Some && spec_next_frame_delay(w, now)->0
            <= FRAME_TICK_MS,
{
}

// ---------------------------------------------------------------------------
// Banner geometry
// ---------------------------------------------------------------------------

/// The number of columns a line takes: the characters of all its spans.
pub open spec fn line_width(l: LineView) -> int
    decreases l.len(),
{
    if l.len() == 0 {
        0
    } else {
        line_width(l.drop_last()) + l.last().0.len()
    }
}

pub proof fn lemma_rainbow_width(text: Seq<char>, phase: int, bold: bool)
    ensures
        line_width(rainbow_spec(text, phase, bold)) == text.len(),
    decreases text.len(),
{
    if text.len() > 0 {
        lemma_rainbow_width(text.drop_last(), phase, bold);
        assert(rainbow_spec(text, phase, bold).drop_last() =~= rainbow_spec(
            text.drop_last(),
            phase,
            bold,
        ));
    }
}

/// A banner has its block-letter rows plus a header, a detail line and a
/// footer, and every one of its lines is exactly as wide as the float.
pub proof fn law_banner_lines_fill_width(w: WidgetView, width: u16, size: BannerSize, now: u64)
    requires
        w.presence is Some,
        w.reaction is Some,
    ensures
        spec_banner_lines(w, width as int, size, now).len() == banner_rows(size) + 3,
        forall|i: int|
            0 <= i < spec_banner_lines(w, width as int, size, now).len() ==> line_width(
                #[trigger] spec_banner_lines(w, width as int, size, now)[i],
            ) == width,
{
    let lines = spec_banner_lines(w, width as int, size, now);
    let p = w.presence->0;
    let r = w.reaction->0;
    let phase = spec_banner_phase(w, now) as int;
    let rows = title_rows(r.headline, size);
    let wobble = if w.animations_enabled && width > 56 && phase % 2 == 1 {
        1int
    } else {
        0int
    };
    let header_text = pattern_spec(
        seq![' '] + crate::text::upper_seq(p.label) + seq![' '],
        width as int,
        phase,
    );
    lemma_rainbow_width(header_text, phase, true);
    assert forall|i: int| 0 <= i < rows.len() implies line_width(
        #[trigger] rainbow_spec(center_spec(rows[i], width as int, wobble), phase + i + 1, true),
    ) == width by {
        lemma_center_len(rows[i], width as int, wobble);
        lemma_rainbow_width(center_spec(rows[i], width as int, wobble), phase + i + 1, true);
    }
    let detail = fit_spec(crate::model::banner_detail(w, now), width as int);
    lemma_center_len(detail, width as int, 0);
    let detail_line: LineView = seq![
        (center_spec(detail, width as int, 0), crate::style::color_style(
            crate::model::accent_of(p),
            true,
            true,
        )),
    ];
    assert(detail_line.drop_last() =~= Seq::<(Seq<char>, SpanStyle)>::empty());
    assert(line_width(detail_line.drop_last()) == 0);
    assert(detail_line.last().0.len() == width);
    assert(line_width(detail_line) == width);
    let footer = crate::model::banner_footer(r.kind, width as int, phase);
    lemma_rainbow_width(footer, phase + 2, false);
    assert forall|i: int| 0 <= i < lines.len() implies line_width(#[trigger] lines[i]) == width by {
        if i == 0 {
        } else if i <= rows.len() {
            assert(lines[i] == rainbow_spec(
                center_spec(rows[i - 1], width as int, wobble),
                phase + (i - 1) + 1,
                true,
            ));
        } else if i == rows.len() + 1 {
            assert(lines[i] == detail_line);
        } else {
            assert(lines[i] == rainbow_spec(footer, phase + 2, false));
        }
    }
}

// ---------------------------------------------------------------------------
// Text
// ---------------------------------------------------------------------------

/// A fitted text is never wider than asked, is the text itself when it fits,
/// and otherwise keeps a prefix of it.
pub proof fn law_fit_to_width(text: Seq<char>, width: int)
    requires
        width >= 0,
    ensures
        fit_spec(text, width).len() == min_int(text.len() as int, width),
        text.len() <= width ==> fit_spec(text, width) == text,
        text.len() > width && width > 3 ==> fit_spec(text, width) == text.take(width - 3) + seq![
            '.',
            '.',
            '.',
        ],
        text.len() > width && width <= 3 ==> fit_spec(text, width) == text.take(width),
{
    lemma_fit_len(text, width);
}

/// Centring with a wobble of at most one column fills the width exactly.
pub proof fn law_center_text_width(text: Seq<char>, width: int, wobble: int)
    requires
        width >= 0,
        0 <= wobble <= 1,
    ensures
        center_spec(text, width, wobble).len() == width,
{
    lemma_center_len(text, width, wobble);
}

/// A pattern line is exactly `width` columns wide and carries its fitted
/// label in the middle.
pub proof fn law_pattern_line(label: Seq<char>, width: int, phase: int)
    requires
        width >= 0,
    ensures
        pattern_spec(label, width, phase).len() == width,
        ({
            let l = fit_spec(label, width);
            let start = (width - l.len()) / 2;
            pattern_spec(label, width, phase).subrange(start, start + l.len()) == l
        }),
{
    lemma_fit_len(label, width);
    let l = fit_spec(label, width);
    let start = (width - l.len()) / 2;
    assert(pattern_spec(label, width, phase).subrange(start, start + l.len()) =~= l);
}

/// Wide block letters are five columns each; medium ones three for a space
/// and four otherwise; both medium rows are the same.
pub proof fn law_title_rows_width(title: Seq<char>)
    ensures
        wide_row(title, 0).len() == 5 * title.len(),
        wide_row(title, 1).len() == 5 * title.len(),
        wide_row(title, 2).len() == 5 * title.len(),
        3 * title.len() <= medium_row(title).len() <= 4 * title.len(),
    decreases title.len(),
{
    if title.len() > 0 {
        law_title_rows_width(title.drop_last());
    }
}

/// The block-letter rows of a joined title are the joined rows, and an empty
/// title has empty rows.
pub proof fn law_title_rows_concat(a: Seq<char>, b: Seq<char>, row: int)
    ensures
        wide_row(Seq::empty(), row) == Seq::<char>::empty(),
        medium_row(Seq::empty()) == Seq::<char>::empty(),
        wide_row(a + b, row) == wide_row(a, row) + wide_row(b, row),
        medium_row(a + b) == medium_row(a) + medium_row(b),
    decreases b.len(),
{
    if b.len() == 0 {
        assert(a + b =~= a);
        assert(wide_row(a, row) + wide_row(b, row) =~= wide_row(a, row));
        assert(medium_row(a) + medium_row(b) =~= medium_row(a));
    } else {
        law_title_rows_concat(a, b.drop_last(), row);
        assert((a + b).drop_last() =~= a + b.drop_last());
        assert((a + b).last() == b.last());
        assert(wide_row(a + b, row) =~= wide_row(a, row) + wide_row(b, row));
        assert(medium_row(a + b) =~= medium_row(a) + medium_row(b));
    }
}

/// The burst kinds are exactly those with a fixed headline, and a burst's
/// headline does not depend on its text.
pub proof fn law_burst_headline_is_fixed(kind: Option<Seq<char>>, text1: Seq<char>, text2: Seq<char>)
    ensures
        spec_is_burst_kind(kind) <==> (kind is Some && fixed_headline(trim(kind->0)) is Some),
        spec_is_burst_kind(kind) ==> spec_burst_headline(kind, text1) == spec_burst_headline(
            kind,
            text2,
        ),
{
}

// ---------------------------------------------------------------------------
// What each operation is for
// ---------------------------------------------------------------------------

/// The characters of a line, span after span.
pub open spec fn line_text(l: LineView) -> Seq<char>
    decreases l.len(),
{
    if l.len() == 0 {
        Seq::empty()
    } else {
        line_text(l.drop_last()) + l.last().0
    }
}

/// A rainbow line shows its text unchanged, one character per span.
pub proof fn lemma_rainbow_text(text: Seq<char>, phase: int, bold: bool)
    ensures
        line_text(rainbow_spec(text, phase, bold)) == text,
    decreases text.len(),
{
    if text.len() > 0 {
        lemma_rainbow_text(text.drop_last(), phase, bold);
        assert(rainbow_spec(text, phase, bold).drop_last() =~= rainbow_spec(
            text.drop_last(),
            phase,
            bold,
        ));
        assert(rainbow_spec(text, phase, bold).last().0 =~= seq![text.last()]);
        assert(text =~= text.drop_last() + seq![text.last()]);
    }
}

/// The letter a banner draws for `c`: lower-case ASCII letters in upper case,
/// upper-case letters, digits and dashes as they are, anything else as a gap.
pub open spec fn banner_letter(c: char) -> char {
    if 'a' <= c <= 'z' {
        ((c as u32) - 32) as char
    } else if ('A' <= c <= 'Z') || ('0' <= c <= '9') || c == '-' {
        c
    } else {
        ' '
    }
}

/// Normalising a banner character gives its banner letter.
pub proof fn law_banner_letter(c: char)
    ensures
        crate::banner::normalize_spec(c) == banner_letter(c),
{
}

/// Each character of a title takes five columns of each wide row: a gap is
/// five spaces; a letter `c` is ` ccc ` in the top and bottom rows and the
/// hollow ` c c ` in the middle row.
pub proof fn law_wide_rows_glyphs(t: Seq<char>, k: int)
    requires
        0 <= k < t.len(),
    ensures
        wide_row(t, 0).len() == 5 * t.len(),
        wide_row(t, 1).len() == 5 * t.len(),
        wide_row(t, 2).len() == 5 * t.len(),
        banner_letter(t[k]) == ' ' ==> wide_row(t, 0).subrange(5 * k, 5 * k + 5) == seq![' ', ' ', ' ', ' ', ' ']
            && wide_row(t, 1).subrange(5 * k, 5 * k + 5) == seq![' ', ' ', ' ', ' ', ' ']
            && wide_row(t, 2).subrange(5 * k, 5 * k + 5) == seq![' ', ' ', ' ', ' ', ' '],
        banner_letter(t[k]) != ' ' ==> wide_row(t, 0).subrange(5 * k, 5 * k + 5) == seq![
            ' ',
            banner_letter(t[k]),
            banner_letter(t[k]),
            banner_letter(t[k]),
            ' ',
        ] && wide_row(t, 1).subrange(5 * k, 5 * k + 5) == seq![
            ' ',
            banner_letter(t[k]),
            ' ',
            banner_letter(t[k]),
            ' ',
        ] && wide_row(t, 2).subrange(5 * k, 5 * k + 5) == seq![
            ' ',
            banner_letter(t[k]),
            banner_letter(t[k]),
            banner_letter(t[k]),
            ' ',
        ],
    decreases t.len(),
{
    law_title_rows_width(t);
    let p = t.drop_last();
    law_title_rows_width(p);
    if k < t.len() - 1 {
        law_wide_rows_glyphs(p, k);
        assert(p[k] == t[k]);
        assert(wide_row(t, 0).subrange(5 * k, 5 * k + 5) =~= wide_row(p, 0).subrange(5 * k, 5 * k + 5));
        assert(wide_row(t, 1).subrange(5 * k, 5 * k + 5) =~= wide_row(p, 1).subrange(5 * k, 5 * k + 5));
        assert(wide_row(t, 2).subrange(5 * k, 5 * k + 5) =~= wide_row(p, 2).subrange(5 * k, 5 * k + 5));
    } else {
        assert(t.last() == t[k]);
        law_banner_letter(t[k]);
        assert(wide_row(t, 0).subrange(5 * k, 5 * k + 5) =~= crate::banner::wide_glyph(banner_letter(t[k]), 0));
        assert(wide_row(t, 1).subrange(5 * k, 5 * k + 5) =~= crate::banner::wide_glyph(banner_letter(t[k]), 1));
        assert(wide_row(t, 2).subrange(5 * k, 5 * k + 5) =~= crate::banner::wide_glyph(banner_letter(t[k]), 2));
    }
}

/// A wide banner draws the headline's three wide rows in order, top, middle
/// (hollow) and bottom, each centred, right after the header; without
/// animations they are centred exactly, with them they may wobble one column.
pub proof fn law_wide_banner_rows_in_order(w: WidgetView, width: u16, now: u64)
    requires
        w.presence is Some,
        w.reaction is Some,
    ensures
        spec_banner_lines(w, width as int, BannerSize::Wide, now).len() == 6,
        forall|i: int|
            0 <= i < 3 ==> line_text(
                #[trigger] spec_banner_lines(w, width as int, BannerSize::Wide, now)[i + 1],
            ) == center_spec(
                wide_row(w.reaction->0.headline, i),
                width as int,
                crate::model::banner_wobble(
                    w,
                    width as int,
                    spec_banner_phase(w, now) as int,
                ),
            ),
        0 <= crate::model::banner_wobble(w, width as int, spec_banner_phase(w, now) as int) <= 1,
        !w.animations_enabled ==> crate::model::banner_wobble(
            w,
            width as int,
            spec_banner_phase(w, now) as int,
        ) == 0,
{
    let lines = spec_banner_lines(w, width as int, BannerSize::Wide, now);
    let phase = spec_banner_phase(w, now) as int;
    let wb = crate::model::banner_wobble(w, width as int, phase);
    let h = w.reaction->0.headline;
    assert forall|i: int| 0 <= i < 3 implies line_text(#[trigger] lines[i + 1]) == center_spec(
        wide_row(h, i),
        width as int,
        wb,
    ) by {
        assert(lines[i + 1] == rainbow_spec(
            center_spec(title_rows(h, BannerSize::Wide)[i], width as int, wb),
            phase + i + 1,
            true,
        ));
        assert(title_rows(h, BannerSize::Wide)[i] == wide_row(h, i));
        lemma_rainbow_text(center_spec(wide_row(h, i), width as int, wb), phase + i + 1, true);
    }
}

/// While the motion is a reaction and the animation has reaction frames, those
/// frames play from the reaction's start, at their own frame time or 180 ms.
pub proof fn law_reaction_frames_play(w: WidgetView, now: u64)
    requires
        w.presence is Some,
        w.presence->0.animation is Some,
        w.motion is Some,
        w.motion->0.kind == crate::model::CompanionMotionKind::Reaction,
        w.presence->0.animation->0.reaction_frames.len() > 0,
    ensures
        ({
            let a = w.presence->0.animation->0;
            let m = w.motion->0;
            let ms: u64 = match a.reaction_frame_ms {
                Some(v) => v,
                None => 180,
            };
            let elapsed: int = if now >= m.started_at {
                now - m.started_at
            } else {
                0
            };
            &&& crate::model::spec_active_frame_timeline(w) == Some((m.started_at, ms, a.reaction_frames))
            &&& (w.animations_enabled && ms > 0 ==> spec_current_frame(w, now) == Some(
                a.reaction_frames[(elapsed / (ms as int)) % (a.reaction_frames.len() as int)],
            ))
        }),
{
}

/// While the motion is petting and the animation has pet frames, those frames
/// play from the petting's start, at their own frame time or 120 ms.
pub proof fn law_pet_frames_play(w: WidgetView, now: u64)
    requires
        w.presence is Some,
        w.presence->0.animation is Some,
        w.motion is Some,
        w.motion->0.kind == crate::model::CompanionMotionKind::Pet,
        w.presence->0.animation->0.pet_frames.len() > 0,
    ensures
        ({
            let a = w.presence->0.animation->0;
            let m = w.motion->0;
            let ms: u64 = match a.pet_frame_ms {
                Some(v) => v,
                None => 120,
            };
            let elapsed: int = if now >= m.started_at {
                now - m.started_at
            } else {
                0
            };
            &&& crate::model::spec_active_frame_timeline(w) == Some((m.started_at, ms, a.pet_frames))
            &&& (w.animations_enabled && ms > 0 ==> spec_current_frame(w, now) == Some(
                a.pet_frames[(elapsed / (ms as int)) % (a.pet_frames.len() as int)],
            ))
        }),
{
}

/// With no motion, or a motion whose frames the animation lacks, the idle
/// frames play from the presence's arrival, at their own frame time or 500 ms;
/// with no idle frames either, no timeline plays and the face is drawn.
pub proof fn law_idle_frames_play(w: WidgetView, now: u64)
    requires
        w.presence is Some,
        w.presence->0.animation is Some,
        w.motion is None || (w.motion->0.kind == crate::model::CompanionMotionKind::Reaction
            && w.presence->0.animation->0.reaction_frames.len() == 0) || (w.motion->0.kind
            == crate::model::CompanionMotionKind::Pet
            && w.presence->0.animation->0.pet_frames.len() == 0),
    ensures
        ({
            let p = w.presence->0;
            let a = p.animation->0;
            let ms: u64 = match a.idle_frame_ms {
                Some(v) => v,
                None => 500,
            };
            &&& a.idle_frames.len() > 0 ==> crate::model::spec_active_frame_timeline(w) == Some(
                (p.updated_at, ms, a.idle_frames),
            )
            &&& a.idle_frames.len() == 0 ==> crate::model::spec_active_frame_timeline(w) is None
            &&& (!w.animations_enabled ==> spec_current_frame(w, now) == Some(p.face))
        }),
{
}

/// A presence event for the companion that keeps it visible and unmuted
/// leaves the reaction and the motion alone, and records its fields (label
/// and face defaulting to `Companion` and `o_o`, reservation to 20 columns).
pub proof fn law_visible_presence_keeps_reaction(w: WidgetView, e: EventView, now: u64)
    requires
        is_companion_event(e),
        e is Presence,
        e->Presence_visible,
        !e->Presence_muted,
    ensures
        apply_event(w, e, now).reaction == w.reaction,
        apply_event(w, e, now).motion == w.motion,
        apply_event(w, e, now).animations_enabled == w.animations_enabled,
        spec_is_visible(apply_event(w, e, now)),
        ({
            let p = apply_event(w, e, now).presence->0;
            &&& apply_event(w, e, now).presence is Some
            &&& p.label == match e->Presence_label {
                Some(l) => l,
                None => "Companion"@,
            }
            &&& p.face == match e->Presence_face {
                Some(f) => f,
                None => "o_o"@,
            }
            &&& p.subtitle == e->Presence_subtitle
            &&& p.badge == e->Presence_badge
            &&& p.color == e->Presence_color
            &&& p.species == e->Presence_species
            &&& p.animation == e->Presence_animation
            &&& p.reserved_columns == match e->Presence_reserved_columns {
                Some(c) => c,
                None => 20u16,
            }
            &&& p.updated_at == now
        }),
{
}

/// The companion's lines: a header of face, label and bracketed badge; the
/// reaction prefixed with `> `; and, unless the reaction sits beside the
/// composer, a detail line with the subtitle, else the species, else
/// `Companion active`.
pub proof fn law_render_lines_content(w: WidgetView, sidecar: bool, now: u64)
    requires
        w.presence is Some,
    ensures
        ({
            let lines = spec_render_lines(w, sidecar, now);
            let p = w.presence->0;
            &&& lines[0][0].0 == frame_or_face(w, now)
            &&& lines[0][1].0 == " "@
            &&& lines[0][2].0 == p.label
            &&& (p.badge is Some ==> lines[0].len() == 5 && lines[0][4].0 == seq!['['] + p.badge->0
                + seq![']'])
            &&& (p.badge is None ==> lines[0].len() == 3)
            &&& (w.reaction is Some ==> lines[1].len() == 1 && lines[1][0].0 == "> "@
                + w.reaction->0.text)
            &&& (!sidecar || w.reaction is None ==> {
                let detail = lines.last();
                &&& detail.len() == 1
                &&& detail[0].1 == crate::style::color_style(
                    crate::style::CompanionColor::DarkGray,
                    false,
                    false,
                )
                &&& (p.subtitle is Some ==> detail[0].0 == p.subtitle->0)
                &&& (p.subtitle is None && p.species is Some ==> detail[0].0 == p.species->0)
                &&& (p.subtitle is None && p.species is None ==> detail[0].0
                    == "Companion active"@)
            })
        }),
{
}

/// Each colour name parses to its colour, whatever its case and surrounding
/// white space; a name outside the list gives no colour.
pub proof fn law_color_names(v: Seq<char>)
    ensures
        crate::text::lower_seq(trim(v)) == "cyan"@ ==> crate::style::spec_parse_color(Some(v))
            == Some(crate::style::CompanionColor::Cyan),
        crate::text::lower_seq(trim(v)) == "blue"@ ==> crate::style::spec_parse_color(Some(v))
            == Some(crate::style::CompanionColor::Blue),
        crate::text::lower_seq(trim(v)) == "green"@ ==> crate::style::spec_parse_color(Some(v))
            == Some(crate::style::CompanionColor::Green),
        crate::text::lower_seq(trim(v)) == "yellow"@ ==> crate::style::spec_parse_color(Some(v))
            == Some(crate::style::CompanionColor::Yellow),
        crate::text::lower_seq(trim(v)) == "red"@ ==> crate::style::spec_parse_color(Some(v))
            == Some(crate::style::CompanionColor::Red),
        crate::text::lower_seq(trim(v)) == "magenta"@ ==> crate::style::spec_parse_color(Some(v))
            == Some(crate::style::CompanionColor::Magenta),
        crate::text::lower_seq(trim(v)) == "white"@ ==> crate::style::spec_parse_color(Some(v))
            == Some(crate::style::CompanionColor::White),
        crate::text::lower_seq(trim(v)) == "gray"@ ==> crate::style::spec_parse_color(Some(v))
            == Some(crate::style::CompanionColor::Gray),
        crate::text::lower_seq(trim(v)) == "grey"@ ==> crate::style::spec_parse_color(Some(v))
            == Some(crate::style::CompanionColor::Gray),
{
    reveal_strlit("cyan");
    reveal_strlit("blue");
    reveal_strlit("green");
    reveal_strlit("yellow");
    reveal_strlit("red");
    reveal_strlit("magenta");
    reveal_strlit("white");
    reveal_strlit("gray");
    reveal_strlit("grey");
    let t = trim(v);
    let l = crate::text::lower_seq(t);
    if l.len() > 0 && l[0] != '#' {
        lemma_lowered_head(t);
    }
}

/// Lower-casing keeps the length and maps the first character on its own,
/// so a trimmed value whose lower-cased form starts with a letter does not
/// start with `#`.
proof fn lemma_lowered_head(t: Seq<char>)
    requires
        crate::text::lower_seq(t).len() > 0,
        crate::text::lower_seq(t)[0] != '#',
    ensures
        t.len() > 0,
        t[0] != '#',
{
    assert(crate::text::lower_seq(t).len() == t.len());
    assert(crate::text::lower_seq(t)[0] == crate::text::ascii_lower(t[0]));
}

/// A companion reaction becomes the current reaction with its text and kind,
/// opens a banner exactly for the burst kinds, and starts a reaction motion at
/// `now`; both end after its time to live (ten seconds unless it gives one,
/// capped at the end of time). The presence is left as it was.
pub proof fn law_reaction_event_records(w: WidgetView, e: EventView, now: u64)
    requires
        is_companion_event(e),
        e is Reaction,
    ensures
        ({
            let w2 = apply_event(w, e, now);
            let ttl: int = match e->Reaction_ttl_ms {
                Some(t) => t as int,
                None => 10000,
            };
            let end: int = if now + ttl > u64::MAX {
                u64::MAX as int
            } else {
                now + ttl
            };
            let kind = e->Reaction_kind;
            &&& w2.presence == w.presence
            &&& w2.animations_enabled == w.animations_enabled
            &&& w2.reaction is Some
            &&& w2.reaction->0.text == e->Reaction_text
            &&& w2.reaction->0.kind == kind
            &&& w2.reaction->0.expires_at == end
            &&& w2.reaction->0.burst <==> (kind is Some && {
                let k = trim(kind->0);
                k == "pet"@ || k == "setup"@ || k == "rename"@ || k == "set-type"@ || k
                    == "hatch"@ || k == "burst"@ || k == "celebrate"@
            })
            &&& w2.motion == Some(
                crate::model::CompanionMotion {
                    kind: crate::model::CompanionMotionKind::Reaction,
                    started_at: now,
                    expires_at: end as u64,
                },
            )
        }),
{
}

/// Each burst kind has its own headline whatever the reaction says; any other
/// reaction is headlined by its own first words.
pub proof fn law_burst_headlines(k: Seq<char>, text: Seq<char>)
    ensures
        trim(k) == "pet"@ ==> spec_burst_headline(Some(k), text) == "PET PARTY"@,
        trim(k) == "setup"@ || trim(k) == "hatch"@ ==> spec_burst_headline(Some(k), text)
            == "NEW PAL"@,
        trim(k) == "rename"@ ==> spec_burst_headline(Some(k), text) == "NAME DROP"@,
        trim(k) == "set-type"@ ==> spec_burst_headline(Some(k), text) == "VIBE SHIFT"@,
        trim(k) == "burst"@ || trim(k) == "celebrate"@ ==> spec_burst_headline(Some(k), text)
            == "BUDDY WOW"@,
        !spec_is_burst_kind(Some(k)) ==> spec_burst_headline(Some(k), text)
            == crate::banner::text_headline(text),
        spec_burst_headline(None, text) == crate::banner::text_headline(text),
{
    reveal_strlit("pet");
    reveal_strlit("setup");
    reveal_strlit("hatch");
    reveal_strlit("rename");
    reveal_strlit("set-type");
    reveal_strlit("burst");
    reveal_strlit("celebrate");
    assert("pet"@.len() == 3 && "setup"@.len() == 5 && "hatch"@.len() == 5 && "burst"@.len() == 5
        && "rename"@.len() == 6 && "set-type"@.len() == 8 && "celebrate"@.len() == 9);
    assert("setup"@[0] == 's' && "hatch"@[0] == 'h' && "burst"@[0] == 'b');
    assert("setup"@ != "hatch"@ && "setup"@ != "burst"@ && "hatch"@ != "burst"@);
}

/// Petting starts a pet motion at `now` that ends after its time to live (two
/// and a half seconds unless it gives one, capped at the end of time); the
/// presence and the reaction are left as they were.
pub proof fn law_pet_event_starts_petting(w: WidgetView, e: EventView, now: u64)
    requires
        is_companion_event(e),
        e is Pet,
    ensures
        ({
            let w2 = apply_event(w, e, now);
            let ttl: int = match e->Pet_ttl_ms {
                Some(t) => t as int,
                None => 2500,
            };
            let end: int = if now + ttl > u64::MAX {
                u64::MAX as int
            } else {
                now + ttl
            };
            &&& w2.presence == w.presence
            &&& w2.reaction == w.reaction
            &&& w2.animations_enabled == w.animations_enabled
            &&& w2.motion == Some(
                crate::model::CompanionMotion {
                    kind: crate::model::CompanionMotionKind::Pet,
                    started_at: now,
                    expires_at: end as u64,
                },
            )
        }),
{
}

/// The text of a line with one more span is the old text followed by the
/// span's.
proof fn lemma_line_text_push(l: LineView, x: (Seq<char>, SpanStyle))
    ensures
        line_text(l.push(x)) == line_text(l) + x.0,
{
    assert(l.push(x).drop_last() =~= l);
}

/// A medium block letter is ` cc ` for a letter `c` and three spaces for a
/// gap, in both rows.
pub proof fn law_medium_row_glyph(c: char)
    ensures
        medium_row(seq![c]) == (if banner_letter(c) == ' ' {
            seq![' ', ' ', ' ']
        } else {
            seq![' ', banner_letter(c), banner_letter(c), ' ']
        }),
{
    law_banner_letter(c);
    assert(seq![c].drop_last() =~= Seq::<char>::empty());
    assert(medium_row(seq![c]) =~= medium_row(Seq::<char>::empty()) + crate::banner::medium_glyph(
        banner_letter(c),
    ));
    if banner_letter(c) == ' ' {
        assert(crate::banner::medium_glyph(' ') =~= seq![' ', ' ', ' ']);
    }
}

/// A banner's text, line by line: the upper-cased label in a pattern line;
/// the headline's block-letter rows (the one medium row twice, or the three
/// wide rows), centred, shifted one column on odd phases of a wide animated
/// float; the face, label and reaction fitted and centred; and a pattern line
/// with the upper-cased kind and `WOW`, or `BUDDY WOW` without a kind.
pub proof fn law_banner_lines_content(w: WidgetView, width: u16, size: BannerSize, now: u64)
    requires
        w.presence is Some,
        w.reaction is Some,
    ensures
        ({
            let lines = spec_banner_lines(w, width as int, size, now);
            let p = w.presence->0;
            let r = w.reaction->0;
            let phase = spec_banner_phase(w, now) as int;
            let n = banner_rows(size);
            let wobble: int = if w.animations_enabled && width > 56 && phase % 2 == 1 {
                1
            } else {
                0
            };
            let footer_label = match r.kind {
                Some(k) => seq![' '] + crate::text::upper_seq(k) + " / WOW / "@,
                None => " BUDDY WOW "@,
            };
            &&& lines.len() == n + 3
            &&& line_text(lines[0]) == pattern_spec(
                seq![' '] + crate::text::upper_seq(p.label) + seq![' '],
                width as int,
                phase,
            )
            &&& (size == BannerSize::Medium ==> line_text(lines[1]) == center_spec(
                medium_row(r.headline),
                width as int,
                wobble,
            ) && line_text(lines[2]) == center_spec(medium_row(r.headline), width as int, wobble))
            &&& line_text(lines[n + 1]) == center_spec(
                fit_spec(frame_or_face(w, now) + "  "@ + p.label + ": "@ + r.text, width as int),
                width as int,
                0,
            )
            &&& line_text(lines[n + 2]) == pattern_spec(footer_label, width as int, phase + 2)
        }),
{
    let lines = spec_banner_lines(w, width as int, size, now);
    let p = w.presence->0;
    let r = w.reaction->0;
    let phase = spec_banner_phase(w, now) as int;
    let n = banner_rows(size);
    let wb = crate::model::banner_wobble(w, width as int, phase);
    let rows = title_rows(r.headline, size);
    lemma_rainbow_text(
        pattern_spec(seq![' '] + crate::text::upper_seq(p.label) + seq![' '], width as int, phase),
        phase,
        true,
    );
    if size == BannerSize::Medium {
        assert(lines[1] == rainbow_spec(center_spec(rows[0], width as int, wb), phase + 1, true));
        assert(lines[2] == rainbow_spec(center_spec(rows[1], width as int, wb), phase + 2, true));
        lemma_rainbow_text(center_spec(medium_row(r.headline), width as int, wb), phase + 1, true);
        lemma_rainbow_text(center_spec(medium_row(r.headline), width as int, wb), phase + 2, true);
    }
    let detail = center_spec(
        fit_spec(crate::model::banner_detail(w, now), width as int),
        width as int,
        0,
    );
    let st = crate::style::color_style(crate::model::accent_of(p), true, true);
    assert(lines[n + 1] == seq![(detail, st)]);
    lemma_line_text_push(Seq::empty(), (detail, st));
    assert(Seq::<(Seq<char>, SpanStyle)>::empty().push((detail, st)) =~= seq![(detail, st)]);
    assert(line_text(Seq::<(Seq<char>, SpanStyle)>::empty()) =~= Seq::<char>::empty());
    assert(Seq::<char>::empty() + detail =~= detail);
    let footer = crate::model::banner_footer(r.kind, width as int, phase);
    assert(lines[n + 2] == rainbow_spec(footer, phase + 2, false));
    lemma_rainbow_text(footer, phase + 2, false);
}

/// The one-line float reads: face, a space, `<label> says:`, a space and the
/// reaction in double quotes.
pub proof fn law_compact_float_text(w: WidgetView, now: u64)
    requires
        w.presence is Some,
        w.reaction is Some,
    ensures
        spec_compact_float_lines(w, now).len() == 1,
        line_text(spec_compact_float_lines(w, now)[0]) == frame_or_face(w, now) + " "@
            + w.presence->0.label + " says:"@ + " "@ + seq!['"'] + w.reaction->0.text + seq!['"'],
{
    let l = spec_compact_float_lines(w, now)[0];
    let e = Seq::<(Seq<char>, SpanStyle)>::empty();
    assert(l =~= e.push(l[0]).push(l[1]).push(l[2]).push(l[3]).push(l[4]));
    lemma_line_text_push(e, l[0]);
    lemma_line_text_push(e.push(l[0]), l[1]);
    lemma_line_text_push(e.push(l[0]).push(l[1]), l[2]);
    lemma_line_text_push(e.push(l[0]).push(l[1]).push(l[2]), l[3]);
    lemma_line_text_push(e.push(l[0]).push(l[1]).push(l[2]).push(l[3]), l[4]);
    assert(line_text(e) =~= Seq::<char>::empty());
    assert(line_text(l) =~= frame_or_face(w, now) + " "@ + w.presence->0.label + " says:"@ + " "@
        + seq!['"'] + w.reaction->0.text + seq!['"']);
}


} // verus!

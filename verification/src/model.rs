//! The abstract state of the companion widget and the meaning of every
//! operation on it: how events change it, when it is visible, which lines it
//! draws and when it wants to be redrawn. Times are milliseconds on a
//! monotonic clock.
use vstd::prelude::*;
use crate::banner::{medium_row, wide_row};
use crate::protocol::{AnimationView, EventView};
use crate::style::{color_style, plain_style, rainbow_spec, spec_parse_color, spec_parse_color_panics, CompanionColor, SpanStyle};
use crate::text::{center_spec, fit_spec, pattern_spec, upper_seq};

verus! {

/// The columns a companion reserves beside the composer when a presence names none.
pub const DEFAULT_RESERVE_COLUMNS: u16 = 20;

/// The fewest columns a presence can reserve.
pub const MIN_RESERVE_COLUMNS: u16 = 14;

/// The narrowest composer that a sidecar companion leaves.
pub const MIN_COMPOSER_WIDTH: u16 = 36;

/// The gap between the composer and a sidecar companion.
pub const SIDE_GAP: u16 = 2;

/// The narrowest area in which a reaction floats above the composer.
pub const MIN_FLOAT_WIDTH: u16 = 28;

/// The narrowest area in which a burst reaction becomes a banner.
pub const MIN_BANNER_WIDTH: u16 = 48;

/// The narrowest area in which a banner uses the wide block letters.
pub const WIDE_BANNER_WIDTH: u16 = 76;

/// Frame time of idle animations that give none.
pub const DEFAULT_IDLE_FRAME_MS: u64 = 500;

/// Frame time of reaction animations that give none.
pub const DEFAULT_REACTION_FRAME_MS: u64 = 180;

/// Frame time of pet animations that give none.
pub const DEFAULT_PET_FRAME_MS: u64 = 120;

/// How long a reaction lasts when its event gives no time to live.
pub const DEFAULT_REACTION_TTL_MS: u64 = 10000;

/// How long petting lasts when its event gives no time to live.
pub const DEFAULT_PET_TTL_MS: u64 = 2500;

/// The interface's frame tick, which paces the banner's colour cycling.
pub const FRAME_TICK_MS: u64 = 80;

/// Which motion the companion is playing.
#[derive(Clone, Copy, Debug, PartialEq, Eq, Structural)]
pub enum CompanionMotionKind {
    Reaction,
    Pet,
}

/// A motion: what it is, when it started and when it ends.
#[derive(Clone, Copy, Debug, PartialEq, Eq, Structural)]
pub struct CompanionMotion {
    pub kind: CompanionMotionKind,
    pub started_at: u64,
    pub expires_at: u64,
}

/// The size of a banner's block letters.
#[derive(Clone, Copy, Debug, PartialEq, Eq, Structural)]
pub enum BannerSize {
    Medium,
    Wide,
}

/// How a reaction floats above the composer.
#[derive(Clone, Copy, Debug, PartialEq, Eq, Structural)]
pub enum CompanionReactionLayout {
    Compact,
    Banner(BannerSize),
}

/// The abstract value of the companion's presence.
pub struct PresenceView {
    pub visible: bool,
    pub muted: bool,
    pub label: Seq<char>,
    pub subtitle: Option<Seq<char>>,
    pub badge: Option<Seq<char>>,
    pub face: Seq<char>,
    pub color: Option<Seq<char>>,
    pub species: Option<Seq<char>>,
    pub reserved_columns: u16,
    pub animation: Option<AnimationView>,
    pub updated_at: u64,
}

/// The abstract value of the companion's current reaction.
pub struct ReactionView {
    pub text: Seq<char>,
    pub kind: Option<Seq<char>>,
    pub burst: bool,
    pub headline: Seq<char>,
    pub expires_at: u64,
}

/// The abstract value of the companion widget.
pub struct WidgetView {
    pub animations_enabled: bool,
    pub presence: Option<PresenceView>,
    pub reaction: Option<ReactionView>,
    pub motion: Option<CompanionMotion>,
}

/// A line of styled text, as the widget draws it.
pub type LineView = Seq<(Seq<char>, SpanStyle)>;

pub open spec fn unwrap_or_seq(o: Option<Seq<char>>, d: Seq<char>) -> Seq<char> {
    match o {
        Some(s) => s,
        None => d,
    }
}

pub open spec fn unwrap_or_u64(o: Option<u64>, d: u64) -> u64 {
    match o {
        Some(v) => v,
        None => d,
    }
}

/// `u64::saturating_add`.
pub open spec fn sat_add_u64(a: u64, b: u64) -> u64 {
    if a + b <= u64::MAX {
        (a + b) as u64
    } else {
        u64::MAX
    }
}

/// `u64::saturating_sub`.
pub open spec fn sat_sub_u64(a: u64, b: u64) -> u64 {
    if a >= b {
        (a - b) as u64
    } else {
        0
    }
}

/// The milliseconds from `now` until `target`, or zero once it has passed.
pub open spec fn spec_duration_until(now: u64, target: u64) -> u64 {
    sat_sub_u64(target, now)
}

/// The plugin name of the companion.
pub open spec fn companion_plugin() -> Seq<char> {
    "companion"@
}

/// The plugin an event comes from.
pub open spec fn event_plugin(e: EventView) -> Seq<char> {
    match e {
        EventView::Presence { plugin, .. } => plugin,
        EventView::Reaction { plugin, .. } => plugin,
        EventView::Pet { plugin, .. } => plugin,
    }
}

/// An event addressed to the companion.
pub open spec fn is_companion_event(e: EventView) -> bool {
    event_plugin(e) == companion_plugin()
}

// ---------------------------------------------------------------------------
// Events
// ---------------------------------------------------------------------------

/// The state after one event arrives at `now`.
pub open spec fn apply_event(w: WidgetView, e: EventView, now: u64) -> WidgetView {
    if !is_companion_event(e) {
        w
    } else {
        match e {
            EventView::Presence {
                visible,
                muted,
                label,
                subtitle,
                badge,
                face,
                color,
                species,
                reserved_columns,
                animation,
                ..
            } => {
                let p = PresenceView {
                    visible,
                    muted,
                    label: unwrap_or_seq(label, "Companion"@),
                    subtitle,
                    badge,
                    face: unwrap_or_seq(face, "o_o"@),
                    color,
                    species,
                    reserved_columns: match reserved_columns {
                        Some(c) => c,
                        None => DEFAULT_RESERVE_COLUMNS,
                    },
                    animation,
                    updated_at: now,
                };
                if !visible || muted {
                    WidgetView { presence: Some(p), reaction: None, motion: None, ..w }
                } else {
                    WidgetView { presence: Some(p), ..w }
                }
            },
            EventView::Reaction { text, kind, ttl_ms, .. } => {
                let expires = sat_add_u64(now, unwrap_or_u64(ttl_ms, DEFAULT_REACTION_TTL_MS));
                WidgetView {
                    reaction: Some(
                        ReactionView {
                            text,
                            kind,
                            burst: crate::banner::spec_is_burst_kind(kind),
                            headline: crate::banner::spec_burst_headline(kind, text),
                            expires_at: expires,
                        },
                    ),
                    motion: Some(
                        CompanionMotion {
                            kind: CompanionMotionKind::Reaction,
                            started_at: now,
                            expires_at: expires,
                        },
                    ),
                    ..w
                }
            },
            EventView::Pet { ttl_ms, .. } => {
                let expires = sat_add_u64(now, unwrap_or_u64(ttl_ms, DEFAULT_PET_TTL_MS));
                WidgetView {
                    motion: Some(
                        CompanionMotion {
                            kind: CompanionMotionKind::Pet,
                            started_at: now,
                            expires_at: expires,
                        },
                    ),
                    ..w
                }
            },
        }
    }
}

/// The state after a batch of events, applied in order, arrives at `now`.
pub open spec fn apply_all(w: WidgetView, events: Seq<EventView>, now: u64) -> WidgetView
    decreases events.len(),
{
    if events.len() == 0 {
        w
    } else {
        apply_event(apply_all(w, events.drop_last(), now), events.last(), now)
    }
}

/// Some event of the batch is addressed to the companion.
pub open spec fn any_companion_event(events: Seq<EventView>) -> bool {
    exists|i: int| 0 <= i < events.len() && is_companion_event(#[trigger] events[i])
}

/// The state after expired reactions and motions are dropped at `now`.
pub open spec fn spec_prune(w: WidgetView, now: u64) -> WidgetView {
    WidgetView {
        reaction: match w.reaction {
            Some(r) => if r.expires_at <= now {
                None
            } else {
                Some(r)
            },
            None => None,
        },
        motion: match w.motion {
            Some(m) => if m.expires_at <= now {
                None
            } else {
                Some(m)
            },
            None => None,
        },
        ..w
    }
}

/// Something expires at `now`.
pub open spec fn spec_prune_changes(w: WidgetView, now: u64) -> bool {
    (w.reaction is Some && w.reaction->0.expires_at <= now) || (w.motion is Some
        && w.motion->0.expires_at <= now)
}

// ---------------------------------------------------------------------------
// Visibility and size
// ---------------------------------------------------------------------------

pub open spec fn spec_is_visible(w: WidgetView) -> bool {
    w.presence is Some && w.presence->0.visible && !w.presence->0.muted
}

pub open spec fn spec_reserve_columns(w: WidgetView) -> u16 {
    match w.presence {
        Some(p) => if p.reserved_columns >= MIN_RESERVE_COLUMNS {
            p.reserved_columns
        } else {
            MIN_RESERVE_COLUMNS
        },
        None => DEFAULT_RESERVE_COLUMNS,
    }
}

/// `u16::saturating_add`.
pub open spec fn sat_add_u16(a: u16, b: u16) -> u16 {
    if a + b <= u16::MAX {
        (a + b) as u16
    } else {
        u16::MAX
    }
}

/// `u16::saturating_sub`.
pub open spec fn sat_sub_u16(a: u16, b: u16) -> u16 {
    if a >= b {
        (a - b) as u16
    } else {
        0
    }
}

pub open spec fn spec_can_render_sidecar(w: WidgetView, width: u16) -> bool {
    spec_is_visible(w) && width >= sat_add_u16(
        sat_add_u16(MIN_COMPOSER_WIDTH, SIDE_GAP),
        spec_reserve_columns(w),
    )
}

pub open spec fn spec_desired_height_for_width(w: WidgetView, width: u16, sidecar: bool) -> u16 {
    if !spec_is_visible(w) || width == 0 {
        0
    } else {
        let lines: u16 = if w.reaction is Some || !sidecar {
            3
        } else {
            2
        };
        if lines <= width {
            lines
        } else {
            width
        }
    }
}

pub open spec fn spec_should_render_float(w: WidgetView, width: u16) -> bool {
    spec_is_visible(w) && w.reaction is Some && width >= MIN_FLOAT_WIDTH
}

pub open spec fn spec_reaction_layout(w: WidgetView, width: u16) -> Option<CompanionReactionLayout> {
    match w.reaction {
        None => None,
        Some(r) => if !spec_is_visible(w) || width < MIN_FLOAT_WIDTH {
            None
        } else if !r.burst || width < MIN_BANNER_WIDTH {
            Some(CompanionReactionLayout::Compact)
        } else if width >= WIDE_BANNER_WIDTH {
            Some(CompanionReactionLayout::Banner(BannerSize::Wide))
        } else {
            Some(CompanionReactionLayout::Banner(BannerSize::Medium))
        },
    }
}

// ---------------------------------------------------------------------------
// Animation
// ---------------------------------------------------------------------------

/// The frames playing now, with the time they started and their frame time:
/// those of the current motion if the animation has some, else the idle ones.
pub open spec fn spec_active_frame_timeline(w: WidgetView) -> Option<(u64, u64, Seq<Seq<char>>)> {
    match w.presence {
        None => None,
        Some(p) => match p.animation {
            None => None,
            Some(a) => {
                if w.motion is Some && w.motion->0.kind == CompanionMotionKind::Reaction
                    && a.reaction_frames.len() > 0 {
                    Some(
                        (
                            w.motion->0.started_at,
                            unwrap_or_u64(a.reaction_frame_ms, DEFAULT_REACTION_FRAME_MS),
                            a.reaction_frames,
                        ),
                    )
                } else if w.motion is Some && w.motion->0.kind == CompanionMotionKind::Pet
                    && a.pet_frames.len() > 0 {
                    Some(
                        (
                            w.motion->0.started_at,
                            unwrap_or_u64(a.pet_frame_ms, DEFAULT_PET_FRAME_MS),
                            a.pet_frames,
                        ),
                    )
                } else if a.idle_frames.len() > 0 {
                    Some(
                        (
                            p.updated_at,
                            unwrap_or_u64(a.idle_frame_ms, DEFAULT_IDLE_FRAME_MS),
                            a.idle_frames,
                        ),
                    )
                } else {
                    None
                }
            },
        },
    }
}

/// The face to draw at `now`.
pub open spec fn spec_current_frame(w: WidgetView, now: u64) -> Option<Seq<char>> {
    match w.presence {
        None => None,
        Some(p) => if !w.animations_enabled {
            Some(p.face)
        } else {
            match spec_active_frame_timeline(w) {
                None => None,
                Some(t) => {
                    let (started, frame_ms, frames) = t;
                    if frames.len() == 0 || frame_ms == 0 {
                        Some(p.face)
                    } else {
                        let elapsed = sat_sub_u64(now, started);
                        Some(frames[((elapsed / frame_ms) as int) % (frames.len() as int)])
                    }
                }
            }
        },
    }
}

/// The face to draw at `now`, falling back to the presence's own face.
pub open spec fn frame_or_face(w: WidgetView, now: u64) -> Seq<char> {
    match spec_current_frame(w, now) {
        Some(f) => f,
        None => w.presence->0.face,
    }
}

/// When the banner's colour cycle started.
pub open spec fn spec_banner_started_at(w: WidgetView, now: u64) -> u64 {
    match w.motion {
        Some(m) => m.started_at,
        None => match w.presence {
            Some(p) => p.updated_at,
            None => now,
        },
    }
}

/// The step of the banner's colour cycle at `now`; always zero without animations.
pub open spec fn spec_banner_phase(w: WidgetView, now: u64) -> usize {
    if !w.animations_enabled {
        0
    } else {
        (sat_sub_u64(now, spec_banner_started_at(w, now)) / FRAME_TICK_MS) as usize
    }
}

/// The milliseconds until the next tick of a `period`-long cycle that started
/// at `started`.
pub open spec fn tick_delay(now: u64, started: u64, period: u64) -> u64 {
    let rem = sat_sub_u64(now, started) % period;
    if rem == 0 {
        period
    } else {
        (period - rem) as u64
    }
}

pub open spec fn min_delay(current: Option<u64>, d: u64) -> u64 {
    match current {
        Some(c) => if c <= d {
            c
        } else {
            d
        },
        None => d,
    }
}

/// The milliseconds until the widget next needs a redraw at `now`: when its
/// motion (or else its reaction) expires, and, with animations on, the next
/// animation frame and the next banner colour step.
pub open spec fn spec_next_frame_delay(w: WidgetView, now: u64) -> Option<u64> {
    if !spec_is_visible(w) {
        None
    } else {
        let expiry: Option<u64> = match w.motion {
            Some(m) => Some(spec_duration_until(now, m.expires_at)),
            None => match w.reaction {
                Some(r) => Some(spec_duration_until(now, r.expires_at)),
                None => None,
            },
        };
        if !w.animations_enabled {
            expiry
        } else {
            let with_frames: Option<u64> = match spec_active_frame_timeline(w) {
                Some(t) => {
                    let (started, frame_ms, frames) = t;
                    if frames.len() > 1 && frame_ms > 0 {
                        Some(min_delay(expiry, tick_delay(now, started, frame_ms)))
                    } else {
                        expiry
                    }
                },
                None => expiry,
            };
            if w.reaction is Some && w.reaction->0.burst {
                Some(
                    min_delay(
                        with_frames,
                        tick_delay(now, spec_banner_started_at(w, now), FRAME_TICK_MS),
                    ),
                )
            } else {
                with_frames
            }
        }
    }
}

// ---------------------------------------------------------------------------
// Lines
// ---------------------------------------------------------------------------

/// The presence's accent colour, cyan when it names none.
pub open spec fn accent_of(p: PresenceView) -> CompanionColor {
    match spec_parse_color(p.color) {
        Some(c) => c,
        None => CompanionColor::Cyan,
    }
}

/// Parsing the presence's colour does not panic.
pub open spec fn color_ok(w: WidgetView) -> bool {
    match w.presence {
        Some(p) => !spec_parse_color_panics(p.color),
        None => true,
    }
}

/// The header, the reaction line and the detail line of the companion.
pub open spec fn spec_render_lines(w: WidgetView, sidecar: bool, now: u64) -> Seq<LineView> {
    match w.presence {
        None => Seq::empty(),
        Some(p) => {
            let accent = accent_of(p);
            let strong = color_style(accent, true, false);
            let header: LineView = seq![
                (frame_or_face(w, now), strong),
                (" "@, plain_style()),
                (p.label, strong),
            ] + match p.badge {
                Some(b) => seq![
                    (" "@, plain_style()),
                    (seq!['['] + b + seq![']'], color_style(accent, false, false)),
                ],
                None => Seq::empty(),
            };
            let with_reaction: Seq<LineView> = match w.reaction {
                Some(r) => seq![header, seq![("> "@ + r.text, color_style(accent, false, false))]],
                None => seq![header],
            };
            let detail = match p.subtitle {
                Some(s) => s,
                None => unwrap_or_seq(p.species, "Companion active"@),
            };
            if !sidecar || w.reaction is None {
                with_reaction.push(
                    seq![(detail, color_style(CompanionColor::DarkGray, false, false))],
                )
            } else {
                with_reaction
            }
        },
    }
}

/// The one-line float: face, `<label> says:` and the quoted reaction.
pub open spec fn spec_compact_float_lines(w: WidgetView, now: u64) -> Seq<LineView> {
    if w.presence is None || w.reaction is None {
        Seq::empty()
    } else {
        let p = w.presence->0;
        let r = w.reaction->0;
        let accent = accent_of(p);
        seq![
            seq![
                (frame_or_face(w, now), color_style(accent, true, false)),
                (" "@, plain_style()),
                (p.label + " says:"@, color_style(accent, true, false)),
                (" "@, plain_style()),
                (seq!['"'] + r.text + seq!['"'], color_style(accent, false, true)),
            ],
        ]
    }
}

/// The rows of the headline in block letters of the given size.
pub open spec fn title_rows(headline: Seq<char>, size: BannerSize) -> Seq<Seq<char>> {
    match size {
        BannerSize::Medium => seq![medium_row(headline), medium_row(headline)],
        BannerSize::Wide => seq![wide_row(headline, 0), wide_row(headline, 1), wide_row(headline, 2)],
    }
}

/// The banner's detail text before it is fitted: face, label and reaction.
pub open spec fn banner_detail(w: WidgetView, now: u64) -> Seq<char> {
    frame_or_face(w, now) + "  "@ + w.presence->0.label + ": "@ + w.reaction->0.text
}

/// The banner's footer text.
pub open spec fn banner_footer(kind: Option<Seq<char>>, width: int, phase: int) -> Seq<char> {
    match kind {
        Some(k) => pattern_spec(seq![' '] + upper_seq(k) + " / WOW / "@, width, phase + 2),
        None => pattern_spec(" BUDDY WOW "@, width, phase + 2),
    }
}

/// The wobble of the title rows: odd phases shift them one column on wide,
/// animated banners.
pub open spec fn banner_wobble(w: WidgetView, width: int, phase: int) -> int {
    if w.animations_enabled && width > 56 && phase % 2 == 1 {
        1
    } else {
        0
    }
}

/// The banner: a patterned header with the label, the headline in block
/// letters, the detail line and a patterned footer with the kind.
pub open spec fn spec_banner_lines(w: WidgetView, width: int, size: BannerSize, now: u64) -> Seq<LineView> {
    if w.presence is None || w.reaction is None {
        Seq::empty()
    } else {
        let p = w.presence->0;
        let r = w.reaction->0;
        let phase = spec_banner_phase(w, now) as int;
        let rows = title_rows(r.headline, size);
        let wobble = banner_wobble(w, width, phase);
        let header = rainbow_spec(
            pattern_spec(seq![' '] + upper_seq(p.label) + seq![' '], width, phase),
            phase,
            true,
        );
        let title = Seq::new(
            rows.len(),
            |i: int| rainbow_spec(center_spec(rows[i], width, wobble), phase + i + 1, true),
        );
        let detail = fit_spec(banner_detail(w, now), width);
        let detail_line: LineView = seq![
            (center_spec(detail, width, 0), color_style(accent_of(p), true, true)),
        ];
        seq![header] + title + seq![
            detail_line,
            rainbow_spec(banner_footer(r.kind, width, phase), phase + 2, false),
        ]
    }
}

/// The number of block-letter rows of a banner of this size.
pub open spec fn banner_rows(size: BannerSize) -> int {
    match size {
        BannerSize::Medium => 2,
        BannerSize::Wide => 3,
    }
}

/// The banner's colour arithmetic (phase plus column) stays within `usize`.
pub open spec fn banner_fits(w: WidgetView, width: u16, size: BannerSize, now: u64) -> bool {
    spec_banner_phase(w, now) + (if width == 0 {
        1
    } else {
        width as int
    }) + banner_rows(size) - 1 <= usize::MAX
}

/// The lines of the floating reaction in the layout that `width` allows.
pub open spec fn spec_reaction_lines(w: WidgetView, width: u16, now: u64) -> Seq<LineView> {
    match spec_reaction_layout(w, width) {
        Some(CompanionReactionLayout::Banner(size)) => spec_banner_lines(w, width as int, size, now),
        Some(CompanionReactionLayout::Compact) => spec_compact_float_lines(w, now),
        None => Seq::empty(),
    }
}

/// The floating reaction can be drawn at `width` without panicking.
pub open spec fn reaction_lines_ok(w: WidgetView, width: u16, now: u64) -> bool {
    match spec_reaction_layout(w, width) {
        None => true,
        Some(CompanionReactionLayout::Compact) => color_ok(w),
        Some(CompanionReactionLayout::Banner(size)) => color_ok(w) && banner_fits(w, width, size, now),
    }
}

/// The text of each span of each line.
pub open spec fn line_texts(lines: Seq<LineView>) -> Seq<Seq<Seq<char>>> {
    lines.map_values(|l: LineView| l.map_values(|s: (Seq<char>, SpanStyle)| s.0))
}

} // verus!

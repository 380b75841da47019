//! The companion widget: its state, how plugin events change it, and the
//! lines it draws.
use vstd::prelude::*;
use crate::banner::{burst_headline, is_burst_kind, medium_title_rows, opt_str_view, wide_title_rows};
use crate::model::{
    accent_of, any_companion_event, apply_all, apply_event, banner_detail, banner_footer,
    banner_fits, banner_wobble, color_ok, frame_or_face, is_companion_event, line_texts,
    reaction_lines_ok, spec_active_frame_timeline,
    spec_banner_lines, spec_banner_phase, spec_banner_started_at, spec_can_render_sidecar,
    spec_compact_float_lines, spec_current_frame, spec_desired_height_for_width,
    spec_duration_until, spec_is_visible, spec_next_frame_delay, spec_prune,
    spec_prune_changes, spec_reaction_layout, spec_reaction_lines, spec_render_lines,
    spec_reserve_columns, spec_should_render_float, title_rows, BannerSize,
    CompanionMotion, CompanionMotionKind, CompanionReactionLayout, PresenceView, ReactionView,
    WidgetView, DEFAULT_IDLE_FRAME_MS, DEFAULT_PET_FRAME_MS, DEFAULT_PET_TTL_MS,
    DEFAULT_REACTION_FRAME_MS, DEFAULT_REACTION_TTL_MS, DEFAULT_RESERVE_COLUMNS, FRAME_TICK_MS,
    MIN_BANNER_WIDTH, MIN_COMPOSER_WIDTH, MIN_FLOAT_WIDTH, MIN_RESERVE_COLUMNS, SIDE_GAP,
    WIDE_BANNER_WIDTH,
};
use crate::protocol::{
    clone_opt_animation, clone_opt_string, events_view, opt_string_view, strings_view,
    PluginUiAnimation, PluginUiEvent,
};
use crate::style::{
    color_style, lines_view, parse_color, plain_style, rainbow_line, rainbow_spec, CompanionColor,
    SpanStyle, StyledLine, StyledSpan,
};
use crate::terminal::{paragraph_line_count, wrapped_line_count, MAX_WRAP_WIDTH};
use crate::text::{
    center_chars, center_spec, chars_of, fit_chars, fit_spec, lemma_center_len, pattern_chars,
    pattern_spec, push_all, push_str, same_chars, string_from_chars, upper_chars, upper_seq,
};

verus! {

/// What a plugin said about the companion last.
pub struct CompanionPresence {
    visible: bool,
    muted: bool,
    label: String,
    subtitle: Option<String>,
    badge: Option<String>,
    face: String,
    color: Option<String>,
    species: Option<String>,
    reserved_columns: u16,
    animation: Option<PluginUiAnimation>,
    updated_at: u64,
}

/// The reaction the companion is showing.
pub struct CompanionReaction {
    text: String,
    kind: Option<String>,
    burst: bool,
    headline: String,
    expires_at: u64,
}

/// The companion widget.
pub struct CompanionWidget {
    animations_enabled: bool,
    presence: Option<CompanionPresence>,
    reaction: Option<CompanionReaction>,
    motion: Option<CompanionMotion>,
}

impl View for CompanionPresence {
    type V = PresenceView;

    closed spec fn view(&self) -> PresenceView {
        PresenceView {
            visible: self.visible,
            muted: self.muted,
            label: self.label@,
            subtitle: opt_string_view(self.subtitle),
            badge: opt_string_view(self.badge),
            face: self.face@,
            color: opt_string_view(self.color),
            species: opt_string_view(self.species),
            reserved_columns: self.reserved_columns,
            animation: match self.animation {
                Some(a) => Some(a@),
                None => None,
            },
            updated_at: self.updated_at,
        }
    }
}

impl View for CompanionReaction {
    type V = ReactionView;

    closed spec fn view(&self) -> ReactionView {
        ReactionView {
            text: self.text@,
            kind: opt_string_view(self.kind),
            burst: self.burst,
            headline: self.headline@,
            expires_at: self.expires_at,
        }
    }
}

impl View for CompanionWidget {
    type V = WidgetView;

    closed spec fn view(&self) -> WidgetView {
        WidgetView {
            animations_enabled: self.animations_enabled,
            presence: match self.presence {
                Some(p) => Some(p@),
                None => None,
            },
            reaction: match self.reaction {
                Some(r) => Some(r@),
                None => None,
            },
            motion: self.motion,
        }
    }
}

/// `Option<String>` as `Option<&str>`.
fn opt_as_str(o: &Option<String>) -> (r: Option<&str>)
    ensures
        opt_str_view(r) == opt_string_view(*o),
{
    match o {
        Some(s) => Some(s.as_str()),
        None => None,
    }
}

/// A span holding `chars`.
fn span_of(chars: &Vec<char>, style: SpanStyle) -> (r: StyledSpan)
    ensures
        r@ == (chars@, style),
{
    StyledSpan::new(string_from_chars(chars.as_slice()), style)
}

/// A span holding a copy of `s`.
fn span_of_str(s: &str, style: SpanStyle) -> (r: StyledSpan)
    ensures
        r@ == (s@, style),
{
    let v = chars_of(s);
    span_of(&v, style)
}

/// The milliseconds from `now` until `target`, or zero once `target` has passed.
pub fn duration_until(now: u64, target: u64) -> (r: u64)
    ensures
        r == spec_duration_until(now, target),
{
    target.saturating_sub(now)
}

/// The float's height for a wrapped line count: the count itself, or zero
/// when it does not fit in a `u16`.
pub fn float_height_from_count(count: usize) -> (r: u16)
    ensures
        r == (if count <= u16::MAX {
            count as u16
        } else {
            0
        }),
{
    if count <= 65535 {
        count as u16
    } else {
        0
    }
}

impl CompanionWidget {
    /// A widget with no presence, reaction or motion yet.
    pub fn new(animations_enabled: bool) -> (r: Self)
        ensures
            r@ == (WidgetView {
                animations_enabled,
                presence: None,
                reaction: None,
                motion: None,
            }),
    {
        CompanionWidget { animations_enabled, presence: None, reaction: None, motion: None }
    }

    fn apply_event(&mut self, event: &PluginUiEvent, now: u64) -> (hit: bool)
        ensures
            final(self)@ == apply_event(old(self)@, event@, now),
            hit == is_companion_event(event@),
    {
        match event {
            PluginUiEvent::Presence {
                plugin,
                visible,
                muted,
                label,
                subtitle,
                badge,
                face,
                color,
                species,
                reserved_columns,
                animation,
            } => {
                let pv = chars_of(plugin.as_str());
                if !same_chars(&pv, "companion") {
                    return false;
                }
                let label = match label {
                    Some(l) => l.clone(),
                    None => "Companion".to_string(),
                };
                let face = match face {
                    Some(f) => f.clone(),
                    None => "o_o".to_string(),
                };
                self.presence = Some(
                    CompanionPresence {
                        visible: *visible,
                        muted: *muted,
                        label,
                        subtitle: clone_opt_string(subtitle),
                        badge: clone_opt_string(badge),
                        face,
                        color: clone_opt_string(color),
                        species: clone_opt_string(species),
                        reserved_columns: match reserved_columns {
                            Some(c) => *c,
                            None => DEFAULT_RESERVE_COLUMNS,
                        },
                        animation: clone_opt_animation(animation),
                        updated_at: now,
                    },
                );
                if !*visible || *muted {
                    self.reaction = None;
                    self.motion = None;
                }
                true
            },
            PluginUiEvent::Reaction { plugin, text, kind, ttl_ms } => {
                let pv = chars_of(plugin.as_str());
                if !same_chars(&pv, "companion") {
                    return false;
                }
                let ttl = match ttl_ms {
                    Some(t) => *t,
                    None => DEFAULT_REACTION_TTL_MS,
                };
                let expires_at = now.saturating_add(ttl);
                let kind_str = opt_as_str(kind);
                self.reaction = Some(
                    CompanionReaction {
                        text: text.clone(),
                        kind: clone_opt_string(kind),
                        burst: is_burst_kind(kind_str),
                        headline: burst_headline(kind_str, text.as_str()),
                        expires_at,
                    },
                );
                self.motion = Some(
                    CompanionMotion {
                        kind: CompanionMotionKind::Reaction,
                        started_at: now,
                        expires_at,
                    },
                );
                true
            },
            PluginUiEvent::Pet { plugin, ttl_ms } => {
                let pv = chars_of(plugin.as_str());
                if !same_chars(&pv, "companion") {
                    return false;
                }
                let ttl = match ttl_ms {
                    Some(t) => *t,
                    None => DEFAULT_PET_TTL_MS,
                };
                self.motion = Some(
                    CompanionMotion {
                        kind: CompanionMotionKind::Pet,
                        started_at: now,
                        expires_at: now.saturating_add(ttl),
                    },
                );
                true
            },
        }
    }

    /// Applies a batch of plugin events that arrived at `now`, in order;
    /// answers whether any of them was addressed to the companion.
    pub fn apply_events(&mut self, events: &[PluginUiEvent], now: u64) -> (changed: bool)
        ensures
            final(self)@ == apply_all(old(self)@, events_view(events@), now),
            changed == any_companion_event(events_view(events@)),
    {
        let ghost evs = events_view(events@);
        let mut changed = false;
        for i in 0..events.len()
            invariant
                evs == events_view(events@),
                self@ == apply_all(old(self)@, evs.take(i as int), now),
                changed == any_companion_event(evs.take(i as int)),
        {
            let hit = self.apply_event(&events[i], now);
            assert(evs.take(i + 1).drop_last() =~= evs.take(i as int));
            assert(evs.take(i + 1).last() == events@[i as int]@);
            proof {
                if changed {
                    let k = choose|k: int|
                        0 <= k < i && is_companion_event(#[trigger] evs.take(i as int)[k]);
                    assert(evs.take(i + 1)[k] == evs.take(i as int)[k]);
                }
                if hit {
                    assert(is_companion_event(evs.take(i + 1)[i as int]));
                }
                if !changed && !hit {
                    assert forall|k: int| 0 <= k < i + 1 implies !is_companion_event(
                        #[trigger] evs.take(i + 1)[k],
                    ) by {
                        if k < i {
                            assert(evs.take(i + 1)[k] == evs.take(i as int)[k]);
                        }
                    }
                }
            }
            changed = changed || hit;
        }
        assert(evs.take(events@.len() as int) =~= evs);
        changed
    }

    /// Drops the reaction and the motion once they have expired at `now`;
    /// answers whether anything was dropped.
    pub fn prune_expired(&mut self, now: u64) -> (changed: bool)
        ensures
            final(self)@ == spec_prune(old(self)@, now),
            changed == spec_prune_changes(old(self)@, now),
    {
        let mut changed = false;
        let reaction_expired = match &self.reaction {
            Some(r) => r.expires_at <= now,
            None => false,
        };
        if reaction_expired {
            self.reaction = None;
            changed = true;
        }
        let motion_expired = match &self.motion {
            Some(m) => m.expires_at <= now,
            None => false,
        };
        if motion_expired {
            self.motion = None;
            changed = true;
        }
        changed
    }

    /// The companion is shown: a presence says it is visible and not muted.
    pub fn is_visible(&self) -> (r: bool)
        ensures
            r == spec_is_visible(self@),
    {
        match &self.presence {
            Some(p) => p.visible && !p.muted,
            None => false,
        }
    }

    /// The columns the companion takes beside the composer.
    pub fn reserve_columns(&self) -> (r: u16)
        ensures
            r == spec_reserve_columns(self@),
    {
        match &self.presence {
            Some(p) => if p.reserved_columns >= MIN_RESERVE_COLUMNS {
                p.reserved_columns
            } else {
                MIN_RESERVE_COLUMNS
            },
            None => DEFAULT_RESERVE_COLUMNS,
        }
    }

    /// The companion fits beside a composer in `width` columns.
    pub fn can_render_sidecar(&self, width: u16) -> (r: bool)
        ensures
            r == spec_can_render_sidecar(self@, width),
    {
        self.is_visible() && width >= MIN_COMPOSER_WIDTH.saturating_add(SIDE_GAP).saturating_add(
            self.reserve_columns(),
        )
    }

    /// The rows the companion wants in `width` columns, beside the composer
    /// or above it.
    pub fn desired_height_for_width(&self, width: u16, sidecar: bool) -> (r: u16)
        ensures
            r == spec_desired_height_for_width(self@, width, sidecar),
    {
        if !self.is_visible() || width == 0 {
            return 0;
        }
        let mut lines: u16 = 2;
        if self.reaction.is_some() || !sidecar {
            lines = lines + 1;
        }
        if lines <= width {
            lines
        } else {
            width
        }
    }

    /// A reaction floats above the composer in `width` columns.
    pub fn should_render_float(&self, width: u16) -> (r: bool)
        ensures
            r == spec_should_render_float(self@, width),
    {
        self.is_visible() && self.reaction.is_some() && width >= MIN_FLOAT_WIDTH
    }

    /// The rows the floating reaction takes in `width` columns at `now`, once
    /// its lines are wrapped.
    pub fn desired_float_height(&self, width: u16, now: u64) -> (r: u16)
        requires
            spec_should_render_float(self@, width) ==> reaction_lines_ok(self@, width, now)
                && width <= MAX_WRAP_WIDTH,
        ensures
            r == (if !spec_should_render_float(self@, width) {
                0
            } else {
                let c = wrapped_line_count(line_texts(spec_reaction_lines(self@, width, now)), width);
                if c <= u16::MAX {
                    c as u16
                } else {
                    0
                }
            }),
    {
        if !self.should_render_float(width) {
            return 0;
        }
        let lines = self.reaction_lines(width, now);
        let count = paragraph_line_count(&lines, width);
        float_height_from_count(count)
    }

    /// The milliseconds until the widget next needs a redraw, if it does.
    pub fn schedule_next_frame_delay(&self, now: u64) -> (r: Option<u64>)
        ensures
            r == spec_next_frame_delay(self@, now),
    {
        if !self.is_visible() {
            return None;
        }
        let mut next_delay: Option<u64> = match &self.motion {
            Some(m) => Some(duration_until(now, m.expires_at)),
            None => match &self.reaction {
                Some(r) => Some(duration_until(now, r.expires_at)),
                None => None,
            },
        };
        if self.animations_enabled {
            match self.active_frame_timeline() {
                Some((started_at, frame_ms, frames)) => {
                    if frames.len() > 1 && frame_ms > 0 {
                        let elapsed = now.saturating_sub(started_at);
                        let rem = elapsed % frame_ms;
                        let delay = if rem == 0 {
                            frame_ms
                        } else {
                            frame_ms - rem
                        };
                        next_delay = Some(
                            match next_delay {
                                Some(c) => if c <= delay {
                                    c
                                } else {
                                    delay
                                },
                                None => delay,
                            },
                        );
                    }
                },
                None => {},
            }
            let burst = match &self.reaction {
                Some(r) => r.burst,
                None => false,
            };
            if burst {
                let elapsed = now.saturating_sub(self.banner_started_at(now));
                let rem = elapsed % FRAME_TICK_MS;
                let delay = if rem == 0 {
                    FRAME_TICK_MS
                } else {
                    FRAME_TICK_MS - rem
                };
                next_delay = Some(
                    match next_delay {
                        Some(c) => if c <= delay {
                            c
                        } else {
                            delay
                        },
                        None => delay,
                    },
                );
            }
        }
        next_delay
    }

    /// The companion's lines for an area of `width` by `height`, or nothing
    /// when it is hidden or the area is empty.
    pub fn render(&self, width: u16, height: u16, sidecar: bool, now: u64) -> (r: Option<
        Vec<StyledLine>,
    >)
        requires
            spec_is_visible(self@) && width > 0 && height > 0 ==> color_ok(self@),
        ensures
            match r {
                None => !spec_is_visible(self@) || width == 0 || height == 0,
                Some(lines) => spec_is_visible(self@) && width > 0 && height > 0 && lines_view(
                    lines@,
                ) == spec_render_lines(self@, sidecar, now),
            },
    {
        if !self.is_visible() || width == 0 || height == 0 {
            return None;
        }
        Some(self.render_lines(sidecar, now))
    }

    /// The floating reaction's lines for an area of `width` by `height`, or
    /// nothing when no reaction floats there.
    pub fn render_float(&self, width: u16, height: u16, now: u64) -> (r: Option<Vec<StyledLine>>)
        requires
            width > 0 && height > 0 && spec_should_render_float(self@, width) ==> reaction_lines_ok(
                self@,
                width,
                now,
            ),
        ensures
            match r {
                None => width == 0 || height == 0 || !spec_should_render_float(self@, width),
                Some(lines) => width > 0 && height > 0 && spec_should_render_float(self@, width)
                    && lines_view(lines@) == spec_reaction_lines(self@, width, now),
            },
    {
        if width == 0 || height == 0 || !self.should_render_float(width) {
            return None;
        }
        Some(self.reaction_lines(width, now))
    }

    /// Whether drawing the companion would cut a multi-byte character while
    /// reading its accent colour.
    pub fn color_parse_panics(&self) -> (r: bool)
        ensures
            r == !color_ok(self@),
    {
        match &self.presence {
            Some(p) => crate::style::parse_color_panics(opt_as_str(&p.color)),
            None => false,
        }
    }

    /// Whether the floating reaction can be drawn in `width` columns at `now`:
    /// its accent colour parses and its banner colour arithmetic fits.
    pub fn reaction_lines_drawable(&self, width: u16, now: u64) -> (r: bool)
        ensures
            r == reaction_lines_ok(self@, width, now),
    {
        match self.reaction_layout(width) {
            None => true,
            Some(CompanionReactionLayout::Compact) => !self.color_parse_panics(),
            Some(CompanionReactionLayout::Banner(size)) => {
                if self.color_parse_panics() {
                    return false;
                }
                let phase = self.banner_phase(now);
                let cols: usize = if width == 0 {
                    1
                } else {
                    width as usize
                };
                let extra: usize = match size {
                    BannerSize::Medium => 1,
                    BannerSize::Wide => 2,
                };
                phase <= usize::MAX - cols - extra
            },
        }
    }

    /// The accent colour of the presence.
    fn accent(&self) -> (r: CompanionColor)
        requires
            self@.presence is Some,
            color_ok(self@),
        ensures
            r == accent_of(self@.presence->0),
    {
        let p = self.presence.as_ref().unwrap();
        match parse_color(opt_as_str(&p.color)) {
            Some(c) => c,
            None => CompanionColor::Cyan,
        }
    }

    /// The current frame, or else the presence's face.
    fn frame_or_face(&self, now: u64) -> (r: Vec<char>)
        requires
            self@.presence is Some,
        ensures
            r@ == frame_or_face(self@, now),
    {
        match self.current_frame(now) {
            Some(f) => chars_of(f.as_str()),
            None => {
                let p = self.presence.as_ref().unwrap();
                chars_of(p.face.as_str())
            },
        }
    }

    /// The header, the reaction and the detail line of the companion.
    pub fn render_lines(&self, sidecar: bool, now: u64) -> (r: Vec<StyledLine>)
        requires
            color_ok(self@),
        ensures
            lines_view(r@) == spec_render_lines(self@, sidecar, now),
    {
        let p = match &self.presence {
            None => {
                let r: Vec<StyledLine> = Vec::new();
                assert(lines_view(r@) =~= Seq::empty());
                return r;
            },
            Some(p) => p,
        };
        let accent = self.accent();
        let strong = SpanStyle::colored(accent, true, false);
        let frame = self.frame_or_face(now);
        let mut header: Vec<StyledSpan> = Vec::new();
        header.push(span_of(&frame, strong));
        header.push(span_of_str(" ", SpanStyle::plain()));
        header.push(span_of_str(p.label.as_str(), strong));
        match &p.badge {
            Some(b) => {
                header.push(span_of_str(" ", SpanStyle::plain()));
                let mut t: Vec<char> = Vec::new();
                t.push('[');
                push_str(&mut t, b.as_str());
                t.push(']');
                assert(t@ =~= seq!['['] + b@ + seq![']']);
                header.push(span_of(&t, SpanStyle::colored(accent, false, false)));
            },
            None => {},
        }
        let header_line = StyledLine::from_spans(header);
        let ghost pv = self@.presence->0;
        assert(header_line@ =~= seq![
            (frame_or_face(self@, now), color_style(accent_of(pv), true, false)),
            (" "@, plain_style()),
            (pv.label, color_style(accent_of(pv), true, false)),
        ] + match pv.badge {
            Some(b) => seq![
                (" "@, plain_style()),
                (seq!['['] + b + seq![']'], color_style(accent_of(pv), false, false)),
            ],
            None => Seq::empty(),
        });
        let mut lines: Vec<StyledLine> = Vec::new();
        lines.push(header_line);
        match &self.reaction {
            Some(r) => {
                let mut t: Vec<char> = Vec::new();
                push_str(&mut t, "> ");
                push_str(&mut t, r.text.as_str());
                let mut spans: Vec<StyledSpan> = Vec::new();
                spans.push(span_of(&t, SpanStyle::colored(accent, false, false)));
                let line = StyledLine::from_spans(spans);
                assert(line@ =~= seq![("> "@ + self@.reaction->0.text, color_style(accent_of(pv), false, false))]);
                lines.push(line);
            },
            None => {},
        }
        let detail: Vec<char> = match &p.subtitle {
            Some(s) => chars_of(s.as_str()),
            None => match &p.species {
                Some(s) => chars_of(s.as_str()),
                None => chars_of("Companion active"),
            },
        };
        if !sidecar || self.reaction.is_none() {
            let mut spans: Vec<StyledSpan> = Vec::new();
            spans.push(span_of(&detail, SpanStyle::colored(CompanionColor::DarkGray, false, false)));
            let line = StyledLine::from_spans(spans);
            assert(line@ =~= seq![(detail@, color_style(CompanionColor::DarkGray, false, false))]);
            lines.push(line);
        }
        assert(lines_view(lines@) =~= spec_render_lines(self@, sidecar, now));
        lines
    }

    /// The lines of the floating reaction in the layout that `width` allows.
    pub fn reaction_lines(&self, width: u16, now: u64) -> (r: Vec<StyledLine>)
        requires
            reaction_lines_ok(self@, width, now),
        ensures
            lines_view(r@) == spec_reaction_lines(self@, width, now),
    {
        match self.reaction_layout(width) {
            Some(CompanionReactionLayout::Banner(size)) => self.banner_lines(width, size, now),
            Some(CompanionReactionLayout::Compact) => self.compact_float_lines(now),
            None => {
                let r: Vec<StyledLine> = Vec::new();
                assert(lines_view(r@) =~= Seq::empty());
                r
            },
        }
    }

    /// How the reaction floats in `width` columns, if it floats at all.
    pub fn reaction_layout(&self, width: u16) -> (r: Option<CompanionReactionLayout>)
        ensures
            r == spec_reaction_layout(self@, width),
    {
        let reaction = match &self.reaction {
            None => {
                return None;
            },
            Some(r) => r,
        };
        if !self.is_visible() || width < MIN_FLOAT_WIDTH {
            return None;
        }
        if !reaction.burst || width < MIN_BANNER_WIDTH {
            return Some(CompanionReactionLayout::Compact);
        }
        if width >= WIDE_BANNER_WIDTH {
            Some(CompanionReactionLayout::Banner(BannerSize::Wide))
        } else {
            Some(CompanionReactionLayout::Banner(BannerSize::Medium))
        }
    }

    /// The one-line float: face, `<label> says:` and the quoted reaction.
    pub fn compact_float_lines(&self, now: u64) -> (r: Vec<StyledLine>)
        requires
            color_ok(self@),
        ensures
            lines_view(r@) == spec_compact_float_lines(self@, now),
    {
        let (p, reaction) = match (&self.presence, &self.reaction) {
            (Some(p), Some(r)) => (p, r),
            _ => {
                let r: Vec<StyledLine> = Vec::new();
                assert(lines_view(r@) =~= Seq::empty());
                return r;
            },
        };
        let accent = self.accent();
        let face = self.frame_or_face(now);
        let mut says: Vec<char> = Vec::new();
        push_str(&mut says, p.label.as_str());
        push_str(&mut says, " says:");
        let mut quoted: Vec<char> = Vec::new();
        quoted.push('"');
        push_str(&mut quoted, reaction.text.as_str());
        quoted.push('"');
        assert(says@ =~= p.label@ + " says:"@);
        assert(quoted@ =~= seq!['"'] + reaction.text@ + seq!['"']);
        let mut spans: Vec<StyledSpan> = Vec::new();
        spans.push(span_of(&face, SpanStyle::colored(accent, true, false)));
        spans.push(span_of_str(" ", SpanStyle::plain()));
        spans.push(span_of(&says, SpanStyle::colored(accent, true, false)));
        spans.push(span_of_str(" ", SpanStyle::plain()));
        spans.push(span_of(&quoted, SpanStyle::colored(accent, false, true)));
        let line = StyledLine::from_spans(spans);
        let ghost pv = self@.presence->0;
        let ghost rv = self@.reaction->0;
        assert(line@ =~= seq![
            (frame_or_face(self@, now), color_style(accent_of(pv), true, false)),
            (" "@, plain_style()),
            (pv.label + " says:"@, color_style(accent_of(pv), true, false)),
            (" "@, plain_style()),
            (seq!['"'] + rv.text + seq!['"'], color_style(accent_of(pv), false, true)),
        ]);
        let mut lines: Vec<StyledLine> = Vec::new();
        lines.push(line);
        assert(lines_view(lines@) =~= spec_compact_float_lines(self@, now));
        lines
    }

    /// The banner for a burst reaction in `width` columns.
    pub fn banner_lines(&self, width: u16, size: BannerSize, now: u64) -> (r: Vec<StyledLine>)
        requires
            color_ok(self@),
            banner_fits(self@, width, size, now),
        ensures
            lines_view(r@) == spec_banner_lines(self@, width as int, size, now),
    {
        let (p, reaction) = match (&self.presence, &self.reaction) {
            (Some(p), Some(r)) => (p, r),
            _ => {
                let r: Vec<StyledLine> = Vec::new();
                assert(lines_view(r@) =~= Seq::empty());
                return r;
            },
        };
        let ghost w = self@;
        let ghost pv = w.presence->0;
        let ghost rv = w.reaction->0;
        let accent = self.accent();
        let width = width as usize;
        let phase = self.banner_phase(now);
        let rows = match size {
            BannerSize::Medium => medium_title_rows(reaction.headline.as_str()),
            BannerSize::Wide => wide_title_rows(reaction.headline.as_str()),
        };
        let ghost rows_spec = title_rows(rv.headline, size);
        assert(rows@.len() == rows_spec.len());
        assert(forall|i: int| 0 <= i < rows@.len() ==> (#[trigger] rows@[i])@ == rows_spec[i]);
        let frame = self.frame_or_face(now);
        let mut detail_text: Vec<char> = Vec::new();
        push_all(&mut detail_text, &frame);
        push_str(&mut detail_text, "  ");
        push_str(&mut detail_text, p.label.as_str());
        push_str(&mut detail_text, ": ");
        push_str(&mut detail_text, reaction.text.as_str());
        assert(detail_text@ =~= banner_detail(w, now));
        let detail = fit_chars(&detail_text, width);

        let mut lines: Vec<StyledLine> = Vec::new();
        let label_chars = chars_of(p.label.as_str());
        let label_upper = upper_chars(&label_chars);
        let mut header_label: Vec<char> = Vec::new();
        header_label.push(' ');
        push_all(&mut header_label, &label_upper);
        header_label.push(' ');
        let header_text = pattern_chars(&header_label, width, phase);
        lines.push(rainbow_line(string_from_chars(&header_text), phase, true));
        let ghost header_spec = rainbow_spec(
            pattern_spec(seq![' '] + upper_seq(pv.label) + seq![' '], width as int, phase as int),
            phase as int,
            true,
        );
        assert(header_label@ =~= seq![' '] + upper_seq(pv.label) + seq![' ']);
        let wobble: usize = if self.animations_enabled && width > 56 && phase % 2 == 1 {
            1
        } else {
            0
        };
        assert(wobble == banner_wobble(w, width as int, phase as int));
        let ghost title = Seq::new(
            rows_spec.len(),
            |i: int|
                rainbow_spec(
                    center_spec(rows_spec[i], width as int, wobble as int),
                    phase + i + 1,
                    true,
                ),
        );
        for idx in 0..rows.len()
            invariant
                rows@.len() == rows_spec.len(),
                rows_spec.len() <= 3,
                forall|i: int| 0 <= i < rows@.len() ==> (#[trigger] rows@[i])@ == rows_spec[i],
                wobble <= 1,
                rows_spec.len() == crate::model::banner_rows(size),
                phase + (if width == 0 {
                    1
                } else {
                    width as int
                }) + rows_spec.len() - 1 <= usize::MAX,
                lines_view(lines@) == seq![header_spec] + title.take(idx as int),
                title == Seq::new(
                    rows_spec.len(),
                    |i: int|
                        rainbow_spec(
                            center_spec(rows_spec[i], width as int, wobble as int),
                            phase + i + 1,
                            true,
                        ),
                ),
        {
            let row_chars = chars_of(rows[idx].as_str());
            proof {
                lemma_center_len(row_chars@, width as int, wobble as int);
            }
            let centered = center_chars(&row_chars, width, wobble);
            let line = rainbow_line(string_from_chars(&centered), phase + idx + 1, true);
            assert(title[idx as int] == rainbow_spec(
                center_spec(rows_spec[idx as int], width as int, wobble as int),
                phase + idx + 1,
                true,
            ));
            assert(line@ == title[idx as int]);
            let ghost before = lines@;
            lines.push(line);
            assert(lines_view(lines@) =~= lines_view(before).push(title[idx as int]));
            assert(title.take(idx + 1) =~= title.take(idx as int).push(title[idx as int]));
            assert(lines_view(lines@) =~= seq![header_spec] + title.take(idx + 1));
        }
        assert(title.take(rows_spec.len() as int) =~= title);
        proof {
            lemma_center_len(detail@, width as int, 0);
        }
        let centered_detail = center_chars(&detail, width, 0);
        let mut detail_spans: Vec<StyledSpan> = Vec::new();
        detail_spans.push(span_of(&centered_detail, SpanStyle::colored(accent, true, true)));
        let detail_line = StyledLine::from_spans(detail_spans);
        assert(detail_line@ =~= seq![
            (center_spec(fit_spec(banner_detail(w, now), width as int), width as int, 0), color_style(accent_of(pv), true, true)),
        ]);
        lines.push(detail_line);
        let mut footer_label: Vec<char> = Vec::new();
        match &reaction.kind {
            Some(k) => {
                let kc = chars_of(k.as_str());
                let ku = upper_chars(&kc);
                footer_label.push(' ');
                push_all(&mut footer_label, &ku);
                push_str(&mut footer_label, " / WOW / ");
            },
            None => {
                push_str(&mut footer_label, " BUDDY WOW ");
            },
        }
        let footer = pattern_chars(&footer_label, width, phase + 2);
        assert(footer@ =~= banner_footer(rv.kind, width as int, phase as int));
        lines.push(rainbow_line(string_from_chars(&footer), phase + 2, false));
        assert(title =~= Seq::new(
            title_rows(rv.headline, size).len(),
            |i: int|
                rainbow_spec(
                    center_spec(title_rows(rv.headline, size)[i], width as int, banner_wobble(w, width as int, phase as int)),
                    phase + i + 1,
                    true,
                ),
        ));
        assert(lines_view(lines@) =~= spec_banner_lines(w, width as int, size, now));
        lines
    }

    /// The step of the banner's colour cycle at `now`.
    pub fn banner_phase(&self, now: u64) -> (r: usize)
        ensures
            r == spec_banner_phase(self@, now),
    {
        if !self.animations_enabled {
            return 0;
        }
        let elapsed = now.saturating_sub(self.banner_started_at(now));
        (elapsed / FRAME_TICK_MS) as usize
    }

    /// When the banner's colour cycle started: with the motion, else with the
    /// presence, else now.
    pub fn banner_started_at(&self, now: u64) -> (r: u64)
        ensures
            r == spec_banner_started_at(self@, now),
    {
        match &self.motion {
            Some(m) => m.started_at,
            None => match &self.presence {
                Some(p) => p.updated_at,
                None => now,
            },
        }
    }

    /// The face to draw at `now`.
    pub fn current_frame(&self, now: u64) -> (r: Option<String>)
        ensures
            opt_string_view(r) == spec_current_frame(self@, now),
    {
        let p = match &self.presence {
            None => {
                return None;
            },
            Some(p) => p,
        };
        if !self.animations_enabled {
            return Some(p.face.clone());
        }
        match self.active_frame_timeline() {
            None => None,
            Some((started_at, frame_ms, frames)) => {
                if frames.len() == 0 || frame_ms == 0 {
                    return Some(p.face.clone());
                }
                let elapsed = now.saturating_sub(started_at);
                let idx = ((elapsed / frame_ms) % (frames.len() as u64)) as usize;
                Some(frames[idx].clone())
            },
        }
    }

    /// The frames playing now, with the time they started and their frame time.
    pub fn active_frame_timeline(&self) -> (r: Option<(u64, u64, &Vec<String>)>)
        ensures
            match r {
                None => spec_active_frame_timeline(self@) is None,
                Some(t) => spec_active_frame_timeline(self@) == Some(
                    (t.0, t.1, strings_view(t.2@)),
                ),
            },
    {
        let p = match &self.presence {
            None => {
                return None;
            },
            Some(p) => p,
        };
        let a = match &p.animation {
            None => {
                return None;
            },
            Some(a) => a,
        };
        match &self.motion {
            Some(m) => {
                if m.kind == CompanionMotionKind::Reaction && a.reaction_frames.len() > 0 {
                    return Some(
                        (
                            m.started_at,
                            match a.reaction_frame_ms {
                                Some(ms) => ms,
                                None => DEFAULT_REACTION_FRAME_MS,
                            },
                            &a.reaction_frames,
                        ),
                    );
                }
                if m.kind == CompanionMotionKind::Pet && a.pet_frames.len() > 0 {
                    return Some(
                        (
                            m.started_at,
                            match a.pet_frame_ms {
                                Some(ms) => ms,
                                None => DEFAULT_PET_FRAME_MS,
                            },
                            &a.pet_frames,
                        ),
                    );
                }
            },
            None => {},
        }
        if a.idle_frames.len() > 0 {
            Some(
                (
                    p.updated_at,
                    match a.idle_frame_ms {
                        Some(ms) => ms,
                        None => DEFAULT_IDLE_FRAME_MS,
                    },
                    &a.idle_frames,
                ),
            )
        } else {
            None
        }
    }
}

} // verus!

use companion_widget::layout::Area;
use companion_widget::model::BannerSize;
use companion_widget::model::CompanionReactionLayout;
use companion_widget::protocol::PluginUiEvent;
use companion_widget::style::StyledLine;
use companion_widget::widget::CompanionWidget;
use ratatui::buffer::Buffer;
use ratatui::layout::Rect;
use ratatui::text::Line;
use ratatui::text::Span;
use ratatui::widgets::Paragraph;
use ratatui::widgets::Widget;
use ratatui::widgets::Wrap;

const COMPANION_PLUGIN: &str = "companion";
const NOW: u64 = 1_000_000;

fn sample_widget(animations_enabled: bool) -> CompanionWidget {
    let mut widget = CompanionWidget::new(animations_enabled);
    widget.apply_events(&[presence_event(true)], NOW);
    widget
}

fn presence_event(visible: bool) -> PluginUiEvent {
    PluginUiEvent::Presence {
        plugin: COMPANION_PLUGIN.to_string(),
        visible,
        muted: false,
        label: Some("Orbit".to_string()),
        subtitle: Some("Campaigner".to_string()),
        badge: Some("ENFP".to_string()),
        face: Some("o_o".to_string()),
        color: Some("cyan".to_string()),
        species: Some("fox".to_string()),
        reserved_columns: Some(20),
        animation: None,
    }
}

fn reaction_event(text: &str, kind: &str, ttl_ms: u64) -> PluginUiEvent {
    PluginUiEvent::Reaction {
        plugin: COMPANION_PLUGIN.to_string(),
        text: text.to_string(),
        kind: Some(kind.to_string()),
        ttl_ms: Some(ttl_ms),
    }
}

fn to_line(line: &StyledLine) -> Line<'static> {
    Line::from(
        line.spans
            .iter()
            .map(|s| Span::raw(s.text.clone()))
            .collect::<Vec<_>>(),
    )
}

fn render_float_lines(widget: &CompanionWidget, width: u16, height: u16, now: u64) -> Vec<String> {
    let area = Rect::new(0, 0, width, height);
    let mut buf = Buffer::empty(area);
    if let Some(lines) = widget.render_float(width, height, now) {
        let lines: Vec<Line<'static>> = lines.iter().map(to_line).collect();
        Paragraph::new(lines)
            .wrap(Wrap { trim: false })
            .render(area, &mut buf);
    }
    (0..height)
        .map(|row| {
            let mut line = String::new();
            for col in 0..width {
                let symbol = buf[(col, row)].symbol();
                if symbol.is_empty() {
                    line.push(' ');
                } else {
                    line.push_str(symbol);
                }
            }
            line.trim_end().to_string()
        })
        .collect()
}

#[test]
fn reaction_enables_float_when_visible() {
    let mut widget = sample_widget(false);
    widget.apply_events(&[reaction_event("hello", "note", 10_000)], NOW);

    assert!(widget.should_render_float(60));
    assert!(widget.desired_float_height(60, NOW) >= 1);
}

#[test]
fn wide_banner_shows_multiline_burst() {
    let mut widget = sample_widget(false);
    widget.apply_events(&[reaction_event("Tail velocity critical", "pet", 10_000)], NOW);

    assert_eq!(
        widget.reaction_layout(90),
        Some(CompanionReactionLayout::Banner(BannerSize::Wide))
    );
    assert!(widget.desired_float_height(90, NOW) >= 5);

    let lines = render_float_lines(&widget, 90, 8, NOW);
    assert!(lines.iter().any(|line| line.contains("PPP")));
    assert!(
        lines
            .iter()
            .any(|line| line.contains("Tail velocity critical"))
    );
}

#[test]
fn narrow_width_falls_back_to_compact_float() {
    let mut widget = sample_widget(false);
    widget.apply_events(&[reaction_event("Tail velocity critical", "pet", 10_000)], NOW);

    assert_eq!(
        widget.reaction_layout(42),
        Some(CompanionReactionLayout::Compact)
    );

    let lines = render_float_lines(&widget, 42, 3, NOW);
    assert!(lines.iter().any(|line| line.contains("Orbit says:")));
    assert!(lines.iter().all(|line| !line.contains("PPP")));
}

#[test]
fn passive_reactions_stay_compact() {
    let mut widget = sample_widget(false);
    widget.apply_events(&[reaction_event("Nice work, captain.", "success", 10_000)], NOW);

    assert_eq!(
        widget.reaction_layout(90),
        Some(CompanionReactionLayout::Compact)
    );
}

#[test]
fn reduced_motion_keeps_banner_static() {
    let mut widget = sample_widget(false);
    widget.apply_events(&[reaction_event("Tail velocity critical", "pet", 10_000)], NOW);

    assert_eq!(widget.banner_phase(NOW), 0);
    let first = render_float_lines(&widget, 90, 8, NOW);
    let second = render_float_lines(&widget, 90, 8, NOW + 120);
    assert_eq!(first, second);
}

#[test]
fn burst_reaction_expires_cleanly() {
    let mut widget = sample_widget(false);
    widget.apply_events(&[reaction_event("Boom", "pet", 0)], NOW);

    assert!(widget.prune_expired(NOW));
    assert_eq!(widget.desired_float_height(90, NOW), 0);
}

#[test]
fn hidden_presence_clears_active_banner() {
    let mut widget = sample_widget(false);
    widget.apply_events(&[reaction_event("Boom", "pet", 10_000)], NOW);
    widget.apply_events(&[presence_event(false)], NOW);

    assert_eq!(widget.reaction_layout(90), None);
    assert_eq!(widget.desired_float_height(90, NOW), 0);
}

#[test]
fn later_burst_reactions_replace_earlier_banner_text() {
    let mut widget = sample_widget(false);
    widget.apply_events(&[reaction_event("First spark", "pet", 10_000)], NOW);
    widget.apply_events(&[reaction_event("Fresh vibe unlocked", "set-type", 10_000)], NOW);

    let lines = render_float_lines(&widget, 90, 8, NOW);
    assert!(
        lines
            .iter()
            .any(|line| line.contains("Fresh vibe unlocked"))
    );
    assert!(lines.iter().all(|line| !line.contains("First spark")));
}

#[test]
fn float_area_is_the_whole_rect() {
    // The float's lines are what the area shows; an empty area draws nothing.
    let mut widget = sample_widget(false);
    widget.apply_events(&[reaction_event("hello", "note", 10_000)], NOW);
    assert!(widget.render_float(60, 0, NOW).is_none());
    let area = Area { x: 0, y: 0, width: 60, height: 2 };
    let float = companion_widget::layout::CompanionFloat::new(&widget);
    assert!(float.render(area, NOW).is_some());
    assert_eq!(float.desired_height(60, NOW), widget.desired_float_height(60, NOW));
}

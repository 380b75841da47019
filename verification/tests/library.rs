use companion_widget::banner::burst_headline;
use companion_widget::banner::is_burst_kind;
use companion_widget::banner::medium_title_rows;
use companion_widget::banner::normalize_banner_char;
use companion_widget::banner::wide_title_rows;
use companion_widget::layout::Area;
use companion_widget::layout::CompanionComposerLayout;
use companion_widget::layout::ComposerLayoutPlan;
use companion_widget::model::CompanionMotionKind;
use companion_widget::protocol::PluginUiAnimation;
use companion_widget::protocol::PluginUiEvent;
use companion_widget::style::parse_color;
use companion_widget::style::parse_color_panics;
use companion_widget::style::rainbow_line;
use companion_widget::style::CompanionColor;
use companion_widget::style::SpanStyle;
use companion_widget::style::StyledLine;
use companion_widget::layout::SizeConstraint;
use companion_widget::text::center_text;
use companion_widget::text::is_whitespace;
use companion_widget::text::fit_to_width;
use companion_widget::text::pattern_line;
use companion_widget::widget::duration_until;
use companion_widget::widget::CompanionWidget;

const NOW: u64 = 1_000_000;

fn presence(visible: bool, muted: bool, reserved: Option<u16>, animation: Option<PluginUiAnimation>) -> PluginUiEvent {
    PluginUiEvent::Presence {
        plugin: "companion".to_string(),
        visible,
        muted,
        label: Some("Orbit".to_string()),
        subtitle: Some("Campaigner".to_string()),
        badge: Some("ENFP".to_string()),
        face: Some("o_o".to_string()),
        color: Some("cyan".to_string()),
        species: Some("fox".to_string()),
        reserved_columns: reserved,
        animation,
    }
}

fn reaction(text: &str, kind: Option<&str>, ttl_ms: Option<u64>) -> PluginUiEvent {
    PluginUiEvent::Reaction {
        plugin: "companion".to_string(),
        text: text.to_string(),
        kind: kind.map(|k| k.to_string()),
        ttl_ms,
    }
}

fn visible_widget(animations: bool) -> CompanionWidget {
    let mut w = CompanionWidget::new(animations);
    w.apply_events(&[presence(true, false, Some(20), None)], NOW);
    w
}

fn texts(line: &StyledLine) -> Vec<String> {
    line.spans.iter().map(|s| s.text.clone()).collect()
}

fn joined(line: &StyledLine) -> String {
    line.spans.iter().map(|s| s.text.as_str()).collect()
}

// ---- text -----------------------------------------------------------------

#[test]
fn fit_to_width_cuts_with_dots() {
    assert_eq!(fit_to_width("hello", 10), "hello");
    assert_eq!(fit_to_width("hello world", 8), "hello...");
    assert_eq!(fit_to_width("hello", 2), "he");
    assert_eq!(fit_to_width("hello", 3), "hel");
    assert_eq!(fit_to_width("hello", 4), "h...");
    assert_eq!(fit_to_width("héllo wörld", 8), "héllo...");
}

#[test]
fn center_text_pads_both_sides() {
    assert_eq!(center_text("ab", 6, 0), "  ab  ");
    assert_eq!(center_text("ab", 7, 1), "   ab  ");
    assert_eq!(center_text("abcdef", 4, 0), "a...");
    assert_eq!(center_text("", 3, 0), "   ");
}

#[test]
fn center_text_with_wide_wobble_overflows_by_one() {
    // Only wobbles of at most one column keep the width exact.
    assert_eq!(center_text("abcdefgh", 10, 2), "   abcdefgh");
    assert_eq!(center_text("abcdefgh", 10, 1).chars().count(), 10);
}

#[test]
fn pattern_line_overlays_label() {
    assert_eq!(pattern_line("X", 5, 0), "=~X-=");
    assert_eq!(pattern_line("X", 5, 1), "~*X=~");
    assert_eq!(pattern_line("", 6, 2), "*-=~*-");
    assert_eq!(pattern_line(" BUDDY WOW ", 4, 0), " ...");
    assert_eq!(pattern_line("abc", 0, 7), "");
}

// ---- banner -----------------------------------------------------------------

#[test]
fn normalize_banner_char_values() {
    assert_eq!(normalize_banner_char('a'), 'A');
    assert_eq!(normalize_banner_char('Z'), 'Z');
    assert_eq!(normalize_banner_char('7'), '7');
    assert_eq!(normalize_banner_char('-'), '-');
    assert_eq!(normalize_banner_char('!'), ' ');
    assert_eq!(normalize_banner_char('é'), ' ');
}

#[test]
fn wide_title_rows_spell_block_letters() {
    assert_eq!(
        wide_title_rows("ab"),
        vec![" AAA  BBB ".to_string(), " A A  B B ".to_string(), " AAA  BBB ".to_string()]
    );
    let rows = wide_title_rows("a b");
    assert_eq!(rows[0], " AAA       BBB ");
    assert!(rows.iter().all(|r| r.chars().count() == 15));
    assert_eq!(wide_title_rows(""), vec![String::new(), String::new(), String::new()]);
}

#[test]
fn medium_title_rows_spell_block_letters() {
    assert_eq!(medium_title_rows("Hi"), vec![" HH  II ".to_string(), " HH  II ".to_string()]);
    assert_eq!(medium_title_rows("a!"), vec![" AA    ".to_string(), " AA    ".to_string()]);
}

#[test]
fn burst_kinds() {
    assert!(is_burst_kind(Some(" pet ")));
    for kind in ["pet", "setup", "rename", "set-type", "hatch", "burst", "celebrate"] {
        assert!(is_burst_kind(Some(kind)));
    }
    assert!(!is_burst_kind(Some("note")));
    assert!(!is_burst_kind(Some("PET")));
    assert!(!is_burst_kind(None));
}

#[test]
fn burst_headlines() {
    assert_eq!(burst_headline(Some("pet"), "x"), "PET PARTY");
    assert_eq!(burst_headline(Some(" hatch "), "x"), "NEW PAL");
    assert_eq!(burst_headline(Some("setup"), "x"), "NEW PAL");
    assert_eq!(burst_headline(Some("rename"), "x"), "NAME DROP");
    assert_eq!(burst_headline(Some("set-type"), "x"), "VIBE SHIFT");
    assert_eq!(burst_headline(Some("celebrate"), "x"), "BUDDY WOW");
    assert_eq!(burst_headline(Some("burst"), "x"), "BUDDY WOW");
    assert_eq!(burst_headline(Some("note"), "Tail velocity critical"), "TAIL VELOCITY");
    assert_eq!(burst_headline(None, "  hello, world! again"), "HELLO WORLD");
    assert_eq!(burst_headline(None, "!!! ok"), "OK");
    assert_eq!(burst_headline(None, ""), "");
    assert_eq!(burst_headline(None, "x-ray vision"), "X-RAY VISION");
}

#[test]
fn burst_headline_ignores_text_for_burst_kinds() {
    assert_eq!(burst_headline(Some("pet"), "one"), burst_headline(Some("pet"), "two"));
}

// ---- style ------------------------------------------------------------------

#[test]
fn parse_color_names_and_hex() {
    assert_eq!(parse_color(Some("  Cyan ")), Some(CompanionColor::Cyan));
    assert_eq!(parse_color(Some("GREY")), Some(CompanionColor::Gray));
    assert_eq!(parse_color(Some("gray")), Some(CompanionColor::Gray));
    assert_eq!(parse_color(Some("magenta")), Some(CompanionColor::Magenta));
    assert_eq!(parse_color(Some("#ff8000")), Some(CompanionColor::Rgb(255, 128, 0)));
    assert_eq!(parse_color(Some("#FF8000")), Some(CompanionColor::Rgb(255, 128, 0)));
    assert_eq!(parse_color(Some("#+f+f+f")), Some(CompanionColor::Rgb(15, 15, 15)));
    assert_eq!(parse_color(Some("#-f0000")), None);
    assert_eq!(parse_color(Some("#12345")), None);
    assert_eq!(parse_color(Some("#ééé")), None);
    assert_eq!(parse_color(Some("")), None);
    assert_eq!(parse_color(Some("purple")), None);
    assert_eq!(parse_color(None), None);
}

#[test]
fn parse_color_panic_inputs() {
    assert!(parse_color_panics(Some("#a€bb")));
    assert!(!parse_color_panics(Some("#ééé")));
    assert!(!parse_color_panics(Some("#ff8000")));
    assert!(!parse_color_panics(Some("cyan")));
    assert!(!parse_color_panics(None));
}

#[test]
fn rainbow_line_colours_each_character() {
    let line = rainbow_line("a b".to_string(), 0, true);
    assert_eq!(texts(&line), vec!["a", " ", "b"]);
    assert_eq!(line.spans[0].style, SpanStyle { fg: Some(CompanionColor::Magenta), bold: true, italic: false });
    assert_eq!(line.spans[1].style, SpanStyle { fg: None, bold: false, italic: false });
    assert_eq!(line.spans[2].style, SpanStyle { fg: Some(CompanionColor::Yellow), bold: true, italic: false });
    let shifted = rainbow_line("ab".to_string(), 5, false);
    assert_eq!(shifted.spans[0].style.fg, Some(CompanionColor::Blue));
    assert_eq!(shifted.spans[1].style.fg, Some(CompanionColor::Magenta));
}

// ---- widget -----------------------------------------------------------------

#[test]
fn duration_until_saturates() {
    assert_eq!(duration_until(5, 10), 5);
    assert_eq!(duration_until(10, 5), 0);
}

#[test]
fn new_widget_is_hidden() {
    let w = CompanionWidget::new(true);
    assert!(!w.is_visible());
    assert_eq!(w.reserve_columns(), 20);
    assert_eq!(w.desired_height_for_width(80, false), 0);
    assert_eq!(w.schedule_next_frame_delay(NOW), None);
    assert!(w.render(80, 3, false, NOW).is_none());
}

#[test]
fn apply_events_reports_companion_events_only() {
    let mut w = visible_widget(false);
    let foreign = PluginUiEvent::Reaction {
        plugin: "other".to_string(),
        text: "hi".to_string(),
        kind: None,
        ttl_ms: None,
    };
    assert!(!w.apply_events(&[foreign], NOW));
    assert!(!w.should_render_float(60));
    assert!(w.apply_events(&[reaction("hi", None, None)], NOW));
    assert!(w.should_render_float(60));
    assert!(!w.apply_events(&[], NOW));
}

#[test]
fn muted_presence_hides_and_clears() {
    let mut w = visible_widget(false);
    w.apply_events(&[reaction("hi", Some("pet"), None)], NOW);
    w.apply_events(&[presence(true, true, None, None)], NOW);
    assert!(!w.is_visible());
    assert_eq!(w.reaction_layout(90), None);
    assert_eq!(w.schedule_next_frame_delay(NOW), None);
}

#[test]
fn reserve_columns_has_a_floor() {
    let mut w = CompanionWidget::new(false);
    w.apply_events(&[presence(true, false, Some(5), None)], NOW);
    assert_eq!(w.reserve_columns(), 14);
    w.apply_events(&[presence(true, false, None, None)], NOW);
    assert_eq!(w.reserve_columns(), 20);
    w.apply_events(&[presence(true, false, Some(30), None)], NOW);
    assert_eq!(w.reserve_columns(), 30);
}

#[test]
fn sidecar_needs_room() {
    let w = visible_widget(false);
    assert!(w.can_render_sidecar(58));
    assert!(!w.can_render_sidecar(57));
}

#[test]
fn desired_height_values() {
    let mut w = visible_widget(false);
    assert_eq!(w.desired_height_for_width(10, true), 2);
    assert_eq!(w.desired_height_for_width(10, false), 3);
    assert_eq!(w.desired_height_for_width(2, false), 2);
    assert_eq!(w.desired_height_for_width(0, false), 0);
    w.apply_events(&[reaction("hi", None, None)], NOW);
    assert_eq!(w.desired_height_for_width(10, true), 3);
}

#[test]
fn prune_is_idempotent() {
    let mut w = visible_widget(false);
    w.apply_events(&[reaction("hi", None, Some(100))], NOW);
    assert!(!w.prune_expired(NOW + 99));
    assert!(w.should_render_float(60));
    assert!(w.prune_expired(NOW + 100));
    assert!(!w.prune_expired(NOW + 100));
    assert!(!w.should_render_float(60));
}

#[test]
fn render_lines_header_reaction_detail() {
    let mut w = visible_widget(false);
    let lines = w.render(40, 3, false, NOW).unwrap();
    assert_eq!(lines.len(), 2);
    assert_eq!(texts(&lines[0]), vec!["o_o", " ", "Orbit", " ", "[ENFP]"]);
    assert_eq!(texts(&lines[1]), vec!["Campaigner"]);
    assert_eq!(lines[1].spans[0].style.fg, Some(CompanionColor::DarkGray));
    assert_eq!(lines[0].spans[0].style, SpanStyle { fg: Some(CompanionColor::Cyan), bold: true, italic: false });
    w.apply_events(&[reaction("hello", None, None)], NOW);
    let sidecar = w.render(20, 3, true, NOW).unwrap();
    assert_eq!(sidecar.len(), 2);
    assert_eq!(texts(&sidecar[1]), vec!["> hello"]);
    let stacked = w.render(40, 3, false, NOW).unwrap();
    assert_eq!(stacked.len(), 3);
    assert!(w.render(0, 3, false, NOW).is_none());
}

#[test]
fn compact_float_line() {
    let mut w = visible_widget(false);
    w.apply_events(&[reaction("hello", Some("note"), None)], NOW);
    let lines = w.render_float(60, 3, NOW).unwrap();
    assert_eq!(lines.len(), 1);
    assert_eq!(texts(&lines[0]), vec!["o_o", " ", "Orbit says:", " ", "\"hello\""]);
    assert_eq!(lines[0].spans[4].style, SpanStyle { fg: Some(CompanionColor::Cyan), bold: false, italic: true });
    assert!(w.render_float(27, 3, NOW).is_none());
}

#[test]
fn wide_banner_lines_fill_width() {
    let mut w = visible_widget(false);
    w.apply_events(&[reaction("Tail velocity critical", Some("pet"), None)], NOW);
    let lines = w.reaction_lines(90, NOW);
    assert_eq!(lines.len(), 6);
    for line in &lines {
        assert_eq!(joined(line).chars().count(), 90);
    }
    assert!(joined(&lines[0]).contains(" ORBIT "));
    assert!(joined(&lines[1]).contains(" PPP  EEE  TTT "));
    assert!(joined(&lines[4]).contains("o_o  Orbit: Tail velocity critical"));
    assert!(joined(&lines[5]).contains(" PET / WOW / "));
}

#[test]
fn medium_banner_lines_fill_width() {
    let mut w = visible_widget(false);
    w.apply_events(&[reaction("Boom", Some("burst"), None)], NOW);
    let lines = w.reaction_lines(60, NOW);
    assert_eq!(lines.len(), 5);
    for line in &lines {
        assert_eq!(joined(line).chars().count(), 60);
    }
    assert!(joined(&lines[1]).contains(" BB  UU  DD  DD  YY     WW  OO  WW "));
}

#[test]
fn float_height_counts_wrapped_rows() {
    let mut w = visible_widget(false);
    w.apply_events(&[reaction("this is a long reaction text", None, None)], NOW);
    assert_eq!(w.desired_float_height(30, NOW), 2);
    assert_eq!(w.desired_float_height(80, NOW), 1);
    assert_eq!(w.desired_float_height(20, NOW), 0);
}

#[test]
fn next_frame_delay_values() {
    let mut w = visible_widget(false);
    assert_eq!(w.schedule_next_frame_delay(NOW), None);
    w.apply_events(&[reaction("hi", None, Some(10_000))], NOW);
    assert_eq!(w.schedule_next_frame_delay(NOW + 1000), Some(9000));
    assert_eq!(w.schedule_next_frame_delay(NOW + 20_000), Some(0));

    let mut pet = visible_widget(false);
    pet.apply_events(&[PluginUiEvent::Pet { plugin: "companion".to_string(), ttl_ms: None }], NOW);
    assert_eq!(pet.schedule_next_frame_delay(NOW), Some(2500));

    let mut burst = visible_widget(true);
    burst.apply_events(&[reaction("hi", Some("pet"), Some(10_000))], NOW);
    assert_eq!(burst.schedule_next_frame_delay(NOW + 30), Some(50));
    assert_eq!(burst.schedule_next_frame_delay(NOW + 80), Some(80));
    assert_eq!(burst.banner_phase(NOW + 250), 3);
}

#[test]
fn idle_animation_frames() {
    let animation = PluginUiAnimation {
        idle_frames: vec!["a".to_string(), "b".to_string()],
        idle_frame_ms: None,
        reaction_frames: vec![],
        reaction_frame_ms: None,
        pet_frames: vec!["p".to_string()],
        pet_frame_ms: Some(50),
    };
    let mut w = CompanionWidget::new(true);
    w.apply_events(&[presence(true, false, None, Some(animation))], NOW);
    assert_eq!(w.current_frame(NOW + 100), Some("a".to_string()));
    assert_eq!(w.current_frame(NOW + 600), Some("b".to_string()));
    assert_eq!(w.current_frame(NOW + 1000), Some("a".to_string()));
    assert_eq!(w.schedule_next_frame_delay(NOW + 100), Some(400));
    w.apply_events(&[PluginUiEvent::Pet { plugin: "companion".to_string(), ttl_ms: Some(1000) }], NOW + 100);
    let (started, frame_ms, frames) = w.active_frame_timeline().unwrap();
    assert_eq!((started, frame_ms, frames.len()), (NOW + 100, 50, 1));
    assert_eq!(w.current_frame(NOW + 130), Some("p".to_string()));
    // A single pet frame does not tick; the next redraw is when petting ends.
    assert_eq!(w.schedule_next_frame_delay(NOW + 130), Some(970));
}

#[test]
fn reduced_motion_uses_face() {
    let animation = PluginUiAnimation {
        idle_frames: vec!["a".to_string(), "b".to_string()],
        idle_frame_ms: Some(10),
        reaction_frames: vec![],
        reaction_frame_ms: None,
        pet_frames: vec![],
        pet_frame_ms: None,
    };
    let mut w = CompanionWidget::new(false);
    w.apply_events(&[presence(true, false, None, Some(animation))], NOW);
    assert_eq!(w.current_frame(NOW + 15), Some("o_o".to_string()));
    assert_eq!(w.banner_phase(NOW + 10_000), 0);
}

// ---- layout -----------------------------------------------------------------

#[test]
fn composer_layout_sidecar_and_stacked() {
    let mut w = visible_widget(false);
    w.apply_events(&[reaction("hi", None, None)], NOW);
    let layout = CompanionComposerLayout::new(&w);
    assert_eq!(
        layout.render(Area { x: 0, y: 0, width: 100, height: 5 }),
        ComposerLayoutPlan::Sidecar {
            composer: Area { x: 0, y: 0, width: 78, height: 5 },
            companion: Area { x: 80, y: 0, width: 20, height: 5 },
        }
    );
    assert_eq!(
        layout.render(Area { x: 0, y: 0, width: 40, height: 10 }),
        ComposerLayoutPlan::Stacked {
            companion: Area { x: 0, y: 0, width: 40, height: 3 },
            composer: Area { x: 0, y: 3, width: 40, height: 7 },
        }
    );
    assert_eq!(
        layout.cursor_pos(Area { x: 3, y: 4, width: 100, height: 5 }),
        Area { x: 3, y: 4, width: 78, height: 5 }
    );
    assert_eq!(layout.composer_width(100), 78);
    assert_eq!(layout.desired_height(100, 1), 3);
    assert_eq!(layout.desired_height(100, 4), 4);
    assert_eq!(layout.composer_width(40), 40);
    assert_eq!(layout.desired_height(40, 4), 7);
}

#[test]
fn hidden_companion_leaves_composer_alone() {
    let w = CompanionWidget::new(false);
    let layout = CompanionComposerLayout::new(&w);
    let area = Area { x: 1, y: 2, width: 100, height: 5 };
    assert_eq!(layout.render(area), ComposerLayoutPlan::ComposerOnly { composer: area });
    assert_eq!(layout.desired_height(100, 4), 4);
    assert_eq!(layout.composer_width(100), 100);
    assert_eq!(layout.cursor_pos(area), area);
}

#[test]
fn motion_kinds_follow_events() {
    let mut w = visible_widget(false);
    w.apply_events(&[reaction("hi", None, None)], NOW);
    w.apply_events(&[PluginUiEvent::Pet { plugin: "companion".to_string(), ttl_ms: Some(10) }], NOW + 5);
    assert_eq!(w.banner_started_at(NOW + 7), NOW + 5);
    // The pet motion expires first; the reaction stays.
    assert!(w.prune_expired(NOW + 15));
    assert!(w.should_render_float(60));
    assert_eq!(w.banner_started_at(NOW + 20), NOW);
    let _ = CompanionMotionKind::Pet;
}

#[test]
fn whitespace_is_the_unicode_white_space_set() {
    for c in ['\t', '\n', '\r', ' ', '\u{85}', '\u{A0}', '\u{1680}', '\u{2000}', '\u{200A}', '\u{2028}', '\u{2029}', '\u{202F}', '\u{205F}', '\u{3000}'] {
        assert!(is_whitespace(c));
        assert_eq!(is_whitespace(c), c.is_whitespace());
    }
    for c in ['a', '-', '\u{200B}', '\u{FEFF}', '\u{180E}', '\u{8}'] {
        assert!(!is_whitespace(c));
        assert_eq!(is_whitespace(c), c.is_whitespace());
    }
    assert_eq!(burst_headline(None, "hello\u{A0}world again"), "HELLO WORLD");
    assert!(is_burst_kind(Some("\u{3000}pet\t")));
}

#[test]
fn split_constraints_follow_the_companion() {
    let w = visible_widget(false);
    let layout = CompanionComposerLayout::new(&w);
    assert_eq!(
        layout.sidecar_split_constraints(100),
        vec![SizeConstraint::Min(36), SizeConstraint::Length(2), SizeConstraint::Length(20)]
    );
    assert_eq!(layout.sidecar_split_constraints(50), vec![SizeConstraint::Min(36), SizeConstraint::Length(2), SizeConstraint::Length(14)]);
    assert_eq!(layout.stacked_split_constraints(40), vec![SizeConstraint::Length(3), SizeConstraint::Min(1)]);
}

#[test]
fn float_height_counts_at_least_one_row_per_line() {
    let mut w = visible_widget(false);
    w.apply_events(&[reaction("Tail velocity critical", Some("pet"), None)], NOW);
    assert_eq!(w.desired_float_height(90, NOW), 6);
    assert_eq!(w.desired_float_height(60, NOW), 5);
}

#[test]
fn sidecar_areas_against_the_right_edge() {
    let w = visible_widget(false);
    let layout = CompanionComposerLayout::new(&w);
    assert_eq!(
        layout.render(Area { x: 5, y: 1, width: 60, height: 4 }),
        ComposerLayoutPlan::Sidecar {
            composer: Area { x: 5, y: 1, width: 38, height: 4 },
            companion: Area { x: 45, y: 1, width: 20, height: 4 },
        }
    );
    assert_eq!(
        layout.render(Area { x: 0, y: 2, width: 40, height: 4 }),
        ComposerLayoutPlan::Stacked {
            companion: Area { x: 0, y: 2, width: 40, height: 3 },
            composer: Area { x: 0, y: 5, width: 40, height: 1 },
        }
    );
}

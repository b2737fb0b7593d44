use studio_faces::action::{NodeCardDrawer, UiAction};
use studio_faces::add_node::{
    add_node_row, empty_source_class, paste_outcome, shows_imports, workspace_add_class,
    PasteOutcome, PeekedHeader, UiAddNodeMenu, UiAddNodeMenuEntry,
};
use studio_faces::button_face::{
    button_identity, press_button_class, press_drawing, press_ring_stroke, press_step, PressEvent,
    PressIds, PressOp, PressState, PressTimer, UiButtonFace, HOLD_TTL_MS, PRESS_WINDOW_MS,
    RENEWAL_MS,
};
use studio_faces::card_sections::{
    card_drawers, drawer_action, face_body, hero_sections, section_container_class, section_form,
    section_title, DrawerStates, SectionForm, UiSectionKind, SECTION_LABEL_TEXT_CLASS,
};
use studio_faces::clock_face::{
    clock_body, clock_note, live_traces, sync_traces, trace_canvas_ids, trace_labels, ClockBody,
    UiPhasorReading, UiTimebaseState, Waveform,
};
use studio_faces::fixture_face::{
    output_section, power_readout, toggle_class, EditorPress, EditorState, UiFixturePower,
};
use studio_faces::node_view::{UiNodeFace, UiPlainFaceKind, UiProductKind};
use studio_faces::playlist_face::{
    add_chip_class, entry_chip, format_playlist_duration, offers_add, playlist_duration_label,
    ChipPicture, UiPlaylistEntry,
};
use studio_faces::sign::{evening_face, playlist_face};

fn button(endpoint: Option<&str>, id: Option<u32>) -> UiButtonFace {
    UiButtonFace {
        node: "/demo.project/panel.button".to_string(),
        endpoint: endpoint.map(str::to_string),
        id,
    }
}

#[test]
fn renewals_stay_well_inside_the_hold_ttl() {
    assert!(RENEWAL_MS * 2 < HOLD_TTL_MS, "a hold must survive a missed renewal");
    assert!(
        PRESS_WINDOW_MS < RENEWAL_MS,
        "the hold must be established before the first renewal is due"
    );
}

#[test]
fn identity_degrades_one_piece_at_a_time() {
    assert_eq!(
        button_identity(&button(Some("button:gpio:D9"), Some(3))).as_deref(),
        Some("button:gpio:D9 · id 3")
    );
    assert_eq!(
        button_identity(&button(Some("button:gpio:D9"), None)).as_deref(),
        Some("button:gpio:D9")
    );
    assert_eq!(
        button_identity(&button(None, Some(3))).as_deref(),
        Some("id 3")
    );
    assert_eq!(button_identity(&button(None, None)), None);
}

#[test]
fn held_never_borrows_the_bound_or_good_families() {
    let held = press_ring_stroke(true);
    assert!(held.contains("status-live"), "held reads as a live runtime state");
    assert!(
        !held.contains("status-bound"),
        "violet is the binding/bus convention, not a diagnostic one"
    );
    assert!(!held.contains("status-good"), "green means good/valid, never state");
    assert!(
        press_ring_stroke(false).contains("border-strong"),
        "at rest the button sits in the neutral knob-body family"
    );
    assert!(press_button_class(true).contains("cursor-pointer"));
    assert!(!press_button_class(false).contains("cursor-pointer"));
}

#[test]
fn a_press_is_a_click_or_a_hold() {
    let mut ids = PressIds::new();
    let id = ids.next_press_id();
    let rest = PressState { gesture: None, held: false };
    let down = press_step(rest, PressEvent::PointerDown { id }, true);
    assert_eq!(down.send, None);
    assert_eq!(down.start, Some(PressTimer::Window { id, after_ms: PRESS_WINDOW_MS }));
    assert_eq!(
        press_step(down.state, PressEvent::PointerUp, true).send,
        Some(PressOp::Click)
    );
    let held = press_step(down.state, PressEvent::WindowElapsed { id }, true);
    assert_eq!(held.send, Some(PressOp::Press { id, ttl_ms: HOLD_TTL_MS }));
    assert!(held.state.held);
    let again = press_step(held.state, PressEvent::RenewalElapsed { id }, true);
    assert_eq!(again.send, Some(PressOp::Press { id, ttl_ms: HOLD_TTL_MS }));
    assert_eq!(
        press_step(held.state, PressEvent::PointerUp, true).send,
        Some(PressOp::Release { id })
    );
    assert_eq!(press_step(down.state, PressEvent::PointerCancel, true).send, None);
    let stale = press_step(rest, PressEvent::RenewalElapsed { id }, true);
    assert_eq!((stale.send, stale.start), (None, None));
    assert_eq!(press_step(rest, PressEvent::PointerDown { id }, false).start, None);
    assert!(press_drawing(held.state).highlight != press_drawing(rest).highlight);
    let mut last = PressIds { next: u32::MAX };
    assert_eq!(last.next_press_id(), u32::MAX);
    assert_eq!(last.next_press_id(), 0);
}

#[test]
fn only_non_first_sections_carry_the_divider() {
    assert!(!section_container_class(true, false).contains("border-t"));
    assert!(section_container_class(false, false).contains("tw:border-t tw:border-border-strong"));
}

#[test]
fn the_panel_tint_is_opt_in() {
    assert!(section_container_class(false, true).contains("linear-gradient"));
    assert!(!section_container_class(false, false).contains("linear-gradient"));
}

#[test]
fn rail_and_collapsed_row_share_one_label_typography() {
    for expectation in ["uppercase", "text-[0.6rem]", "tracking-[0.14em]", "font-bold"] {
        assert!(
            SECTION_LABEL_TEXT_CLASS.contains(expectation),
            "label typography lost {expectation}"
        );
    }
}

#[test]
fn sections_fold_where_they_can() {
    assert_eq!(section_form(None, true), SectionForm::Permanent);
    assert_eq!(section_form(Some(true), false), SectionForm::Permanent);
    assert_eq!(section_form(Some(true), true), SectionForm::Drawer);
    assert_eq!(section_form(Some(false), false), SectionForm::Collapsed);
    assert_eq!(section_title(SectionForm::Drawer, "code").as_deref(), Some("Collapse code"));
    assert_eq!(section_title(SectionForm::Collapsed, "code").as_deref(), Some("Expand code"));
    assert_eq!(section_title(SectionForm::Permanent, "code"), None);
    assert_eq!(
        drawer_action("/n", NodeCardDrawer::Code, true),
        UiAction::SetDrawer { node: "/n".to_string(), drawer: NodeCardDrawer::Code, open: true }
    );
}

#[test]
fn debug_sections_stand_above_the_advanced_drawer() {
    let states = DrawerStates { code_open: true, space_open: false, advanced_open: false };
    let kinds = vec![UiSectionKind::Ordinary, UiSectionKind::DebugSlots, UiSectionKind::Ordinary];
    let drawers = card_drawers(true, &None, true, &kinds, states);
    assert_eq!(drawers.code, Some(true));
    assert_eq!(drawers.space, None);
    assert_eq!(drawers.debug, vec![1]);
    assert_eq!(drawers.advanced_sections, vec![0, 2]);
    assert_eq!(drawers.advanced, Some(false));
    let only_debug = card_drawers(false, &None, false, &vec![UiSectionKind::DebugSlots], states);
    assert_eq!(only_debug.code, None);
    assert_eq!(only_debug.advanced, None);
    let shader = face_body(&UiNodeFace::Plain(UiPlainFaceKind::Shader));
    assert!(shader.code_drawer && shader.drawers);
    let playlist = face_body(&UiNodeFace::Plain(UiPlainFaceKind::Playlist));
    assert!(!playlist.code_drawer && playlist.drawers);
    let hero = hero_sections(0, true, false);
    assert!(!hero.controls && hero.agent && !hero.provenance);
}

fn entry(key: u32, name: &str) -> UiPlaylistEntry {
    UiPlaylistEntry {
        key,
        name: name.to_string(),
        duration_ms: None,
        cue: false,
        has_thumb: false,
        selectable: false,
    }
}

#[test]
fn durations_format_as_minutes_and_padded_seconds() {
    assert_eq!(format_playlist_duration(270_000), "4:30");
    assert_eq!(format_playlist_duration(180_000), "3:00");
    assert_eq!(format_playlist_duration(5_000), "0:05");
}

#[test]
fn cue_entries_without_duration_read_hold() {
    let mut cue = entry(3, "Tide");
    cue.cue = true;
    assert_eq!(playlist_duration_label(&cue), "hold");

    let mut timed = entry(1, "Aurora");
    timed.duration_ms = Some(270_000);
    assert_eq!(playlist_duration_label(&timed), "4:30");

    assert_eq!(playlist_duration_label(&entry(0, "Sunrise")), "");
}

#[test]
fn the_playing_entry_wears_its_badge() {
    let face = evening_face();
    let playing = entry_chip(&face, &face.entries[1], true);
    assert!(playing.active);
    assert_eq!(playing.picture, ChipPicture::Snapshot { badged: true });
    assert_eq!(playing.select_title.as_deref(), Some("Select Aurora"));
    assert!(playing.class.ends_with("tw:hover:border-border"));
    let tide = entry_chip(&face, &face.entries[3], false);
    assert_eq!(tide.duration, "hold");
    assert_eq!(tide.select_title, None);
    assert_eq!(entry_chip(&face, &entry(1, "x"), true).picture, ChipPicture::Placard);
    assert_eq!(entry_chip(&face, &entry(8, "x"), true).picture, ChipPicture::Blank);
    assert_eq!(playlist_face().entries[1].name, "Whirl");
    assert!(offers_add(true, true) && !offers_add(true, false) && !offers_add(false, true));
    assert!(add_chip_class(true).ends_with("tw:text-strong-foreground"));
    assert!(add_chip_class(true).starts_with(&add_chip_class(false)));
}

#[test]
fn the_editor_opens_on_the_card() {
    let mut state = EditorState::new(false, false);
    state.press(EditorPress::Pencil);
    state.press(EditorPress::Expand);
    let full = output_section(&state, UiProductKind::Control, true, true, true);
    assert!(full.edit_open && full.full && full.feeds_live);
    assert_eq!(full.home_class, "ux-map-home ux-map-home-full");
    assert_eq!(full.expand_title, "back to the card");
    state.press(EditorPress::Pencil);
    state.press(EditorPress::Pencil);
    let back = output_section(&state, UiProductKind::Visual, true, true, false);
    assert!(back.edit_open && !back.full && !back.feeds_live && !back.view_toggles);
    assert_eq!(state.refit, 1);
    state.press(EditorPress::Frame);
    assert!(state.fit_preview);
    let locked = output_section(&state, UiProductKind::Visual, false, true, true);
    assert!(!locked.edit_open && !locked.toggle_bar && !locked.pencil);
    assert_eq!(toggle_class(true), "ux-map-toggle ux-map-toggle-on");
}

#[test]
fn power_reads_as_an_estimate() {
    let power = UiFixturePower {
        estimated_draw_ma: 2400,
        budget_ma: 1000,
        percent: 240,
        limited_to: Some(41),
    };
    let readout = power_readout(&power);
    assert_eq!(
        readout.title,
        "estimated draw from the lamp type's power model — not measured\n2400 mA of 1000 mA budget"
    );
    assert_eq!(readout.estimate, "≈2400");
    assert_eq!(readout.budget, "/1000 mA (240%)");
    assert_eq!(readout.limiting.as_deref(), Some("limiting to 41%"));
    let fine = UiFixturePower { limited_to: None, ..power };
    assert_eq!(power_readout(&fine).limiting, None);
}

#[test]
fn kinds_that_cannot_be_added_say_why() {
    let mut kind = UiAddNodeMenuEntry {
        label: "Radio".into(),
        icon: "radio".into(),
        summary: "Add a radio".into(),
        unavailable: None,
    };
    let free = add_node_row(&kind, "row");
    assert_eq!((free.title.as_str(), free.class.as_str(), free.disabled), ("Add a radio", "row", false));
    kind.unavailable = Some("no radio on this board".into());
    let shut = add_node_row(&kind, "row");
    assert_eq!(shut.title, "no radio on this board — Add a radio");
    assert_eq!(shut.class, "row tw:opacity-55");
    assert_eq!(shut.annotation.as_deref(), Some("no radio on this board"));
    assert_eq!(empty_source_class("row"), "row tw:opacity-55");
    let mut menu = UiAddNodeMenu { entries: vec![], imports: vec![], imports_empty: None };
    assert!(!shows_imports(&menu));
    menu.imports_empty = Some("nothing yet".into());
    assert!(shows_imports(&menu));
    assert!(workspace_add_class(true).starts_with(&workspace_add_class(false)));
}

#[test]
fn only_nodes_are_pasted() {
    let node = PeekedHeader::Envelope { kind: "lp.node".into() };
    assert_eq!(
        paste_outcome("{}", &node, "lp.node"),
        PasteOutcome::Paste { envelope: "{}".to_string() }
    );
    let other = PeekedHeader::Envelope { kind: "lp.palette".into() };
    assert_eq!(
        paste_outcome("{}", &other, "lp.node"),
        PasteOutcome::Refuse {
            warning: "paste node: the clipboard holds a lp.palette envelope, not a node"
                .to_string()
        }
    );
    let junk = PeekedHeader::Unreadable { error: "not an envelope".into() };
    assert_eq!(
        paste_outcome("hello", &junk, "lp.node"),
        PasteOutcome::Refuse { warning: "paste node: not an envelope".to_string() }
    );
}

fn reading(label: &str, phase: f32) -> UiPhasorReading {
    UiPhasorReading {
        label: label.to_string(),
        detail: None,
        shared: false,
        phase: phase.to_bits(),
        cycle: 17,
        period_seconds: 20.0f32.to_bits(),
        rate_display: "3/min".to_string(),
        waveform: Waveform::Ramp,
        phase_offset: 0,
    }
}

#[test]
fn unchanged_readings_keep_their_traces() {
    let mut cards = Vec::new();
    let readings = vec![reading("plasma · phase", 0.62), reading("aurora · wave", 0.18)];
    let ids = trace_canvas_ids("phasor-trace-0", 2);
    assert_eq!(ids, vec!["phasor-trace-0-0".to_string(), "phasor-trace-0-1".to_string()]);
    assert_eq!(sync_traces(&mut cards, &readings, &ids, 5), vec![0, 1]);
    assert_eq!(sync_traces(&mut cards, &readings, &ids, 9), Vec::<usize>::new());
    assert_eq!(cards[0].anchored_at, 5);
    let moved = vec![reading("plasma · phase", 0.62), reading("aurora · wave", 0.2)];
    assert_eq!(sync_traces(&mut cards, &moved, &ids, 12), vec![1]);
    assert_eq!((cards[0].anchored_at, cards[1].anchored_at), (5, 12));
    let one = vec![reading("plasma · phase", 0.62)];
    assert_eq!(
        sync_traces(&mut cards, &one, &trace_canvas_ids("phasor-trace-0", 1), 20),
        Vec::<usize>::new()
    );
    assert_eq!(cards.len(), 1);
    assert!(!reading("a", f32::NAN).same(&reading("a", f32::NAN)));
    assert!(reading("a", 0.0).same(&reading("a", -0.0)));
}

#[test]
fn a_clock_says_what_it_knows() {
    assert_eq!(
        clock_note(clock_body(UiTimebaseState::Unread, 0)),
        Some("Reading the timebase…")
    );
    assert_eq!(
        clock_note(clock_body(UiTimebaseState::Unknown, 3)),
        Some("This clock is not producing a timebase.")
    );
    assert_eq!(
        clock_note(clock_body(UiTimebaseState::Live, 0)),
        Some("Nothing is riding this timebase.")
    );
    assert_eq!(clock_body(UiTimebaseState::Live, 3), ClockBody::Traces(3));
    assert_eq!(live_traces(UiTimebaseState::Unknown, 3), 0);
    let mut shared = reading("a", 0.5);
    shared.shared = true;
    shared.detail = Some("bus:speed in fyeah_sign".into());
    let labels = trace_labels(&shared);
    assert!(labels.card_class.contains("status-bound"));
    assert_eq!(labels.id_title, "bus:speed in fyeah_sign");
    assert_eq!(labels.cycles, "×17");
}

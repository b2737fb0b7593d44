use studio_faces::panel::{UiPanelControlState, UiSlotValue, WireScopeRef};
use studio_faces::pattern_picker::{
    action_block_class, held, now_playing, pattern_row, release, set_count, tour_row, PlaylistTour,
    UiPatternEntryState, UiPatternPickerEntry,
};
use studio_faces::pattern_set::{
    apply_picker_action, authored_tour, choker_set, human, pattern_group, piece_panel,
    playing_pattern, set_facts, skip_held, tour_held, twenty_five, with_initial, NamedScope,
    PatternPickerFacts, PickerAction, PlaylistChannels, FADE,
};

fn channels() -> PlaylistChannels {
    PlaylistChannels { tour: "playlist.tour".to_string(), skip: "playlist.skip".to_string() }
}

fn piece() -> WireScopeRef {
    WireScopeRef::Module { owner: 9 }
}

fn facts(active: u32) -> PatternPickerFacts {
    set_facts(&choker_set(), active, piece(), &channels())
}

fn entry(state: UiPatternEntryState) -> UiPatternPickerEntry {
    UiPatternPickerEntry {
        key: 1,
        name: "Aurora".to_string(),
        state,
        enabled: true,
        can_toggle: true,
    }
}

#[test]
fn names_read_as_their_cards_do() {
    assert_eq!(human("noise_soft"), "Noise soft");
    assert_eq!(human("fire2012"), "Fire2012");
    assert_eq!(human("a-b_c"), "A b c");
    assert_eq!(human("_x"), " x");
    assert_eq!(human("\u{e9}tude"), "\u{c9}tude");
    assert_eq!(human("\u{df}_x"), "SS x");
    assert_eq!(human("Z"), "Z");
    assert_eq!(human("9lives"), "9lives");
    assert_eq!(human(""), "");
    assert_eq!(with_initial("noise soft", "SS"), "SSoise soft");
    assert_eq!(with_initial("", "N"), "");
    for first in '\u{1}'..='\u{7f}' {
        let raw: String = [first, 'q'].iter().collect();
        let shown = human(&raw);
        let spaced = if first == '_' || first == '-' { ' ' } else { first };
        assert_eq!(shown.chars().next(), Some(spaced.to_ascii_uppercase()));
        assert_eq!(shown.chars().count(), 2);
    }
}

#[test]
fn sets_are_keyed_from_one() {
    let set = facts(2);
    assert_eq!(set.entries.len(), 5);
    assert_eq!((set.entries[0].key, set.entries[0].name.as_str()), (1, "Noise soft"));
    assert_eq!((set.entries[4].key, set.entries[4].name.as_str()), (5, "Fireflies"));
    assert_eq!(set.default_fade, Some(1.5f32.to_bits()));
    assert_eq!(FADE, 1.5f32.to_bits());
    assert_eq!(twenty_five().len(), 25);
    assert_eq!(twenty_five()[24], "twinkle_fox");
    assert_eq!(playing_pattern(&set), "Aurora");
    assert_eq!(playing_pattern(&facts(40)), "");
}

#[test]
fn the_device_answers_the_instrument() {
    let tour = authored_tour(30.0f32.to_bits());
    let played = apply_picker_action(facts(1), PickerAction::Activate { entry: 4 }, &channels());
    assert_eq!(played.active, Some(4));
    assert!(!held(&played.tour_target));

    let touring = apply_picker_action(
        facts(1),
        PickerAction::Write {
            channel: "playlist.tour".to_string(),
            as_tour: Some(tour),
            as_skip: None,
        },
        &channels(),
    );
    assert_eq!(touring.tour, tour);
    assert!(held(&touring.tour_target) && !held(&touring.skip_target));

    let skipping = apply_picker_action(
        facts(1),
        PickerAction::Write {
            channel: "playlist.skip".to_string(),
            as_tour: None,
            as_skip: Some(vec![2, 3]),
        },
        &channels(),
    );
    assert_eq!(skipping.skip, vec![2, 3]);
    assert!(held(&skipping.skip_target) && !held(&skipping.tour_target));

    let unread = apply_picker_action(
        facts(1),
        PickerAction::Write {
            channel: "playlist.tour".to_string(),
            as_tour: None,
            as_skip: Some(vec![1]),
        },
        &channels(),
    );
    assert_eq!(unread, facts(1));
    assert_eq!(apply_picker_action(facts(1), PickerAction::Other, &channels()), facts(1));
    let elsewhere = PickerAction::Write {
        channel: "speed".to_string(),
        as_tour: Some(tour),
        as_skip: Some(vec![1]),
    };
    assert_eq!(apply_picker_action(facts(1), elsewhere, &channels()), facts(1));
}

#[test]
fn the_instrument_is_held_with_its_tour_or_its_switches() {
    let at_rest = pattern_group(&facts(2), "Aurora", &channels());
    assert_eq!(at_rest.controls[0].state, UiPanelControlState::ReadDefault);
    assert_eq!(at_rest.controls[0].control.value, UiSlotValue::Text("Aurora".to_string()));
    for facts in [tour_held(facts(2)), skip_held(facts(2))] {
        let group = pattern_group(&facts, "Aurora", &channels());
        assert_eq!(group.controls[0].state, UiPanelControlState::Engaged);
    }
    let scope = NamedScope { path: "/playful.module".to_string(), target: piece() };
    let own = NamedScope {
        path: "/playful.module/aurora.module".to_string(),
        target: WireScopeRef::Module { owner: 10 },
    };
    let palette = UiSlotValue::Text("cycle".to_string());
    let panel = piece_panel(&facts(2), "Aurora", &channels(), &scope, &own, &palette);
    assert_eq!(panel.controls.len(), 4);
    assert_eq!(panel.groups[1].label, "Aurora");
    assert_eq!(
        panel.controls[0].control.value,
        UiSlotValue::F32(160.0f32.to_bits())
    );
    assert_eq!(
        panel.groups[1].controls[1].control.value,
        UiSlotValue::F32(0.45f32.to_bits())
    );
}

#[test]
fn rows_say_what_a_tap_does() {
    let playing = pattern_row(&entry(UiPatternEntryState::Playing), false);
    assert_eq!(playing.title, "Aurora is playing");
    assert_eq!(playing.tag.map(|tag| tag.0), Some("playing"));
    assert!(playing.current);
    let failed = pattern_row(&entry(UiPatternEntryState::Failed), false);
    assert_eq!(failed.title, "Aurora failed to load on the device — tap to try it again");
    assert_eq!(failed.tag.map(|tag| tag.0), Some("failed"));
    let mut off = entry(UiPatternEntryState::Skipped);
    off.enabled = false;
    off.can_toggle = false;
    let skipped = pattern_row(&off, true);
    assert_eq!(skipped.title, "Play Aurora (it is off in the tour)");
    assert_eq!(skipped.switch_label, "Aurora is off in the tour — tap to include it");
    assert!(skipped.switch_disabled && skipped.square_class.contains("engaged"));
    assert!(skipped.row_class.contains("dashed"));
    let free = pattern_row(&entry(UiPatternEntryState::Available), true);
    assert_eq!(free.title, "Play Aurora");
    assert_eq!(free.switch_label, "Aurora is on in the tour — tap to skip it");
    assert_eq!(free.tag, None);
}

#[test]
fn the_tour_row_follows_the_tour() {
    let set = tour_held(facts(1));
    let running = tour_row(authored_tour(30.0f32.to_bits()), "30 s", &set.tour_target, true);
    assert_eq!(running.line, "every 30 s");
    assert!(running.step_blocks && !running.disabled && running.release.is_some());
    assert!(running.switch_class.contains("status-engaged-bg"));
    let resting = tour_row(PlaylistTour::Hold, "", &facts(1).tour_target, false);
    assert_eq!(resting.line, "staying on the playing pattern");
    assert!(!resting.step_blocks && resting.disabled && resting.release.is_none());
    assert_eq!(PlaylistTour::Hold.step_seconds(), None);
    assert_eq!(release(&None), None);
    assert_eq!(set_count(25), "25 patterns");
    assert!(action_block_class(true).contains("cursor-pointer"));
    assert!(!action_block_class(false).contains("cursor-pointer"));
    assert_eq!(now_playing(&vec![]), "—");
    assert_eq!(
        now_playing(&vec![
            entry(UiPatternEntryState::Available),
            entry(UiPatternEntryState::Playing),
        ]),
        "Aurora"
    );
}

#[test]
fn a_name_without_a_small_letter_first_stays_as_it_is() {
    assert_eq!(human("3d_noise"), "3d noise");
    assert_eq!(human("Aurora-two"), "Aurora two");
    assert_eq!(human("_soft"), " soft");
    assert_eq!(human(""), "");
}

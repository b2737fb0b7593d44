use studio_faces::action::UiAction;
use studio_faces::panel::{UiPanelTarget, WireScopeRef};
use studio_faces::slot::{LpValue, ProjectSlotAddress};
use studio_faces::tape::{
    adjacent_detent, format_clock, offlive_line, on_detent, override_clear_action, scrub_step,
    tape_px_per_sec, tape_sync, tape_tick_pair, tape_ticks, transport_chrome, transport_gesture,
    wants_frame, ClockTime, ScrubEvent, ScrubState, TransportFacts, UiPanelWire, UiPanelWireRole,
};
use studio_faces::text::{join, strip_suffixes, trim, white_space};

fn clock(seconds: f64, tenths: bool) -> String {
    let whole = seconds.abs();
    format_clock(ClockTime {
        negative: seconds < 0.0,
        seconds: whole.floor() as u64,
        tenths: tenths.then(|| ((whole % 1.0) * 10.0).floor() as u64),
    })
}

#[test]
fn clock_digits_format_calm_and_signed() {
    assert_eq!(clock(0.0, false), "0:00");
    assert_eq!(clock(447.0, false), "7:27");
    assert_eq!(clock(59.999, false), "0:59");
    assert_eq!(clock(60.0, false), "1:00");
    assert_eq!(clock(3600.0, false), "1:00:00");
    assert_eq!(clock(3.0 * 3600.0 + 47.0 * 60.0, false), "3:47:00");
    assert_eq!(clock(-12.4, false), "\u{2212}0:12");
    assert_eq!(clock(447.35, true), "7:27.3");
    assert_eq!(clock(-12.46, true), "\u{2212}0:12.4");
}

#[test]
fn zoom_is_fixed_so_rate_changes_velocity() {
    assert_eq!(tape_px_per_sec() as f64 / 1000.0, 14.0);
}

#[test]
fn tick_ladder_adapts_to_zoom() {
    let pair = |px: f64| {
        let (minor, major) = tape_tick_pair((px * 1000.0) as u64);
        (minor as f64 / 10.0, major as f64 / 10.0)
    };
    assert_eq!(pair(tape_px_per_sec() as f64 / 1000.0), (1.0, 5.0));
    assert_eq!(pair(1.75), (5.0, 30.0));
    assert_eq!(pair(56.0), (0.2, 1.0));
    assert_eq!(pair(0.01), (900.0, 3600.0));
}

#[test]
fn arrows_step_detent_to_detent() {
    let step = |rate: f32, up: bool| f32::from_bits(adjacent_detent(rate.to_bits(), up));
    assert_eq!(step(1.0, true), 2.0);
    assert_eq!(step(1.0, false), 0.5);
    assert_eq!(step(1.5, true), 2.0);
    assert_eq!(step(1.5, false), 1.0);
    assert_eq!(step(8.0, true), 8.0);
    assert_eq!(step(0.25, false), 0.25);
}

#[test]
fn detents_are_the_octaves() {
    for rate in [0.25f32, 0.5, 1.0, 2.0, 4.0, 8.0] {
        assert!(on_detent(rate.to_bits()));
    }
    assert!(on_detent(1.0f32.to_bits()));
    assert!(!on_detent(1.3f32.to_bits()));
    assert!(!on_detent(f32::NAN.to_bits()));
    assert_eq!(offlive_line(true, 71), "\u{2212}7.1 s · live");
    assert_eq!(offlive_line(false, 3), "+0.3 s · live");
}

#[test]
fn ticks_label_every_major() {
    let ticks = tape_ticks(58, 61, 10, 50);
    assert_eq!(ticks.len(), 4);
    assert_eq!(ticks[0].label, None);
    assert_eq!(ticks[2].label.as_deref(), Some("1:00"));
    assert!(tape_ticks(3, 2, 10, 50).is_empty());
}

#[test]
fn moves_are_throttled_and_letting_go_lands() {
    let rest = ScrubState { dragging: false, preview: None, last_sent_ms: 1000 };
    let down = scrub_step(rest, ScrubEvent::Down, true);
    assert!(down.state.dragging);
    let next = 2.0f32.to_bits();
    let early = scrub_step(
        down.state,
        ScrubEvent::Move { buttons_held: true, next, now_ms: 1049 },
        true,
    );
    assert_eq!((early.send, early.state.preview), (None, Some(next)));
    let due = scrub_step(
        early.state,
        ScrubEvent::Move { buttons_held: true, next, now_ms: 1050 },
        true,
    );
    assert_eq!(due.send, Some(next));
    let up = scrub_step(early.state, ScrubEvent::Up, true);
    assert_eq!((up.send, up.state.dragging, up.state.preview), (Some(next), false, None));
    assert_eq!(scrub_step(early.state, ScrubEvent::Cancel, true).send, None);
    assert!(!scrub_step(rest, ScrubEvent::Down, false).state.dragging);
    assert!(tape_sync(false, Some(false)).reanchor);
    assert!(!tape_sync(true, Some(false)).reanchor);
    assert!(!tape_sync(false, Some(true)).paint);
    assert!(wants_frame(false, true, None));
    assert!(!wants_frame(false, true, Some(true)));
}

#[test]
fn gestures_land_where_their_dimension_is_wired() {
    let address = ProjectSlotAddress::new("/sign.show/clock.clock", "def", "rate");
    let wires = vec![UiPanelWire {
        role: UiPanelWireRole::Rate,
        panel_target: Some(UiPanelTarget {
            scope: WireScopeRef::Module { owner: 1 },
            channel: "clock.rate".to_string(),
            engaged: false,
        }),
    }];
    let wired = transport_gesture(UiPanelWireRole::Rate, &Some(address.clone()), &wires).unwrap();
    assert_eq!(
        wired.send(LpValue::F32(0)),
        Some(UiAction::PanelWrite {
            scope: WireScopeRef::Module { owner: 1 },
            channel: "clock.rate".to_string(),
            value: LpValue::F32(0),
        })
    );
    let plain = transport_gesture(UiPanelWireRole::Scrub, &Some(address.clone()), &wires).unwrap();
    assert_eq!(
        plain.send(LpValue::F32(0)),
        Some(UiAction::SetValue { address: address.clone(), value: LpValue::F32(0) })
    );
    assert_eq!(transport_gesture(UiPanelWireRole::Scrub, &None, &wires), None);
    assert_eq!(override_clear_action(&None), None);
    assert_eq!(
        override_clear_action(&Some(address.clone())),
        Some(UiAction::ClearEdit { address })
    );
    let facts = TransportFacts {
        playing: true,
        offlive: true,
        return_live: true,
        dragging: false,
        scrub_wired: true,
        play_state_wired: true,
        rate_editable: true,
        play_state_overridden: false,
        rate_overridden: false,
        rate: 1.0f32.to_bits(),
    };
    let chrome = transport_chrome(facts);
    assert!(chrome.box_class.contains("attention"));
    assert_eq!(chrome.run_title, "Pause the clock");
    assert!(chrome.readout_class.contains("accent"));
    assert!(!chrome.time_disabled);
}

#[test]
fn white_space_is_what_unicode_says() {
    for code in 0..=0x10ffffu32 {
        if let Some(c) = char::from_u32(code) {
            assert_eq!(white_space(c), c.is_whitespace(), "{code:x}");
        }
    }
    for text in ["", "  ", " a b ", "\u{2003}x\u{85}", "x"] {
        assert_eq!(trim(text), text.trim());
    }
    assert_eq!(strip_suffixes("a.glsl.glsl", ".glsl"), "a");
    assert_eq!(join(&vec!["a".to_string(), "b".to_string()], ", "), "a, b");
    assert_eq!(join(&vec![], ", "), "");
}

#[test]
fn arrows_step_from_any_rate() {
    let step = |rate: f32, up| f32::from_bits(adjacent_detent(rate.to_bits(), up));
    for rate in [-1.0f32, -0.0, 0.0, 0.1, f32::NEG_INFINITY] {
        assert_eq!(step(rate, true), 0.25);
        assert_eq!(step(rate, false), 0.25);
    }
    for rate in [9.0f32, f32::INFINITY] {
        assert_eq!(step(rate, true), 8.0);
        assert_eq!(step(rate, false), 8.0);
    }
    assert_eq!(step(f32::NAN, true), 8.0);
    assert_eq!(step(-f32::NAN, true), 8.0);
    assert_eq!(step(f32::NAN, false), 0.25);
    assert_eq!(step(0.25, true), 0.5);
    assert_eq!(step(8.0, false), 4.0);
}

#[test]
fn any_zoom_has_a_pair_of_steps() {
    assert_eq!(tape_tick_pair(u64::MAX), (2, 10));
    assert_eq!(tape_tick_pair(0), (9000, 36000));
    assert_eq!(tape_tick_pair(44_000), (2, 10));
    assert_eq!(tape_tick_pair(43_999), (10, 50));
}

#[test]
fn marks_run_as_far_as_time_is_counted() {
    let far = u64::MAX / 10;
    let ticks = tape_ticks(far - 1, far, 10, 50);
    assert_eq!(ticks.len(), 2);
    assert_eq!(ticks[1].index, far);
    // Steps that do not divide: a label on the nearest whole number of marks.
    let ticks = tape_ticks(0, 4, 10, 16);
    let labelled = ticks.iter().map(|tick| tick.label.is_some()).collect::<Vec<_>>();
    assert_eq!(labelled, vec![true, false, true, false, true]);
    assert!(tape_ticks(3, 2, 10, 50).is_empty());
}

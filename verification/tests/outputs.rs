use studio_faces::action::UiAction;
use studio_faces::output_face::{
    add_channel, channel_caption, channel_key_class, channels_summary, endpoint_with_pin,
    next_channel_key, pin_display, pin_mark, pin_state, remainder_allowed, wired_connections,
    PinMark, PinState, UiOutputBoardFacts, UiOutputChannelRow, UiOutputFace, UiOutputPin,
};
use studio_faces::output_spread::{
    count_cell, spread_actions, spread_label, spread_plan, spread_snaps, CountCell,
};
use studio_faces::patch_bay::{
    bay_summary, bay_summary_class, cell_box, cell_class, cell_paint_key, cell_strip_rgba,
    cell_strip_samples, fixture_caption, fixture_side_label, needs_paint, port_caption,
    wire_side_label, Rgb, UiFixturePatch, UiPatchBay, UiPatchCell, UiPatchPort,
};
use studio_faces::sign::{output_channel, output_face, BoardManifest, BoardPin};
use studio_faces::slot::{LpValue, ProjectSlotAddress};
use studio_faces::spread::spread_counts;

fn channels_address() -> ProjectSlotAddress {
    ProjectSlotAddress::new("/demo.project/strips.output", "def", "channels")
}

fn face(total: Option<u32>, wires: &[(u32, &str, Option<u32>)]) -> UiOutputFace {
    let mut start = Some(0u32);
    let channels = wires
        .iter()
        .map(|(key, pin, count)| {
            let slice_start = start;
            match count {
                Some(count) => start = start.map(|start| start + count),
                None => start = None,
            }
            UiOutputChannelRow {
                key: *key,
                endpoint_display: format!("ws281x:local:{pin}"),
                pin_label: (*pin).to_string(),
                count: *count,
                resolved_count: *count,
                slice_start,
                ..UiOutputChannelRow::default()
            }
        })
        .collect();
    let mut face = UiOutputFace {
        channels,
        channels_address: Some(channels_address()),
        ..UiOutputFace::default()
    };
    if let Some(total) = total {
        face.resolve_extent(total);
    }
    face
}

#[test]
fn an_even_split_puts_the_remainder_on_the_last_wire() {
    assert_eq!(spread_counts(1200, 5, &[]), vec![240, 240, 240, 240, 240]);
    assert_eq!(spread_counts(1000, 3, &[]), vec![333, 333, 334]);
    assert_eq!(spread_counts(7, 1, &[]), vec![7]);
    assert_eq!(spread_counts(0, 3, &[]), vec![0, 0, 0]);
    assert!(spread_counts(100, 0, &[]).is_empty());
}

#[test]
fn spans_snap_the_cuts_to_path_boundaries() {
    let boundaries = [0, 90, 200, 295];
    assert_eq!(spread_counts(400, 2, &boundaries), vec![200, 200]);
    assert_eq!(spread_counts(400, 3, &boundaries), vec![90, 205, 105]);
}

#[test]
fn the_dome_story_s_before_state_spreads_to_exactly_its_after_state() {
    assert_eq!(
        spread_counts(1500, 5, &[0, 280, 610, 900, 1210]),
        vec![280, 330, 290, 310, 290]
    );
}

#[test]
fn a_boundary_is_never_reused_and_a_starved_cut_falls_back_to_even() {
    assert_eq!(spread_counts(300, 3, &[0, 90, 300]), vec![90, 110, 100]);
}

#[test]
fn every_lamp_is_handed_out() {
    for total in [0u32, 1, 7, 300, 1500] {
        for wires in 1usize..6 {
            for grid in [&[][..], &[0, 90, 110][..], &[1, 2, 3, 4][..]] {
                let shares = spread_counts(total, wires, grid);
                assert_eq!(shares.len(), wires);
                assert_eq!(shares.iter().sum::<u32>(), total);
            }
        }
    }
    assert_eq!(spread_counts(u32::MAX, 2, &[]), vec![2147483647, 2147483648]);
}

#[test]
fn the_plan_leaves_the_remainder_wire_and_already_correct_wires_alone() {
    let face = face(
        Some(1200),
        &[
            (0, "IO18", Some(300)),
            (1, "IO16", Some(100)),
            (2, "IO14", Some(500)),
            (3, "IO2", None),
        ],
    );

    assert_eq!(spread_plan(&face), vec![(1, 300), (2, 300)]);
}

#[test]
fn the_plan_writes_the_last_wire_when_its_count_is_authored() {
    let face = face(Some(90), &[(0, "IO18", Some(10)), (1, "IO16", Some(80))]);

    assert_eq!(spread_plan(&face), vec![(0, 45), (1, 45)]);
}

#[test]
fn nothing_spreads_without_an_extent_or_a_second_wire() {
    assert!(
        spread_plan(&face(None, &[(0, "IO18", Some(10)), (1, "IO2", None)])).is_empty(),
        "the incoming extent is what there is to spread"
    );
    assert!(
        spread_plan(&face(Some(300), &[(0, "IO18", None)])).is_empty(),
        "one wire has nothing to spread across"
    );
}

#[test]
fn the_label_says_which_split_the_gesture_performs() {
    let mut face = face(Some(400), &[(0, "IO18", Some(200)), (1, "IO2", None)]);
    assert_eq!(spread_label(&face), "divide lamps evenly");
    face.span_boundaries = vec![0, 90];
    assert_eq!(spread_label(&face), "fit counts to strips");
    face.span_boundaries = vec![0];
    assert_eq!(spread_label(&face), "divide lamps evenly");
    assert!(!spread_snaps(&face));
}

#[test]
fn only_wires_on_a_real_gpio_reach_the_diagram() {
    let mut face = face(Some(400), &[(0, "IO18", Some(200)), (1, "IO27", None)]);
    face.channels[0].gpio = Some(18);
    face.board = Some(UiOutputBoardFacts {
        board_id: "domraem/dom-z-102".to_string(),
        display_name: "DOM-Z-102".to_string(),
        pins: vec![UiOutputPin {
            label: "IO18".to_string(),
            gpio: 18,
            assigned_to: Some(0),
        }],
    });

    let wired = wired_connections(&face);
    assert_eq!(wired.len(), 1, "IO27 resolves to no gpio: {wired:?}");
    assert_eq!(wired[0].gpio, 18);
    assert_eq!(wired[0].title, "ch0");
    assert_eq!(wired[0].extra.as_deref(), Some("×200"));
}

#[test]
fn the_summary_prefers_the_incoming_extent_over_the_authored_one() {
    let resolved = face(Some(1200), &[(0, "IO18", Some(300)), (1, "IO2", None)]);
    assert_eq!(channels_summary(&resolved), "2 wires · 1200 lamps");

    let authored = face(None, &[(0, "IO18", Some(300)), (1, "IO2", Some(60))]);
    assert_eq!(channels_summary(&authored), "2 wires · 360 lamps authored");

    let unknown = face(None, &[(0, "IO18", None)]);
    assert_eq!(channels_summary(&unknown), "1 wire · lamps unknown");
}

#[test]
fn the_caption_reads_the_slice_and_names_an_unresolved_pin() {
    let mut face = face(Some(400), &[(0, "IO18", Some(200)), (1, "IO27", None)]);
    face.channels[0].gpio = Some(18);
    assert_eq!(
        channel_caption(&face.channels[0], true),
        "lamps 0–199 · gpio 18"
    );
    assert_eq!(
        channel_caption(&face.channels[1], true),
        "lamps 200–399 · IO27 unresolved",
        "the KNOWN board has no IO27"
    );
}

#[test]
fn without_a_board_a_pin_is_shown_plainly_rather_than_called_unresolved() {
    let face = face(Some(400), &[(0, "IO18", Some(200)), (1, "IO27", None)]);
    assert_eq!(
        channel_caption(&face.channels[0], false),
        "lamps 0–199 · IO18"
    );
    assert_eq!(
        channel_caption(&face.channels[1], false),
        "lamps 200–399 · IO27"
    );
    for channel in &face.channels {
        let chip = channel_key_class(channel, false);
        assert!(!chip.contains("status-attention"), "{chip}");
        assert!(!chip.contains("status-bound"), "{chip}");
    }
}

#[test]
fn a_picked_pin_keeps_the_wire_s_capability_and_target() {
    assert_eq!(
        endpoint_with_pin("ws281x:local:IO18", "IO2"),
        "ws281x:local:IO2"
    );
    assert_eq!(
        endpoint_with_pin("ws281x:remote7:IO18", "D5"),
        "ws281x:remote7:D5"
    );
    assert_eq!(endpoint_with_pin("", "IO18"), "ws281x:local:IO18");
    assert_eq!(endpoint_with_pin("garbage", "IO18"), "ws281x:local:IO18");
}

#[test]
fn the_added_wire_lands_past_the_highest_key() {
    assert_eq!(next_channel_key(&face(None, &[])), 0);
    assert_eq!(
        next_channel_key(&face(None, &[(0, "IO18", Some(1)), (4, "IO2", None)])),
        5
    );
}

#[test]
fn pins_and_counts_say_what_they_offer() {
    let mut face = face(Some(400), &[(0, "IO18", Some(200)), (1, "", None)]);
    assert_eq!(pin_state(&face.channels[1], true), PinState::Unnamed);
    assert_eq!(pin_display(&face.channels[1]), "no pin");
    assert_eq!(pin_state(&face.channels[0], true), PinState::NotOnBoard);
    assert_eq!(pin_state(&face.channels[0], false), PinState::Named);
    face.channels[0].gpio = Some(18);
    assert_eq!(pin_state(&face.channels[0], true), PinState::Wired(18));
    let other = UiOutputPin { label: "IO2".into(), gpio: 2, assigned_to: Some(1) };
    assert_ne!(pin_mark(&other, &face.channels[0]), PinMark::Free);
    assert!(!remainder_allowed(&face, 0));
    assert!(remainder_allowed(&face, 1));
    assert_eq!(add_channel(&face).is_some(), true);
    match count_cell(&face, &face.channels[1]) {
        CountCell::Rest { text, freeze } => {
            assert_eq!(text, "200");
            assert_eq!(freeze.len(), 2);
        }
        CountCell::Authored { .. } => panic!("the second wire takes the rest"),
    }
    match count_cell(&face, &face.channels[0]) {
        CountCell::Authored { count, drop } => {
            assert_eq!(count, 200);
            assert_eq!(drop, None);
        }
        CountCell::Rest { .. } => panic!("the first wire has a count"),
    }
}

#[test]
fn spreading_is_a_list_of_count_writes() {
    let even = output_face(
        None,
        vec![output_channel(0, "IO18", Some(10)), output_channel(1, "IO16", Some(80))],
        Some(90),
        vec![],
    );
    assert_eq!(even.input_binding.as_deref(), Some("bus:show.control"));
    assert_eq!(
        spread_actions(&even),
        vec![
            UiAction::SetValue {
                address: ProjectSlotAddress::new(
                    "/fyeah_sign.show/strips.output",
                    "def",
                    "channels[0].count.some"
                ),
                value: LpValue::U32(45),
            },
            UiAction::SetValue {
                address: ProjectSlotAddress::new(
                    "/fyeah_sign.show/strips.output",
                    "def",
                    "channels[1].count.some"
                ),
                value: LpValue::U32(45),
            },
        ]
    );
}

fn pin(label: &str, output_eligible: bool, gpio: Option<u32>) -> BoardPin {
    BoardPin { label: label.to_string(), output_eligible, gpio }
}

#[test]
fn the_output_fixtures_assemble_the_way_the_real_derivation_does() {
    let desk = BoardManifest {
        board_id: "domraem/dom-z-102".to_string(),
        display_name: "DOM-Z-102".to_string(),
        pins: vec![
            pin("IO13", true, Some(13)),
            pin("GND", false, None),
            pin("IO18", true, Some(18)),
            pin("IO16", true, Some(16)),
            pin("IO0", false, Some(0)),
            pin("IO14", true, Some(14)),
            pin("IO2", true, Some(2)),
        ],
        terminals: vec![],
    };
    let face = output_face(
        Some(&desk),
        vec![
            output_channel(0, "IO18", Some(280)),
            output_channel(1, "IO2", None),
        ],
        Some(1500),
        vec![0, 280],
    );

    assert_eq!(face.channels[0].gpio, Some(18), "IO18 resolves on the desk board");
    assert_eq!(face.channels[0].slice_start, Some(0));
    assert_eq!(face.channels[1].slice_start, Some(280));
    assert_eq!(
        face.channels[1].resolved_count,
        Some(1220),
        "the count-less wire takes what is left of the 1500"
    );
    let board = face.board.as_ref().expect("the desk board is known");
    assert!(!board.display_name.is_empty());
    let assigned: Vec<(&str, Option<u32>)> = board
        .pins
        .iter()
        .map(|pin| (pin.label.as_str(), pin.assigned_to))
        .collect();
    assert_eq!(
        assigned,
        [
            ("IO13", None),
            ("IO18", Some(0)),
            ("IO16", None),
            ("IO14", None),
            ("IO2", Some(1)),
        ]
    );

    let uno = BoardManifest {
        board_id: "quinled/dig-uno".to_string(),
        display_name: "Dig-Uno".to_string(),
        pins: vec![],
        terminals: vec![pin("LED1", true, Some(16))],
    };
    let dig_uno = output_face(
        Some(&uno),
        vec![output_channel(0, "LED1", None)],
        Some(241),
        Vec::new(),
    );
    assert!(dig_uno.channels[0].gpio.is_some(), "LED1 is an eligible pin");
}

fn cell(
    producer: &str,
    source_start: u32,
    lamps: u32,
    wire_start: u32,
    reversed: bool,
) -> UiPatchCell {
    UiPatchCell {
        id: format!("2:0:{source_start}:{wire_start}"),
        producer: producer.to_string(),
        source_start,
        lamps,
        wire_start,
        reversed,
        output_label: "Output".to_string(),
        ..UiPatchCell::default()
    }
}

#[test]
fn each_face_labels_the_other_side() {
    let mut run = cell("peach_body", 22, 22, 34, true);
    assert_eq!(wire_side_label(&run), "peach_body 22–43 ◀");
    assert_eq!(fixture_side_label(&run), "→ ch34 ◀");
    run.port_label = "D10".to_string();
    assert_eq!(
        fixture_side_label(&run),
        "→ D10 ch34 ◀",
        "the pin joins the label once a project has more than one port to confuse"
    );
    let forward = cell("peach_leaf", 0, 12, 22, false);
    assert_eq!(wire_side_label(&forward), "peach_leaf 0–11 ▶");
}

#[test]
fn degenerate_runs_get_honest_labels() {
    assert_eq!(wire_side_label(&cell("strip", 7, 1, 0, false)), "strip 7 ▶");
    assert_eq!(
        wire_side_label(&cell("strip", 7, 0, 0, false)),
        "strip empty ▶"
    );
}

#[test]
fn the_summary_names_contested_and_unclaimed_lamps() {
    let mut bay = UiPatchBay {
        ports: vec![UiPatchPort {
            cells: vec![cell("body", 0, 22, 0, false)],
            ..UiPatchPort::default()
        }],
        ..UiPatchBay::default()
    };
    assert_eq!(bay_summary(&bay), "1 cell");
    assert!(!bay_summary_class(&bay).contains("status-error"));
    bay.gap_lamps = 2;
    assert_eq!(bay_summary(&bay), "1 cell · 2 unclaimed");
    bay.contested_lamps = 4;
    assert_eq!(bay_summary(&bay), "1 cell · 4 contested · 2 unclaimed");
    assert!(bay_summary_class(&bay).contains("status-error"));
}

#[test]
fn no_cell_state_wears_the_bound_violet() {
    for contested in [false, true] {
        for lit in [false, true] {
            let class = cell_class(contested, lit);
            assert!(!class.contains("status-bound"), "{class}");
        }
    }
}

#[test]
fn the_captions_read_the_two_spans() {
    assert_eq!(
        port_caption(&UiPatchPort {
            key: 0,
            pin_label: "D10".to_string(),
            start: 0,
            lamps: 56,
            cells: Vec::new(),
        }),
        "ch0 · D10 · channels 0–55"
    );
    let single = UiFixturePatch {
        lamps: 12,
        cells: vec![cell("leaf", 0, 12, 22, false)],
        single_output: true,
    };
    assert_eq!(fixture_caption(&single), "12 lamps · one run");
    let split = UiFixturePatch {
        lamps: 44,
        cells: vec![
            cell("body", 0, 22, 0, false),
            cell("body", 22, 22, 34, true),
        ],
        ..single
    };
    assert_eq!(fixture_caption(&split), "44 lamps · 2 runs");
}

#[test]
fn strips_read_their_row_s_way() {
    let run = cell("body", 0, 3, 10, true);
    assert_eq!(cell_strip_samples(&run, true), vec![30, 33, 36]);
    assert_eq!(cell_strip_samples(&run, false), vec![36, 33, 30]);
    let dark = Rgb { r: 1, g: 2, b: 3 };
    assert_eq!(
        cell_strip_rgba(&vec![Some(Rgb { r: 9, g: 8, b: 7 }), None], dark),
        vec![9, 8, 7, 255, 1, 2, 3, 255]
    );
    let key = cell_paint_key(&run, Some((7, 30)), true);
    assert!(needs_paint(None, key));
    assert!(!needs_paint(Some(key), key));
    assert!(needs_paint(Some(cell_paint_key(&run, None, true)), key));
    let drawn = cell_box(&run, 0, true, Some("2:0:0:10"));
    assert_eq!(drawn.offset, 10);
    assert!(drawn.class.contains("tw:ring-1"));
}

#[test]
fn boundaries_outside_the_buffer_change_no_split() {
    let plain = spread_counts(400, 3, &[90, 295]);
    assert_eq!(plain, vec![90, 205, 105]);
    assert_eq!(spread_counts(400, 3, &[0, 90, 400, 295, 0, 4000]), plain);
    assert_eq!(spread_counts(400, 3, &[0, 400]), spread_counts(400, 3, &[]));
}

#[test]
fn a_plan_that_was_carried_out_leaves_nothing() {
    let mut spread = face(
        Some(1200),
        &[(0, "IO18", Some(300)), (1, "IO16", Some(100)), (2, "IO14", None), (3, "IO2", None)],
    );
    let plan = spread_plan(&spread);
    assert_eq!(plan, vec![(1, 300), (2, 300)]);
    for channel in &mut spread.channels {
        if let Some((_, count)) = plan.iter().find(|(key, _)| *key == channel.key) {
            channel.count = Some(*count);
        }
    }
    assert!(spread_plan(&spread).is_empty());
    assert!(spread_actions(&spread).is_empty());
}

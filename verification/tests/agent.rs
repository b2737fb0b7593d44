use studio_faces::agent_chat::{
    chat_chrome, composer_key, debug_dump_file_name, dispatch_send, draws_thumb, dropped_label,
    export_button_class, export_chrome, history_chip_class, history_chip_title, history_dot_class,
    history_entry_for_row, is_near_bottom, model_chip_class, model_chip_options, model_chip_title,
    model_choice, model_list_opened, model_option_label, notice_class, retry_hint,
    row_draws_thumb, send_button_class, settings_option_label, setup_line, shows_setup, take_dump, thinking_turn,
    thumb_title, tool_dot_class, tool_row, tool_row_key, transcript_class, usage_line,
    wears_cursor, ComposerKey, SettingsCommand, UiAgentAvailability, UiAgentHistoryEntry,
    UiAgentModelView, UiAgentStatus, UiAgentToolRow, UiAgentTurn, UiModelOption, UiNoticeLevel,
    UiProductPreview, SETTINGS_MODEL_VALUE,
};
use studio_faces::sign::{history_entries, history_thumb};

fn row() -> UiAgentToolRow {
    UiAgentToolRow::started("tu_1")
}

#[test]
fn the_dot_is_good_only_for_a_valid_compile() {
    let mut unjudged = row();
    unjudged.done = true;
    let class = tool_dot_class(&unjudged);
    assert!(!class.contains("status-"));
    assert!(class.contains("dim-foreground"));
    unjudged.shader_ok = Some(true);
    assert!(tool_dot_class(&unjudged).contains("status-good"));
    unjudged.error = Some("host refused".to_string());
    assert!(tool_dot_class(&unjudged).contains("status-error"));
}

#[test]
fn staged_edits_keep_the_snapshot_of_their_seed() {
    let edits = history_entries();
    assert_eq!(edits[0].thumb, Some(history_thumb(0)));
    assert_eq!(edits[1].thumb, None);
    assert_eq!(edits[2].thumb, Some(history_thumb(2)));
}

#[test]
fn a_tool_row_draws_the_snapshot_of_a_good_edit() {
    let mut entry = history_entries()[0].clone();
    assert!(row_draws_thumb(&entry));
    for verdict in [Some(false), None] {
        entry.engine_ok = verdict;
        assert!(!row_draws_thumb(&entry));
        assert!(draws_thumb(&entry.thumb));
    }
    entry.engine_ok = Some(true);
    entry.thumb = None;
    assert!(!row_draws_thumb(&entry));
}

#[test]
fn tool_dot_tracks_running_error_and_valid_states() {
    let running = row();
    assert!(tool_dot_class(&running).contains("status-working"));

    let mut ok = row();
    ok.done = true;
    ok.shader_ok = Some(true);
    assert!(tool_dot_class(&ok).contains("status-good"));

    let mut failed = row();
    failed.done = true;
    failed.shader_ok = Some(false);
    assert!(tool_dot_class(&failed).contains("status-error"));

    let mut errored = row();
    errored.done = true;
    errored.error = Some("host refused".into());
    assert!(tool_dot_class(&errored).contains("status-error"));
}

#[test]
fn send_button_keeps_geometry_across_enable_states() {
    for enabled in [true, false] {
        let class = send_button_class(enabled);
        assert!(class.contains("tw:px-3"));
        assert!(class.contains("tw:transition"));
    }
}

#[test]
fn near_bottom_threshold_is_forgiving() {
    assert!(is_near_bottom(952, 1400, 400));
    assert!(!is_near_bottom(0, 1400, 400));
}

#[test]
fn near_bottom_ends_at_the_threshold() {
    assert!(!is_near_bottom(951, 1400, 400));
    assert!(is_near_bottom(-48, i32::MAX, i32::MAX) == true);
    assert!(!is_near_bottom(-49, i32::MAX, i32::MAX));
}

#[test]
fn history_dot_tracks_the_engine_verdict() {
    assert!(history_dot_class(Some(true)).contains("status-good"));
    assert!(history_dot_class(Some(false)).contains("status-error"));
    assert!(!history_dot_class(None).contains("status-"));
}

#[test]
fn history_chip_keeps_geometry_while_busy() {
    for busy in [true, false] {
        let class = history_chip_class(busy);
        assert!(class.contains("tw:p-1"));
        assert!(class.contains("tw:flex-col"));
    }
    assert!(history_chip_class(true).contains("tw:cursor-default"));
    assert!(history_chip_class(false).contains("tw:cursor-pointer"));
}

#[test]
fn tool_rows_adopt_their_history_entry_by_edit_turn() {
    let entry = UiAgentHistoryEntry {
        turn: 2,
        note: Some("warm the palette".into()),
        thumb: None,
        engine_ok: Some(true),
    };
    let history = vec![entry.clone()];

    let mut staged = row();
    staged.edit_turn = Some(2);
    assert_eq!(history_entry_for_row(&history, &staged), Some(entry));

    staged.edit_turn = Some(1);
    assert_eq!(history_entry_for_row(&history, &staged), None);
    assert_eq!(history_entry_for_row(&history, &row()), None);
}

#[test]
fn model_chip_options_include_the_unlisted_current_model() {
    let listed = UiModelOption {
        id: "listed-model-5".into(),
        label: Some("Listed Model 5".into()),
        detail: None,
    };
    let mut model = UiAgentModelView {
        effective: Some("listed-model-5".into()),
        options: vec![listed.clone()],
        loading: false,
    };
    assert_eq!(model_chip_options(&model), vec![listed.clone()]);

    model.effective = Some("my-custom-model".into());
    let options = model_chip_options(&model);
    assert_eq!(options.len(), 2);
    assert_eq!(options[0].id, "my-custom-model");
    assert_eq!(options[0].label, None);
    assert_eq!(options[1], listed);
}

#[test]
fn model_chip_keeps_geometry_across_run_states() {
    for busy in [true, false] {
        let class = model_chip_class(busy);
        assert!(class.contains("tw:text-[10px]"));
        assert!(class.contains("tw:transition"));
    }
    assert!(model_chip_class(true).contains("tw:cursor-default"));
    assert!(model_chip_class(false).contains("tw:cursor-pointer"));
}

#[test]
fn dump_file_name_uses_the_shader_stem() {
    assert_eq!(debug_dump_file_name("/pulse.glsl"), "pulse-agent-debug.json");
}

#[test]
fn dump_file_names_of_odd_paths() {
    assert_eq!(debug_dump_file_name("a/b/ring.glsl.glsl"), "ring-agent-debug.json");
    assert_eq!(debug_dump_file_name("plain"), "plain-agent-debug.json");
    assert_eq!(debug_dump_file_name("a/"), "-agent-debug.json");
    assert_eq!(debug_dump_file_name(".glsl"), "-agent-debug.json");
    assert_eq!(debug_dump_file_name("x.glslx"), "x.glslx-agent-debug.json");
}

#[test]
fn a_draft_is_sent_trimmed_and_cleared() {
    let mut draft = "  make it slower \n".to_string();
    assert_eq!(dispatch_send(&mut draft), Some("make it slower".to_string()));
    assert_eq!(draft, "");

    let mut blank = " \t\u{3000}".to_string();
    assert_eq!(dispatch_send(&mut blank), None);
    assert_eq!(blank, " \t\u{3000}");
}

#[test]
fn chrome_follows_the_run() {
    let user = || UiAgentTurn::User { text: "go".into() };
    let idle = chat_chrome(&UiAgentStatus::Idle, &vec![], 0, false, true);
    assert!(idle.can_send && idle.invites && !idle.offers_stop && !idle.shows_history);
    assert_eq!(idle.working_row, None);

    let waiting = chat_chrome(&UiAgentStatus::Streaming, &vec![user()], 1, true, true);
    assert!(!waiting.can_send && waiting.offers_stop && waiting.shows_history);
    assert_eq!(waiting.working_row, Some("Thinking\u{2026}"));

    let running = chat_chrome(&UiAgentStatus::RunningTool, &vec![user()], 0, true, true);
    assert_eq!(running.working_row, Some("Running experiment\u{2026}"));

    let writing = chat_chrome(
        &UiAgentStatus::Streaming,
        &vec![user(), UiAgentTurn::Assistant { text: "Ea".into() }],
        0,
        true,
        true,
    );
    assert!(writing.streaming_tail);
    assert_eq!(writing.working_row, None);

    let thinking = chat_chrome(
        &UiAgentStatus::Streaming,
        &vec![UiAgentTurn::Thinking { text: "hm".into(), done: false }],
        0,
        true,
        true,
    );
    assert!(!thinking.streaming_tail);
    assert_eq!(thinking.working_row, None);

    let thought = chat_chrome(
        &UiAgentStatus::Streaming,
        &vec![UiAgentTurn::Thinking { text: "hm".into(), done: true }],
        0,
        true,
        false,
    );
    assert_eq!(thought.working_row, Some("Thinking\u{2026}"));
    assert_eq!(thought.placeholder, "Loading shader source\u{2026}");
    assert!(wears_cursor(true, 1, 2));
    assert!(!wears_cursor(true, 0, 2));
    assert!(!wears_cursor(false, 1, 2));
    assert!(!wears_cursor(true, usize::MAX, 0));
}

#[test]
fn keys_send_type_or_do_nothing() {
    assert_eq!(composer_key(true, false, true), ComposerKey::Send);
    assert_eq!(composer_key(true, false, false), ComposerKey::Swallowed);
    assert_eq!(composer_key(true, true, true), ComposerKey::Typed);
    assert_eq!(composer_key(false, false, true), ComposerKey::Typed);
}

#[test]
fn a_dump_is_downloaded_once() {
    let mut taken = 0;
    assert!(!take_dump(&mut taken, None));
    assert!(take_dump(&mut taken, Some(3)));
    assert!(!take_dump(&mut taken, Some(3)));
    assert!(!take_dump(&mut taken, Some(2)));
    assert!(take_dump(&mut taken, Some(4)));
    assert_eq!(taken, 4);
}

#[test]
fn words_of_the_chat() {
    assert_eq!(usage_line(2841, 512), "2841 in · 512 out tokens this session");
    assert_eq!(dropped_label(0), None);
    assert_eq!(dropped_label(7), Some("+7 older".to_string()));
    assert_eq!(retry_hint(true), "Try sending again.");
    assert_eq!(retry_hint(false), "Check your key or model in Settings, then retry.");
    assert_eq!(
        setup_line(&None),
        "Or finish setting up a provider in Settings (the gear icon, top right)."
    );
    assert_eq!(
        setup_line(&Some("Ollama".into())),
        "Or finish setting up Ollama in Settings (the gear icon, top right)."
    );
    assert!(shows_setup(UiAgentAvailability::NeedsKey));
    assert!(!shows_setup(UiAgentAvailability::Ready));
    assert_eq!(
        model_chip_title(true),
        "Model for the next run — wait for this run to finish to switch"
    );
    assert_eq!(model_chip_title(false), "Model for the next run — custom ids in Settings");
    assert_eq!(settings_option_label(true), "fetching model list…");
    assert_eq!(settings_option_label(false), "Custom / more — Settings");
    assert_eq!(tool_row_key(3, &row()), "3-tu_1");
}

#[test]
fn choosing_a_model_asks_the_settings() {
    assert_eq!(model_choice(SETTINGS_MODEL_VALUE), None);
    assert_eq!(
        model_choice("m"),
        Some(SettingsCommand::SetAgentModel(Some("m".to_string())))
    );
    assert_eq!(model_list_opened(), SettingsCommand::RequestModels { force: false });
    let named = UiModelOption { id: "m".into(), label: Some("Em".into()), detail: None };
    assert_eq!(model_option_label(&named), "Em");
    let bare = UiModelOption { id: "m".into(), label: None, detail: None };
    assert_eq!(model_option_label(&bare), "m");
}

#[test]
fn rows_unfold_where_they_hold_something() {
    let shut = thinking_turn("because", true, false);
    assert_eq!(shut.title, "Show what the model thought");
    assert_eq!(shut.mark, Some("▸"));
    assert!(!shut.shows_body);
    let open = thinking_turn("because", false, true);
    assert_eq!(open.title, "Show the thinking as it streams");
    assert_eq!(open.mark, Some("▾"));
    assert!(open.shows_body);
    let private = thinking_turn("", true, true);
    assert_eq!(private.title, "The provider kept this thinking private");
    assert_eq!(private.mark, None);
    assert!(!private.shows_body);
    assert_eq!(thinking_turn("", false, true).title, "Waiting for the model");

    let mut detailed = row();
    detailed.detail = "{}".into();
    assert_eq!(tool_row(&detailed, true).title, "Show experiment detail");
    assert!(tool_row(&detailed, true).shows_body);
    assert_eq!(tool_row(&row(), true).title, "Experiment running");
}

#[test]
fn staged_edits_say_what_reverting_does() {
    let history = history_entries();
    assert_eq!(
        history_chip_title(&history[0], false),
        "Revert to turn 1: slow the rings down (stages the source; Save keeps it)"
    );
    assert_eq!(
        history_chip_title(&history[0], true),
        "Turn 1: slow the rings down — stop the run to revert"
    );
    let unnamed = UiAgentHistoryEntry { turn: 9, note: None, thumb: None, engine_ok: None };
    assert_eq!(
        history_chip_title(&unnamed, true),
        "Turn 9: this edit — stop the run to revert"
    );
    assert_eq!(thumb_title(&history[0]), "Edit 1 — how it looked");
    assert_eq!(thumb_title(&history[1]), "Edit 2 — no snapshot");
    assert!(draws_thumb(&history[0].thumb));
    assert!(!draws_thumb(&history[1].thumb));
    assert!(!draws_thumb(&Some(UiProductPreview::Other)));
}

#[test]
fn snapshots_band_along_the_diagonal() {
    for seed in [0u8, 2, 3, 255] {
        let mut expected = Vec::new();
        for y in 0..32u32 {
            for x in 0..32u32 {
                let band = ((x + y) / 8) as u8;
                expected.push(40u8.wrapping_add(seed.wrapping_mul(70)).wrapping_add(band * 18));
                expected.push(180u8.wrapping_sub(seed.wrapping_mul(50)).wrapping_sub(band * 12));
                expected.push(90u8.wrapping_add(band * 24));
            }
        }
        match history_thumb(seed) {
            UiProductPreview::VisualSrgb8 { width, height, revision, bytes } => {
                assert_eq!((width, height, revision), (32, 32, u64::from(seed)));
                assert_eq!(bytes, expected);
            }
            UiProductPreview::Other => panic!("a snapshot is a picture"),
        }
    }
}

#[test]
fn exports_need_a_conversation_at_rest() {
    let none = export_chrome(0, false);
    assert!(!none.can_copy && !none.can_dump);
    let busy = export_chrome(2, true);
    assert!(busy.can_copy && !busy.can_dump);
    assert_eq!(busy.dump_title, "Debug export is available when the run finishes");
    let rest = export_chrome(2, false);
    assert!(rest.can_copy && rest.can_dump);
    assert!(export_button_class(true).ends_with("tw:hover:text-accent"));
    assert!(export_button_class(false).ends_with("tw:opacity-40"));
}

#[test]
fn transcripts_lock_their_height_once_there_are_turns() {
    assert_eq!(
        transcript_class(true),
        "tw:grid tw:h-80 tw:content-start tw:gap-2 tw:overflow-auto tw:bg-card-subtle tw:px-3 tw:py-3"
    );
    assert!(transcript_class(false).contains("tw:min-h-40"));
    assert!(notice_class(UiNoticeLevel::Warning).contains("status-warning"));
    assert!(!notice_class(UiNoticeLevel::Info).contains("status-"));
}

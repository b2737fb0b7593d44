//! What the agent's chat pane does, said of the calls that do it: what a draft sends,
//! what of the conversation is shown, and which of the footer's buttons are live.

use vstd::prelude::*;
use vstd::string::*;

use crate::agent_chat::{
    chat_chrome, composer_key, debug_dump_file_name, dispatch_send, draws_thumb, dropped_label,
    export_button_class, export_chrome, first_entry, history_chip_class, history_chip_title,
    history_dot_class, history_entry_for_row, is_near_bottom, model_chip_class,
    model_chip_options, model_chip_title, model_choice, model_list_opened, model_option_label,
    notice_class, retry_hint, row_draws_thumb, send_button_class, settings_option_label,
    setup_line, shows_setup, take_dump, thinking_turn, thumb_title, tool_dot_class, tool_row,
    tool_row_key, transcript_class, usage_line, wears_cursor, ChatChrome, ComposerKey,
    ExportChrome, SettingsCommand, UiAgentAvailability, UiAgentHistoryEntry, UiAgentModelView,
    UiAgentStatus, UiAgentToolRow, UiAgentTurn, UiModelOption, UiNoticeLevel, Unfolding,
};
use crate::text::{decimal, find_last_segment, strip_suffixes, trim};

verus! {

// -- the composer --------------------------------------------------------------------

/// A draft sends its text without the white space around it, and is empty afterwards;
/// one that holds nothing else sends nothing and stays as it is.
pub proof fn a_draft_sends_its_text(
    draft: &mut String,
    text: &str,
    middle: String,
    r: Option<String>,
)
    requires
        text@ == old(draft)@,
        call_ensures(trim, (text,), middle),
        call_ensures(dispatch_send, (draft,), r),
    ensures
        r is Some <==> middle@.len() > 0,
        r matches Some(sent) ==> sent@ == middle@ && final(draft)@.len() == 0,
        r is None ==> final(draft)@ == old(draft)@,
{
}

/// Only Enter without Shift is taken from the text area, and it sends only where
/// something can be sent.
pub proof fn only_a_bare_enter_sends(enter: bool, shift: bool, can_send: bool, r: ComposerKey)
    requires
        call_ensures(composer_key, (enter, shift, can_send), r),
    ensures
        r == ComposerKey::Send <==> enter && !shift && can_send,
        r == ComposerKey::Swallowed <==> enter && !shift && !can_send,
        r == ComposerKey::Typed <==> !enter || shift,
{
}

// -- the conversation ----------------------------------------------------------------

proof fn the_first_of_a_turn(history: Seq<UiAgentHistoryEntry>, turn: u32, i: int)
    requires
        0 <= i < history.len(),
        history[i].turn == turn,
        forall|k: int| 0 <= k < i ==> (#[trigger] history[k]).turn != turn,
    ensures
        first_entry(history, turn) == Some(history[i]@),
    decreases i,
{
    if i > 0 {
        let rest = history.skip(1);
        assert(rest[i - 1] == history[i]);
        assert forall|k: int| 0 <= k < i - 1 implies (#[trigger] rest[k]).turn != turn by {
            assert(rest[k] == history[k + 1]);
        }
        the_first_of_a_turn(rest, turn, i - 1);
        assert(history[0].turn != turn);
    }
}

proof fn none_of_a_turn(history: Seq<UiAgentHistoryEntry>, turn: u32)
    requires
        forall|k: int| 0 <= k < history.len() ==> (#[trigger] history[k]).turn != turn,
    ensures
        first_entry(history, turn) is None,
    decreases history.len(),
{
    if history.len() > 0 {
        let rest = history.skip(1);
        assert forall|k: int| 0 <= k < rest.len() implies (#[trigger] rest[k]).turn != turn by {
            assert(rest[k] == history[k + 1]);
        }
        none_of_a_turn(rest, turn);
        assert(history[0].turn != turn);
    }
}

/// A tool row's edit is the first of the history that was recorded for the turn the
/// row names, with its verdict, its note and its snapshot.
pub proof fn a_row_finds_its_own_edit(
    history: &Vec<UiAgentHistoryEntry>,
    row: &UiAgentToolRow,
    i: int,
    r: Option<UiAgentHistoryEntry>,
)
    requires
        0 <= i < history@.len(),
        row.edit_turn == Some(history@[i].turn),
        forall|k: int| 0 <= k < i ==> (#[trigger] history@[k]).turn != history@[i].turn,
        call_ensures(history_entry_for_row, (history, row), r),
    ensures
        r is Some,
        r->Some_0.turn == history@[i].turn,
        r->Some_0.engine_ok == history@[i].engine_ok,
        r->Some_0.note is Some <==> history@[i].note is Some,
        r->Some_0.note is Some ==> r->Some_0.note->Some_0@ == history@[i].note->Some_0@,
        r->Some_0.thumb is Some <==> history@[i].thumb is Some,
        r->Some_0.thumb is Some ==> r->Some_0.thumb->Some_0@ == history@[i].thumb->Some_0@,
{
    the_first_of_a_turn(history@, history@[i].turn, i);
}

/// A row that names no turn, or one that the history does not hold, has no edit.
pub proof fn a_row_without_an_edit_finds_none(
    history: &Vec<UiAgentHistoryEntry>,
    row: &UiAgentToolRow,
    r: Option<UiAgentHistoryEntry>,
)
    requires
        row.edit_turn matches Some(turn) ==> forall|k: int|
            0 <= k < history@.len() ==> (#[trigger] history@[k]).turn != turn,
        call_ensures(history_entry_for_row, (history, row), r),
    ensures
        r is None,
{
    if let Some(turn) = row.edit_turn {
        none_of_a_turn(history@, turn);
    }
}

/// A draft can be sent to an agent at rest whose source is there; a busy agent can be
/// stopped, and shows that it is at work: by the reply or the thought that it is
/// writing at the tail, or else by a row that says what it does.
pub proof fn a_busy_agent_shows_its_work(
    status: &UiAgentStatus,
    turns: &Vec<UiAgentTurn>,
    history: usize,
    busy: bool,
    source_resolved: bool,
    r: ChatChrome,
)
    requires
        call_ensures(chat_chrome, (status, turns, history, busy, source_resolved), r),
    ensures
        r.can_send <==> !busy && source_resolved,
        r.offers_stop == busy,
        r.invites <==> turns@.len() == 0,
        r.shows_history <==> history != 0,
        source_resolved ==> r.placeholder@
            == "Ask for a change\u{2026} (Enter sends, Shift+Enter for a new line)"@,
        !source_resolved ==> r.placeholder@ == "Loading shader source\u{2026}"@,
        r.streaming_tail <==> *status is Streaming && turns@.len() > 0
            && turns@.last() is Assistant,
        ({
            let writes = (*status is Streaming && turns@.len() > 0 && turns@.last() is Assistant)
                || (turns@.len() > 0 && turns@.last() is Thinking
                && !turns@.last()->Thinking_done);
            &&& r.working_row is Some <==> busy && !writes
            &&& r.working_row is Some && *status is RunningTool ==> r.working_row->Some_0@
                == "Running experiment\u{2026}"@
            &&& r.working_row is Some && !(*status is RunningTool) ==> r.working_row->Some_0@
                == "Thinking\u{2026}"@
        }),
{
}

/// Only the last turn wears the cursor, and only while a reply is written there.
pub proof fn only_the_last_turn_wears_the_cursor(
    streaming_tail: bool,
    index: usize,
    turns: usize,
    r: bool,
)
    requires
        call_ensures(wears_cursor, (streaming_tail, index, turns), r),
    ensures
        r ==> streaming_tail && index == turns - 1,
        streaming_tail && index == turns - 1 ==> r,
{
}

/// A row that starts is named, and nothing is known of it yet; two rows of a
/// conversation are told apart by their places.
pub proof fn a_row_starts_unknown(id: &str, r: UiAgentToolRow, index: usize, key: String)
    requires
        call_ensures(UiAgentToolRow::started, (id,), r),
        call_ensures(tool_row_key, (index, &r), key),
    ensures
        r.id@ == id@,
        !r.done,
        r.note is None && r.edit_turn is None && r.shader_ok is None && r.error is None,
        r.detail@.len() == 0,
        key@ == decimal(index as nat) + "-"@ + id@,
{
}

/// A row unfolds where it holds something, and shows it while it is open.
pub open spec fn opens(r: Unfolding, holds: bool, open: bool) -> bool {
    &&& r.mark is Some <==> holds
    &&& r.shows_body <==> holds && open
    &&& holds && open ==> r.mark->Some_0@ == "\u{25be}"@
    &&& holds && !open ==> r.mark->Some_0@ == "\u{25b8}"@
}

/// A thought unfolds where it has words, and its title says whether it is still
/// written; a tool row unfolds where it has detail.
pub proof fn a_turn_unfolds_what_it_holds(
    text: &str,
    done: bool,
    open: bool,
    thought: Unfolding,
    row: &UiAgentToolRow,
    tool: Unfolding,
)
    requires
        call_ensures(thinking_turn, (text, done, open), thought),
        call_ensures(tool_row, (row, open), tool),
    ensures
        opens(thought, text@.len() > 0, open),
        done && text@.len() > 0 ==> thought.title@ == "Show what the model thought"@,
        done && text@.len() == 0 ==> thought.title@ == "The provider kept this thinking private"@,
        !done && text@.len() > 0 ==> thought.title@ == "Show the thinking as it streams"@,
        !done && text@.len() == 0 ==> thought.title@ == "Waiting for the model"@,
        opens(tool, row.detail@.len() > 0, open),
        row.detail@.len() > 0 ==> tool.title@ == "Show experiment detail"@,
        row.detail@.len() == 0 ==> tool.title@ == "Experiment running"@,
{
}

/// A tool row's dot works while the call runs; afterwards an error, or a compile
/// judged bad, shows before anything good does, and what was not judged stays neutral.
pub proof fn a_dot_is_good_only_where_judged_so(
    row: &UiAgentToolRow,
    r: &'static str,
    engine_ok: Option<bool>,
    dot: &'static str,
    level: UiNoticeLevel,
    notice: &'static str,
)
    requires
        call_ensures(tool_dot_class, (row,), r),
        call_ensures(history_dot_class, (engine_ok,), dot),
        call_ensures(notice_class, (level,), notice),
    ensures
        !row.done ==> r@ == crate::agent_chat::TOOL_DOT_WORKING@,
        row.done && row.error is Some ==> r@ == crate::agent_chat::TOOL_DOT_ERROR@,
        row.done && row.shader_ok == Some(false) ==> r@ == crate::agent_chat::TOOL_DOT_ERROR@,
        row.done && row.error is None && row.shader_ok == Some(true) ==> r@
            == crate::agent_chat::TOOL_DOT_GOOD@,
        row.done && row.error is None && row.shader_ok is None ==> r@
            == crate::agent_chat::TOOL_DOT_UNJUDGED@,
        engine_ok == Some(true) ==> dot@ == crate::agent_chat::HISTORY_DOT_GOOD@,
        engine_ok == Some(false) ==> dot@ == crate::agent_chat::HISTORY_DOT_ERROR@,
        engine_ok is None ==> dot@ == crate::agent_chat::HISTORY_DOT_UNKNOWN@,
        level == UiNoticeLevel::Warning ==> notice@ == crate::agent_chat::NOTICE_WARNING@,
        level == UiNoticeLevel::Info ==> notice@ == crate::agent_chat::NOTICE_PLAIN@,
{
}

// -- the history ---------------------------------------------------------------------

/// A chip draws a snapshot that is a picture; a row draws one only of an edit that was
/// judged good; and a row's title says whether there is a snapshot at all.
pub proof fn a_snapshot_is_drawn_of_a_good_edit(
    entry: &UiAgentHistoryEntry,
    chip: bool,
    row: bool,
    title: String,
)
    requires
        call_ensures(draws_thumb, (&entry.thumb,), chip),
        call_ensures(row_draws_thumb, (entry,), row),
        call_ensures(thumb_title, (entry,), title),
    ensures
        chip <==> (entry.thumb is Some && entry.thumb->Some_0 is VisualSrgb8),
        row <==> chip && entry.engine_ok == Some(true),
        entry.thumb is Some ==> title@ == "Edit "@ + decimal(entry.turn as nat)
            + " \u{2014} how it looked"@,
        entry.thumb is None ==> title@ == "Edit "@ + decimal(entry.turn as nat)
            + " \u{2014} no snapshot"@,
{
}

/// A chip names its turn and what the edit set out to do, and offers to go back only
/// while no run is in flight; edits that have left the history are counted.
pub proof fn a_chip_names_its_edit(
    entry: &UiAgentHistoryEntry,
    at_rest: String,
    busy: String,
    dropped: u64,
    label: Option<String>,
)
    requires
        call_ensures(history_chip_title, (entry, false), at_rest),
        call_ensures(history_chip_title, (entry, true), busy),
        call_ensures(dropped_label, (dropped,), label),
    ensures
        ({
            let aim = if entry.note is Some {
                entry.note->Some_0@
            } else {
                "this edit"@
            };
            &&& at_rest@ == "Revert to turn "@ + decimal(entry.turn as nat) + ": "@ + aim
                + " (stages the source; Save keeps it)"@
            &&& busy@ == "Turn "@ + decimal(entry.turn as nat) + ": "@ + aim
                + " \u{2014} stop the run to revert"@
        }),
        label is None <==> dropped == 0,
        label matches Some(words) ==> words@ == "+"@ + decimal(dropped as nat) + " older"@,
{
}

// -- the footer ----------------------------------------------------------------------

/// The footnote gives what went in before what came out.
pub proof fn the_footnote_gives_in_before_out(input: u64, output: u64, r: String)
    requires
        call_ensures(usage_line, (input, output), r),
    ensures
        r@ == decimal(input as nat) + " in \u{00b7} "@ + decimal(output as nat)
            + " out tokens this session"@,
{
}

/// Every fetched model can be chosen, in order, and so can the one in use: it stands
/// before them where they do not name it, and nowhere twice on that account.
pub proof fn the_model_in_use_can_be_chosen(
    model: &UiAgentModelView,
    r: Vec<UiModelOption>,
)
    requires
        call_ensures(model_chip_options, (model,), r),
    ensures
        model.effective is None ==> r@ == model.options@,
        model.effective matches Some(id) ==> {
            let listed = exists|i: int|
                0 <= i < model.options@.len() && (#[trigger] model.options@[i]).id@ == id@;
            &&& listed ==> r@ == model.options@
            &&& !listed ==> r@.len() == model.options@.len() + 1 && r@[0].id@ == id@
                && r@[0].label is None && r@[0].detail is None && r@.subrange(
                1,
                r@.len() as int,
            ) == model.options@
        },
{
    if r@.len() > 0 {
        assert(r@.skip(1) =~= r@.subrange(1, r@.len() as int));
    }
}

/// Choosing a model sets that model; the option that points at the settings asks for
/// nothing; and opening the list fetches it at leisure.
pub proof fn a_chosen_model_is_set(
    value: &str,
    r: Option<SettingsCommand>,
    opened: SettingsCommand,
    option: &UiModelOption,
    label: String,
)
    requires
        call_ensures(model_choice, (value,), r),
        call_ensures(model_list_opened, (), opened),
        call_ensures(model_option_label, (option,), label),
    ensures
        r is None <==> value@ == "__settings__"@,
        r matches Some(command) ==> command is SetAgentModel && command->SetAgentModel_0 is Some
            && command->SetAgentModel_0->Some_0@ == value@,
        opened == (SettingsCommand::RequestModels { force: false }),
        option.label is None ==> label@ == option.id@,
        option.label is Some ==> label@ == option.label->Some_0@,
{
}

/// A dump is downloaded exactly where its number is beyond those already taken, and it
/// counts as taken afterwards; no number is ever given back.
pub proof fn a_dump_is_downloaded_once(
    taken: &mut u64,
    seq: u64,
    r: bool,
    other: &mut u64,
    none: bool,
)
    requires
        call_ensures(take_dump, (taken, Some(seq)), r),
        call_ensures(take_dump, (other, None), none),
    ensures
        r <==> seq > *old(taken),
        *final(taken) >= seq,
        *final(taken) == seq || *final(taken) == *old(taken),
        !r ==> *final(taken) == *old(taken),
        !none && *final(other) == *old(other),
{
}

/// Both exports take a conversation, and the dump an agent at rest.
pub proof fn an_export_takes_a_conversation(turns: usize, busy: bool, r: ExportChrome)
    requires
        call_ensures(export_chrome, (turns, busy), r),
    ensures
        r.can_copy <==> turns != 0,
        r.can_dump <==> turns != 0 && !busy,
        busy ==> r.dump_title@ == "Debug export is available when the run finishes"@,
        !busy ==> r.dump_title@ == "Download the raw model transcript (JSON) for debugging"@,
{
}

/// A dump's file is named by the stem of the shader's own file.
pub proof fn a_dump_is_named_by_its_shader(
    path: &str,
    file: String,
    name: &str,
    stem: String,
    r: String,
)
    requires
        call_ensures(find_last_segment, (path, '/'), file),
        name@ == file@,
        call_ensures(strip_suffixes, (name, ".glsl"), stem),
        call_ensures(debug_dump_file_name, (path,), r),
    ensures
        r@ == stem@ + "-agent-debug.json"@,
{
    reveal_strlit(".glsl");
}

/// The words and looks that only say which of two states holds: the setup in place of
/// the chat, the advice after an error, and the inert and live looks of what can be
/// pressed.
pub proof fn each_state_has_its_words(
    availability: UiAgentAvailability,
    setup: bool,
    again: &'static str,
    check: &'static str,
    busy_title: &'static str,
    title: &'static str,
    fetching: &'static str,
    more: &'static str,
    provider: &Option<String>,
    line: String,
)
    requires
        call_ensures(shows_setup, (availability,), setup),
        call_ensures(retry_hint, (true,), again),
        call_ensures(retry_hint, (false,), check),
        call_ensures(model_chip_title, (true,), busy_title),
        call_ensures(model_chip_title, (false,), title),
        call_ensures(settings_option_label, (true,), fetching),
        call_ensures(settings_option_label, (false,), more),
        call_ensures(setup_line, (provider,), line),
    ensures
        setup <==> availability == UiAgentAvailability::NeedsKey,
        again@ == "Try sending again."@,
        check@ == "Check your key or model in Settings, then retry."@,
        busy_title@ == "Model for the next run \u{2014} wait for this run to finish to switch"@,
        title@ == "Model for the next run \u{2014} custom ids in Settings"@,
        fetching@ == "fetching model list\u{2026}"@,
        more@ == "Custom / more \u{2014} Settings"@,
        *provider is Some ==> line@ == "Or finish setting up "@ + provider->Some_0@
            + " in Settings (the gear icon, top right)."@,
        *provider is None ==> line@ == "Or finish setting up "@ + "a provider"@
            + " in Settings (the gear icon, top right)."@,
{
}

/// What can be pressed looks live, and what cannot looks inert, on the same geometry.
pub proof fn what_is_inert_looks_inert(
    on: bool,
    model: String,
    export: String,
    history: String,
    send: String,
    transcript: String,
)
    requires
        call_ensures(model_chip_class, (on,), model),
        call_ensures(export_button_class, (on,), export),
        call_ensures(history_chip_class, (on,), history),
        call_ensures(send_button_class, (on,), send),
        call_ensures(transcript_class, (on,), transcript),
    ensures
        on ==> model@ == crate::agent_chat::MODEL_CHIP@ + "tw:cursor-default tw:opacity-50"@,
        !on ==> model@ == crate::agent_chat::MODEL_CHIP@
            + "tw:cursor-pointer tw:hover:border-border-subtle tw:hover:text-muted-foreground"@,
        on ==> history@ == crate::agent_chat::HISTORY_CHIP@ + "tw:cursor-default tw:opacity-50"@,
        !on ==> history@ == crate::agent_chat::HISTORY_CHIP@
            + "tw:cursor-pointer tw:hover:border-accent-border tw:hover:bg-accent-wash"@,
        on ==> send@ == crate::agent_chat::SEND_BUTTON@
            + "tw:cursor-pointer tw:border-accent-border tw:text-accent tw:hover:bg-accent-wash"@,
        !on ==> send@ == crate::agent_chat::SEND_BUTTON@
            + "tw:cursor-default tw:border-border-subtle tw:text-subtle-foreground tw:opacity-40"@,
        on ==> export@ == crate::agent_chat::EXPORT_BUTTON@ + crate::agent_chat::EXPORT_BUTTON_ON@,
        !on ==> export@ == crate::agent_chat::EXPORT_BUTTON@
            + "tw:cursor-default tw:border-border-subtle tw:text-subtle-foreground tw:opacity-40"@,
        on ==> transcript@ == "tw:grid "@ + "tw:h-80"@ + crate::agent_chat::TRANSCRIPT_REST@,
        !on ==> transcript@ == "tw:grid "@ + "tw:min-h-40"@
            + crate::agent_chat::TRANSCRIPT_REST@,
{
}

/// The transcript follows its bottom while no more than so many pixels lie below the
/// visible part.
pub proof fn the_transcript_follows_its_bottom(
    scroll_top: i64,
    scroll_height: i32,
    client_height: i32,
    r: bool,
)
    requires
        call_ensures(is_near_bottom, (scroll_top, scroll_height, client_height), r),
    ensures
        r <==> scroll_top + client_height + 48 >= scroll_height,
{
}

} // verus!
